//! Whole file contents, as sequences of lines: the rewrite that accepts every
//! change, and the search report.
use vstd::prelude::*;
use crate::instance::{RSRInstance, SearchHit};
use crate::replacer::StringReplacer;
use crate::text::{cow_into_string, trim_of};

verus! {

/// The lines of a rewrite that accepts every change: each line as the
/// matcher replaces it.
pub open spec fn rewritten(m: StringReplacer, lines: Seq<Seq<char>>) -> Seq<Seq<char>> {
    lines.map_values(|l: Seq<char>| m.replaced(l))
}

/// What a search of `lines` reports: the number (from 1) and trimmed text of
/// each line the matcher accepts, in order.
pub open spec fn search_report(m: StringReplacer, lines: Seq<Seq<char>>) -> Seq<(nat, Seq<char>)>
    decreases lines.len(),
{
    if lines.len() == 0 {
        seq![]
    } else {
        let last = lines.last();
        let before = search_report(m, lines.drop_last());
        if m.accepts(last) {
            before.push((lines.len(), trim_of(last)))
        } else {
            before
        }
    }
}

/// The text of each string.
pub open spec fn texts(v: Seq<String>) -> Seq<Seq<char>> {
    v.map_values(|s: String| s@)
}

/// The line number and text of each hit.
pub open spec fn hits_model(v: Seq<SearchHit>) -> Seq<(nat, Seq<char>)> {
    v.map_values(|h: SearchHit| (h.line_number as nat, h.text@))
}

impl StringReplacer {
    /// Each line rewritten through this matcher, every change accepted.
    pub fn rewrite_lines(&self, lines: &Vec<String>) -> (r: Vec<String>)
        ensures
            texts(r@) == rewritten(*self, texts(lines@)),
    {
        let mut out: Vec<String> = Vec::new();
        let mut i: usize = 0;
        while i < lines.len()
            invariant
                i <= lines@.len(),
                texts(out@) == rewritten(*self, texts(lines@.subrange(0, i as int))),
            decreases lines@.len() - i,
        {
            let line = cow_into_string(self.do_replace(lines[i].as_str()));
            let ghost before = out@;
            out.push(line);
            proof {
                let prefix = texts(lines@.subrange(0, i + 1));
                assert(prefix =~= texts(lines@.subrange(0, i as int)).push(lines@[i as int]@));
                assert(out@ =~= before.push(line));
                assert(texts(out@) =~= texts(before).push(line@));
                assert(rewritten(*self, prefix) =~= rewritten(*self, texts(lines@.subrange(0, i as int))).push(
                    self.replaced(lines@[i as int]@),
                ));
            }
            i = i + 1;
        }
        assert(lines@.subrange(0, lines@.len() as int) =~= lines@);
        out
    }
}

impl RSRInstance {
    /// The report of a search through `lines`: each line the content
    /// pattern matches, numbered from 1, trimmed, in order.
    pub fn search_lines(&self, lines: &Vec<String>) -> (r: Vec<SearchHit>)
        ensures
            hits_model(r@) == search_report(self.text_replacer, texts(lines@)),
    {
        let mut hits: Vec<SearchHit> = Vec::new();
        let mut i: usize = 0;
        while i < lines.len()
            invariant
                i <= lines@.len(),
                hits_model(hits@) == search_report(self.text_replacer, texts(lines@.subrange(0, i as int))),
            decreases lines@.len() - i,
        {
            let hit = self.search_line((i + 1) as u64, lines[i].as_str());
            proof {
                let prefix = texts(lines@.subrange(0, i + 1));
                assert(prefix.drop_last() =~= texts(lines@.subrange(0, i as int)));
                assert(prefix.last() == lines@[i as int]@);
            }
            match hit {
                Some(h) => {
                    hits.push(h);
                },
                None => {},
            }
            i = i + 1;
            proof {
                assert(hits_model(hits@) =~= search_report(self.text_replacer, texts(lines@.subrange(0, i as int))));
            }
        }
        assert(lines@.subrange(0, lines@.len() as int) =~= lines@);
        hits
    }
}

/// Rewriting is a fixed point once no line of a first rewrite matches any
/// more: rewriting that output again gives it back unchanged.
pub proof fn lemma_rewrite_fixed_point(m: StringReplacer, lines: Seq<Seq<char>>)
    requires
        forall|i: int| 0 <= i < lines.len() ==> !m.accepts(#[trigger] rewritten(m, lines)[i]),
    ensures
        rewritten(m, rewritten(m, lines)) == rewritten(m, lines),
{
    let once = rewritten(m, lines);
    assert forall|i: int| 0 <= i < once.len() implies #[trigger] m.replaced(once[i]) == once[i] by {
        assert(!m.accepts(once[i]));
    }
    assert(rewritten(m, once) =~= once);
}

} // verus!
