//! Compiled regular expressions, as the library sees them: a pattern is
//! known by its source text, and what it matches or produces is named over
//! that text.
use vstd::prelude::*;
use std::borrow::Cow;

verus! {

#[verifier::external_type_specification]
#[verifier::external_body]
pub struct ExRegex(regex::Regex);

#[verifier::external_type_specification]
#[verifier::external_body]
pub struct ExRegexError(regex::Error);

/// Whether `regex::Regex::new` accepts the pattern source `src`.
pub uninterp spec fn pattern_compiles(src: Seq<char>) -> bool;

/// Whether the regex compiled from `src` finds a match anywhere in `text`.
pub uninterp spec fn regex_is_match(src: Seq<char>, text: Seq<char>) -> bool;

/// The text produced by replacing every non-overlapping match of the regex
/// compiled from `src` in `text` with the expansion of `template`.
pub uninterp spec fn regex_replace_all(src: Seq<char>, text: Seq<char>, template: Seq<char>) -> Seq<char>;

/// The source of the pattern that matches every input: `.*`.
pub open spec fn match_everything_source() -> Seq<char> {
    seq!['.', '*']
}

/// A regular expression compiled from its source text.
///
/// Its fields are private: a value is only ever built by `compile`, so the
/// compiled regex is always the one that `regex::Regex::new` made from
/// `source`.
pub struct Pattern {
    source: String,
    re: regex::Regex,
}

/// Why a pattern source was refused.
pub struct PatternError {
    pub message: String,
}

impl View for Pattern {
    type V = Seq<char>;

    closed spec fn view(&self) -> Seq<char> {
        self.source@
    }
}

/// Relies on `regex::Regex::new`: it succeeds exactly on the sources that
/// compile, and `.*` compiles to a regex that matches every haystack (an
/// empty match at its start, at least).
#[verifier::external_body]
fn compile(src: &str) -> (r: Result<Pattern, regex::Error>)
    ensures
        r is Ok <==> pattern_compiles(src@),
        r is Ok ==> r->Ok_0@ == src@,
        src@ == match_everything_source() ==> r is Ok,
        src@ == match_everything_source() ==> forall|t: Seq<char>| regex_is_match(r->Ok_0@, t),
{
    match regex::Regex::new(src) {
        Ok(re) => Ok(Pattern { source: src.to_string(), re }),
        Err(e) => Err(e),
    }
}

/// Relies on the `Display` text of `regex::Error`, which says why the
/// source was refused.
#[verifier::external_body]
fn error_text(e: &regex::Error) -> String {
    e.to_string()
}

/// Relies on `regex::Regex::is_match`: true iff the regex matches anywhere
/// in the haystack.
#[verifier::external_body]
fn is_match(p: &Pattern, text: &str) -> (r: bool)
    ensures
        r == regex_is_match(p@, text@),
{
    p.re.is_match(text)
}

/// Relies on `regex::Regex::replace_all` with a `&str` replacement (which
/// expands `$1`, `${name}` and the like): where no match is found the
/// haystack comes back unchanged.
#[verifier::external_body]
fn replace_all<'t>(p: &Pattern, text: &'t str, template: &str) -> (r: Cow<'t, str>)
    ensures
        r@ == regex_replace_all(p@, text@, template@),
        !regex_is_match(p@, text@) ==> r@ == text@,
{
    p.re.replace_all(text, template)
}

impl Pattern {
    /// Compiles `src`; the error carries the reason it was refused.
    pub fn new(src: &str) -> (r: Result<Pattern, PatternError>)
        ensures
            r is Ok <==> pattern_compiles(src@),
            r matches Ok(p) ==> p@ == src@,
    {
        match compile(src) {
            Ok(p) => Ok(p),
            Err(e) => Err(PatternError { message: error_text(&e) }),
        }
    }

    /// The pattern `.*`, which matches every text.
    pub fn match_everything() -> (r: Pattern)
        ensures
            r@ == match_everything_source(),
            forall|t: Seq<char>| regex_is_match(r@, t),
    {
        let src = ".*";
        proof {
            reveal_strlit(".*");
        }
        assert(src@ =~= match_everything_source());
        let compiled = compile(src);
        compiled.unwrap()
    }

    /// The source text the pattern was compiled from.
    pub fn as_str(&self) -> (r: &str)
        ensures
            r@ == self@,
    {
        self.source.as_str()
    }

    /// Whether the pattern matches anywhere in `text`.
    pub fn is_match(&self, text: &str) -> (r: bool)
        ensures
            r == regex_is_match(self@, text@),
    {
        is_match(self, text)
    }

    /// `text` with every non-overlapping match replaced by the expansion of
    /// `template`; `text` itself where nothing matches.
    pub fn replace_all<'t>(&self, text: &'t str, template: &str) -> (r: Cow<'t, str>)
        ensures
            r@ == regex_replace_all(self@, text@, template@),
            !regex_is_match(self@, text@) ==> r@ == text@,
    {
        replace_all(self, text, template)
    }
}

} // verus!
