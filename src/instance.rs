//! The per-file decisions of a run: which files are taken, what is done to
//! their contents, how they are renamed, and how a rewrite is committed.
use vstd::prelude::*;
use crate::replacer::StringReplacer;
use crate::text::{cow_into_string, cow_text, same_text, trim_of, trimmed};

verus! {

/// The suffix of the temporary file a rewrite writes beside the original.
pub open spec fn temp_suffix() -> Seq<char> {
    seq!['.', 'r', 's', 'r', '_', 't', 'm', 'p']
}

/// The name of the temporary file that a rewrite of `filename` writes first.
pub fn temp_file_name(filename: &str) -> (r: String)
    ensures
        r@ == filename@ + temp_suffix(),
{
    let suffix = ".rsr_tmp";
    proof {
        reveal_strlit(".rsr_tmp");
    }
    let mut name = filename.to_owned();
    name.append(suffix);
    name
}

/// What is done to the contents of a file whose name was taken.
#[derive(PartialEq, Eq, Structural, Clone, Copy, Debug)]
pub enum ContentAction {
    /// Rewrite each line through the content replacer.
    Rewrite,
    /// Report the lines the content pattern matches.
    Search,
    /// Leave the contents alone.
    Nothing,
}

/// Everything decided for a file whose name was taken.
pub struct FilePlan {
    pub content: ContentAction,
    /// The new file name, where renaming changes it.
    pub rename_to: Option<String>,
    /// Whether the bare file name is reported, as nothing else is done.
    pub report_name: bool,
}

/// One step of reading a file that is being rewritten.
pub enum RewriteEvent {
    /// A line was read, with its terminator if it has one.
    LineRead(String),
    /// The whole file was read.
    EndOfInput,
    /// Reading failed.
    ReadFailed,
    /// Writing to the temporary file failed.
    WriteFailed,
}

/// What a rewrite does next.
pub enum RewriteAction {
    /// Write this line to the temporary file.
    Write(String),
    /// Ask whether to change `original` into `replacement`; write the
    /// replacement if the answer is yes, else the original.
    Confirm { line_number: u64, original: String, replacement: String },
    /// Delete the temporary file and leave the original as it is.
    Discard,
    /// Copy the original's permissions to the temporary file and rename it
    /// over the original.
    Commit,
}

impl RewriteAction {
    /// The line written once the question of a `Confirm` was answered: the
    /// replacement on a yes, the original otherwise.
    pub fn answered_line(original: String, replacement: String, confirmed: bool) -> (r: String)
        ensures
            r@ == (if confirmed {
                replacement@
            } else {
                original@
            }),
    {
        if confirmed {
            replacement
        } else {
            original
        }
    }
}

/// A line the content pattern matched, as a search reports it.
pub struct SearchHit {
    /// Counted from 1.
    pub line_number: u64,
    /// The line without leading and trailing white space.
    pub text: String,
}

/// The configuration of a run: the file name matcher, the content matcher,
/// whether each change is confirmed first, and whether informational
/// messages are kept quiet.
pub struct RSRInstance {
    pub filename_replacer: StringReplacer,
    pub text_replacer: StringReplacer,
    pub prompt: bool,
    pub quiet: bool,
}

impl RSRInstance {
    /// What is done to the contents of a taken file: a template means a
    /// rewrite, else a pattern means a search.
    pub open spec fn content_action(&self) -> ContentAction {
        if self.text_replacer.template() is Some {
            ContentAction::Rewrite
        } else if self.text_replacer.search() is Some {
            ContentAction::Search
        } else {
            ContentAction::Nothing
        }
    }

    /// The new name of a file called `filename`, where renaming changes it.
    pub open spec fn rename_target(&self, filename: Seq<char>) -> Option<Seq<char>> {
        let new_name = self.filename_replacer.replaced(filename);
        if self.filename_replacer.template() is Some && new_name != filename {
            Some(new_name)
        } else {
            None
        }
    }

    pub fn new(
        filename_replacer: StringReplacer,
        text_replacer: StringReplacer,
        prompt: bool,
        quiet: bool,
    ) -> (r: RSRInstance)
        ensures
            r.filename_replacer == filename_replacer,
            r.text_replacer == text_replacer,
            r.prompt == prompt,
            r.quiet == quiet,
    {
        RSRInstance { filename_replacer, text_replacer, prompt, quiet }
    }

    /// The plan for a file called `filename`; `None` where the file name
    /// matcher does not take it.
    pub fn plan_file(&self, filename: &str) -> (r: Option<FilePlan>)
        ensures
            r is None <==> !self.filename_replacer.accepts(filename@),
            r matches Some(p) ==> {
                &&& p.content == self.content_action()
                &&& match self.rename_target(filename@) {
                    Some(n) => p.rename_to matches Some(s) && s@ == n,
                    None => p.rename_to is None,
                }
                &&& p.report_name == (p.content == ContentAction::Nothing && p.rename_to is None)
            },
    {
        if !self.filename_replacer.matches(filename) {
            return None;
        }
        let content = if self.text_replacer.has_replace() {
            ContentAction::Rewrite
        } else if self.text_replacer.has_search() {
            ContentAction::Search
        } else {
            ContentAction::Nothing
        };
        let mut rename_to: Option<String> = None;
        if self.filename_replacer.has_replace() {
            let new_name = self.filename_replacer.do_replace(filename);
            if !same_text(cow_text(&new_name), filename) {
                rename_to = Some(cow_into_string(new_name));
            }
        }
        let report_name = content == ContentAction::Nothing && rename_to.is_none();
        Some(FilePlan { content, rename_to, report_name })
    }

    /// The next step of rewriting a file, given what reading it (or writing
    /// the last line) gave. `line_number` counts the lines read so far,
    /// this one included, from 1.
    ///
    /// A failure always discards the temporary file, and only the end of the
    /// input commits it.
    pub fn rewrite_step(&self, line_number: u64, event: RewriteEvent) -> (r: RewriteAction)
        ensures
            (r is Commit) <==> (event is EndOfInput),
            (r is Discard) <==> (event is ReadFailed || event is WriteFailed),
            event matches RewriteEvent::LineRead(line) ==> {
                let new_line = self.text_replacer.replaced(line@);
                if self.prompt && new_line != line@ {
                    r matches RewriteAction::Confirm { line_number: n, original, replacement } && n
                        == line_number && original@ == line@ && replacement@ == new_line
                } else {
                    r matches RewriteAction::Write(s) && s@ == new_line
                }
            },
    {
        match event {
            RewriteEvent::LineRead(line) => {
                let new_line = self.text_replacer.do_replace(line.as_str());
                if same_text(cow_text(&new_line), line.as_str()) {
                    RewriteAction::Write(line)
                } else {
                    let replacement = cow_into_string(new_line);
                    if self.prompt {
                        RewriteAction::Confirm { line_number, original: line, replacement }
                    } else {
                        RewriteAction::Write(replacement)
                    }
                }
            },
            RewriteEvent::EndOfInput => RewriteAction::Commit,
            RewriteEvent::ReadFailed => RewriteAction::Discard,
            RewriteEvent::WriteFailed => RewriteAction::Discard,
        }
    }

    /// The report of line `line_number` (counted from 1) in a search; `None`
    /// where the content pattern does not match it.
    pub fn search_line(&self, line_number: u64, line: &str) -> (r: Option<SearchHit>)
        ensures
            r is Some <==> self.text_replacer.accepts(line@),
            r matches Some(h) ==> h.line_number == line_number && h.text@ == trim_of(line@),
    {
        if self.text_replacer.matches(line) {
            Some(SearchHit { line_number, text: trimmed(line).to_owned() })
        } else {
            None
        }
    }
}

} // verus!
