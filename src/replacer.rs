//! The matcher/replacer used for both file names and file contents.
use vstd::prelude::*;
use std::borrow::Cow;
use crate::pattern::{Pattern, match_everything_source, regex_is_match, regex_replace_all};

verus! {

/// The source text of an optional pattern.
pub open spec fn pattern_source(p: Option<Pattern>) -> Option<Seq<char>> {
    match p {
        Some(p) => Some(p@),
        None => None,
    }
}

/// The text of an optional string.
pub open spec fn text_of(s: Option<String>) -> Option<Seq<char>> {
    match s {
        Some(s) => Some(s@),
        None => None,
    }
}

/// Whether a matcher with search pattern `search` accepts `text`: every text
/// is accepted when there is no pattern.
pub open spec fn accepts(search: Option<Seq<char>>, text: Seq<char>) -> bool {
    match search {
        Some(p) => regex_is_match(p, text),
        None => true,
    }
}

/// What replacing produces: every match of the pattern replaced by the
/// template where both are present and the pattern matches, else the text
/// itself.
pub open spec fn replaced(search: Option<Seq<char>>, template: Option<Seq<char>>, text: Seq<char>) -> Seq<char> {
    match (search, template) {
        (Some(p), Some(t)) => if regex_is_match(p, text) {
            regex_replace_all(p, text, t)
        } else {
            text
        },
        _ => text,
    }
}

/// An optional search pattern and an optional replacement template.
///
/// A template given without a pattern is paired with `.*`, so that replacing
/// always has something to replace.
pub struct StringReplacer {
    search_expression: Option<Pattern>,
    replace_pattern: Option<String>,
}

impl StringReplacer {
    /// The source of the search pattern, if any.
    pub closed spec fn search(&self) -> Option<Seq<char>> {
        pattern_source(self.search_expression)
    }

    /// The replacement template, if any.
    pub closed spec fn template(&self) -> Option<Seq<char>> {
        text_of(self.replace_pattern)
    }

    /// Whether this matcher accepts `text`.
    pub open spec fn accepts(&self, text: Seq<char>) -> bool {
        accepts(self.search(), text)
    }

    /// What this matcher makes of `text`.
    pub open spec fn replaced(&self, text: Seq<char>) -> Seq<char> {
        replaced(self.search(), self.template(), text)
    }

    pub fn new(search_expression: Option<Pattern>, replace_pattern: Option<String>) -> (r: StringReplacer)
        ensures
            r.template() == text_of(replace_pattern),
            search_expression is None && replace_pattern is Some ==> r.search() == Some(
                match_everything_source(),
            ),
            !(search_expression is None && replace_pattern is Some) ==> r.search()
                == pattern_source(search_expression),
            search_expression is None && replace_pattern is Some ==> forall|t: Seq<char>|
                r.accepts(t),
    {
        if search_expression.is_none() && replace_pattern.is_some() {
            StringReplacer { search_expression: Some(Pattern::match_everything()), replace_pattern }
        } else {
            StringReplacer { search_expression, replace_pattern }
        }
    }

    /// True when there is no search pattern, else whether it matches anywhere
    /// in `text`.
    pub fn matches(&self, text: &str) -> (r: bool)
        ensures
            r == self.accepts(text@),
    {
        match &self.search_expression {
            Some(expression) => expression.is_match(text),
            None => true,
        }
    }

    pub fn has_search(&self) -> (r: bool)
        ensures
            r == self.search() is Some,
    {
        self.search_expression.is_some()
    }

    pub fn has_replace(&self) -> (r: bool)
        ensures
            r == self.template() is Some,
    {
        self.replace_pattern.is_some()
    }

    /// `text` with every non-overlapping match replaced by the template;
    /// `text` itself, borrowed, when there is no pattern, no template or no
    /// match.
    pub fn do_replace<'t>(&self, text: &'t str) -> (r: Cow<'t, str>)
        ensures
            r@ == self.replaced(text@),
    {
        match &self.search_expression {
            Some(search) => match &self.replace_pattern {
                Some(replace) => {
                    if search.is_match(text) {
                        search.replace_all(text, replace.as_str())
                    } else {
                        Cow::Borrowed(text)
                    }
                },
                None => Cow::Borrowed(text),
            },
            None => Cow::Borrowed(text),
        }
    }
}

/// With no search pattern, every text is accepted and replacing leaves it as
/// it is.
pub proof fn lemma_no_search_passes_through(m: StringReplacer, text: Seq<char>)
    requires
        m.search() is None,
    ensures
        m.accepts(text),
        m.replaced(text) == text,
{
}

/// With a search pattern but no template, replacing leaves every text as it
/// is, whether or not it matches.
pub proof fn lemma_no_template_keeps_text(m: StringReplacer, text: Seq<char>)
    requires
        m.search() is Some,
        m.template() is None,
    ensures
        m.replaced(text) == text,
{
}

} // verus!
