//! Small operations on text shared by the rest of the library.
use vstd::prelude::*;
use std::borrow::Cow;

verus! {

/// `s` without its leading and trailing white space.
pub uninterp spec fn trim_of(s: Seq<char>) -> Seq<char>;

/// Relies on `str::trim`: the result depends on the characters alone.
#[verifier::external_body]
fn trim_str(s: &str) -> (r: &str)
    ensures
        r@ == trim_of(s@),
{
    s.trim()
}

/// `s` without leading and trailing white space.
pub fn trimmed(s: &str) -> (r: &str)
    ensures
        r@ == trim_of(s@),
{
    trim_str(s)
}

/// Whether two texts hold the same characters.
pub fn same_text(a: &str, b: &str) -> (r: bool)
    ensures
        r == (a@ == b@),
{
    let x = a.to_owned();
    let y = b.to_owned();
    x == y
}

/// The text a copy-on-write string holds, borrowed.
pub fn cow_text<'a, 't>(c: &'a Cow<'t, str>) -> (r: &'a str)
    ensures
        r@ == c@,
{
    match c {
        Cow::Borrowed(b) => b,
        Cow::Owned(o) => o.as_str(),
    }
}

/// The text a copy-on-write string holds, owned.
pub fn cow_into_string<'t>(c: Cow<'t, str>) -> (r: String)
    ensures
        r@ == c@,
{
    match c {
        Cow::Borrowed(b) => b.to_owned(),
        Cow::Owned(o) => o,
    }
}

} // verus!
