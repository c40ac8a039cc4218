//! Small operations on text shared by the rules.
use vstd::prelude::*;

verus! {

/// `primary`, or `fallback` where `primary` is empty.
pub open spec fn non_empty_or(primary: Seq<char>, fallback: Seq<char>) -> Seq<char> {
    if primary.len() == 0 {
        fallback
    } else {
        primary
    }
}

/// A copy of `primary`, or of `fallback` where `primary` is empty.
pub fn non_empty_or_else(primary: &String, fallback: &String) -> (r: String)
    ensures
        r@ == non_empty_or(primary@, fallback@),
{
    if primary.as_str().is_empty() {
        fallback.clone()
    } else {
        primary.clone()
    }
}

/// Whether `s` reads exactly `expected`.
pub fn text_is(s: &str, expected: &str) -> (r: bool)
    ensures
        r == (s@ == expected@),
{
    let a: String = s.to_owned();
    let b: String = expected.to_owned();
    a == b
}

/// A copy of an optional text.
pub fn copy_text_option(o: &Option<String>) -> (r: Option<String>)
    ensures
        r == *o,
{
    match o {
        Some(s) => Some(s.clone()),
        None => None,
    }
}

/// `None` for the empty text, the text itself otherwise: how a column stored as `''`
/// for "no value" reads back.
pub open spec fn absent_if_empty(s: String) -> Option<String> {
    if s@.len() == 0 {
        None
    } else {
        Some(s)
    }
}

/// `None` for the empty text, the text itself otherwise.
pub fn none_if_empty(s: String) -> (r: Option<String>)
    ensures
        r == absent_if_empty(s),
{
    if s.as_str().is_empty() {
        None
    } else {
        Some(s)
    }
}

/// How a failure of the store is reported to the user: `Database error: {detail}`.
pub fn database_error(detail: &str) -> (r: String)
    ensures
        r@ == "Database error: "@ + detail@,
{
    let mut s: String = "Database error: ".to_owned();
    s.append(detail);
    s
}

} // verus!
