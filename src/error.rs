//! The errors that the library reports.
use vstd::prelude::*;

verus! {

/// What went wrong, with a message for people.
#[derive(Clone, Debug, PartialEq, Eq)]
pub enum CrunchyrollError {
    /// JSON that does not have the expected shape.
    Decode(String),
    /// A value given by the caller that resolves to nothing.
    Input(String),
    /// The service broke one of its own rules.
    Internal(String),
    /// The transport failed, or a request cannot be made.
    Request(String),
    /// Another library failed.
    External(String),
}

/// Relies on `String::push_str`: appends the slice to the end of the string.
pub assume_specification[ String::push_str ](s: &mut String, string: &str)
    ensures
        final(s)@ == old(s)@ + string@,
;

/// `a`, `b` and `c` one after another.
pub fn concat3(a: &str, b: &str, c: &str) -> (r: String)
    ensures
        r@ == a@ + b@ + c@,
{
    let mut r = a.to_owned();
    r.push_str(b);
    r.push_str(c);
    r
}

} // verus!
