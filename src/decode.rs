//! Helpers for reading wire values into the library's types.
use vstd::prelude::*;
use vstd::std_specs::convert::TryFromSpec;

use crate::error::{concat3, CrunchyrollError};

verus! {

/// The message of the error for a string that names no variant.
pub open spec fn enum_error_message(v: Seq<char>) -> Seq<char> {
    "failed to decode `"@ + v + "` to enum"@
}

/// Reads a string as a value of `T` through its `TryFrom<String>`; a string that
/// `T` refuses gives a decode error that quotes it.
pub fn string_to_enum<T: TryFrom<String>>(v: String) -> (r: Result<T, CrunchyrollError>)
    ensures
        T::obeys_try_from_spec() ==> match T::try_from_spec(v) {
            Ok(t) => r == Ok::<T, CrunchyrollError>(t),
            Err(_) => r matches Err(CrunchyrollError::Decode(m)) && m@ == enum_error_message(v@),
        },
        r matches Err(e) ==> e matches CrunchyrollError::Decode(m) && m@ == enum_error_message(v@),
{
    let quoted = v.clone();
    match T::try_from(v) {
        Ok(t) => Ok(t),
        Err(_) => Err(CrunchyrollError::Decode(concat3("failed to decode `", quoted.as_str(), "` to enum"))),
    }
}

} // verus!
