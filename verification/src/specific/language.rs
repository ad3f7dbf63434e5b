//! The (single-entry) table of supported languages.

use vstd::prelude::*;

use crate::util::lower_of;
use crate::util::lowercase;

verus! {

/// The identifier of a language name: the single supported language sits
/// at index 0, and unknown names default to that same index.
pub fn get_language_id(value: &str) -> (r: u16)
    ensures
        lower_of(value@) == "english"@ ==> r == 0,
        lower_of(value@) != "english"@ ==> r == 0,
{
    let lower = lowercase(value);
    let english = "english".to_owned();
    if lower.eq(&english) {
        0
    } else {
        0
    }
}

/// The name behind a language identifier; out-of-range identifiers fall
/// back to the first entry.
pub fn get_language_name(_value: u16) -> (r: &'static str)
    ensures
        r@ == "english"@,
{
    "english"
}

} // verus!
