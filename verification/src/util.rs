//! Turning a status of the encoding library into text.

use vstd::prelude::*;
use vstd::string::*;

verus! {

/// The text for a status of which the encoding library gave no readable one.
pub open spec fn unknown_error_text() -> Seq<char> {
    "unknown error"@
}

/// The description of a status: the encoding library's text for it where there
/// is one, a generic text otherwise.
pub open spec fn description_text(text: Option<Seq<char>>) -> Seq<char> {
    match text {
        Some(t) => t,
        None => unknown_error_text(),
    }
}

/// Describes a status of the encoding library. `text` is what the library
/// itself says of the status, `None` where it said nothing that can be read.
/// Never fails: without a text the description is a generic one.
pub fn pfm_err_description(text: Option<&str>) -> (s: String)
    ensures
        s@ == description_text(
            match text {
                Some(t) => Some(t@),
                None => None,
            },
        ),
{
    match text {
        Some(t) => String::from_str(t),
        None => String::from_str("unknown error"),
    }
}

} // verus!
