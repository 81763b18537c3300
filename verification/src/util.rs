//! Small helpers.

use vstd::prelude::*;
use vstd::string::StringExecFns;

verus! {

/// The message of a panic whose payload held the text `owned` as a `String`,
/// or else the text `borrowed` as a `&str`: the first of the two that is
/// there, and a fixed text where neither is.
pub open spec fn panic_text(owned: Option<String>, borrowed: Option<String>) -> Seq<char> {
    match owned {
        Some(text) => text@,
        None => match borrowed {
            Some(text) => text@,
            None => "<unknown panic message>"@,
        },
    }
}

/// Picks the message of a panic from what its payload held: the text that it
/// held as a `String`, else the text that it held as a `&str`, else a fixed
/// text that says that the message is not known.
pub fn panic_message(owned: Option<String>, borrowed: Option<String>) -> (text: String)
    ensures
        text@ == panic_text(owned, borrowed),
{
    match owned {
        Some(text) => text,
        None => match borrowed {
            Some(text) => text,
            None => String::from_str("<unknown panic message>"),
        },
    }
}

} // verus!
