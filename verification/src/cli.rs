//! Validation of command-line issue arguments.

use vstd::prelude::*;

use crate::text::chars_of;
use crate::text::count_leading;
use crate::text::parse_i32_from;
use crate::text::parse_i32_spec;
use crate::text::strip_leading;

verus! {

/// The verdict on an issue argument: any leading `#` marks are dropped,
/// the rest must be a signed decimal numeral, and only a positive value
/// names an issue. Zero, negative values and unparsable text are each
/// refused with their own message.
pub open spec fn validate_issue_number_spec(s: Seq<char>) -> Result<u32, Seq<char>> {
    let clean = strip_leading(s, '#');
    match parse_i32_spec(clean) {
        Some(n) => if n > 0 {
            Ok(n as u32)
        } else if n == 0 {
            Err("Issue number cannot be 0"@)
        } else {
            Err("Issue number cannot be negative"@)
        },
        None => Err("Invalid issue number: "@ + s),
    }
}

/// Parses an issue number argument of the form `#N` or `N`.
pub fn validate_issue_number(s: &str) -> (r: Result<u32, String>)
    ensures
        match r {
            Ok(n) => validate_issue_number_spec(s@) == Ok::<u32, Seq<char>>(n),
            Err(m) => validate_issue_number_spec(s@) == Err::<u32, Seq<char>>(m@),
        },
{
    let v = chars_of(s);
    let from = count_leading(&v, '#');
    match parse_i32_from(&v, from) {
        Some(n) => {
            if n > 0 {
                Ok(n as u32)
            } else if n == 0 {
                Err("Issue number cannot be 0".to_owned())
            } else {
                Err("Issue number cannot be negative".to_owned())
            }
        },
        None => {
            let mut msg = "Invalid issue number: ".to_owned();
            msg.append(s);
            Err(msg)
        },
    }
}

} // verus!
