//! Cleaning of assistant responses before they are recorded.

use vstd::prelude::*;

use crate::text::chars_of;
use crate::text::find_first;
use crate::text::find_index;

verus! {

/// What stripping the reasoning segment yields: the text outside the first
/// delimiter pair. Text with no opening or no closing delimiter is kept
/// whole; a closing delimiter before the opening one is unusable and
/// yields nothing rather than a guess.
pub open spec fn strip_thinking_spec(content: Seq<char>) -> Option<Seq<char>> {
    let start = find_index(content, "<think>"@);
    let end = find_index(content, "</think>"@);
    if start < 0 || end < 0 {
        Some(content)
    } else if end < start {
        None
    } else {
        Some(content.take(start) + content.skip(end + 8))
    }
}

/// Removes the reasoning segment between the first pair of thinking
/// delimiters; mismatched delimiters make the whole text unusable.
pub fn strip_thinking(content: &str) -> (r: Option<String>)
    ensures
        match r {
            Some(s) => strip_thinking_spec(content@) == Some(s@),
            None => strip_thinking_spec(content@) is None,
        },
{
    let v = chars_of(content);
    let open_tag = chars_of("<think>");
    let close_tag = chars_of("</think>");
    proof {
        reveal_strlit("<think>");
        reveal_strlit("</think>");
        assert(open_tag@.len() == 7);
        assert(close_tag@.len() == 8);
    }
    let start = match find_first(&v, &open_tag) {
        None => {
            return Some(content.to_owned());
        },
        Some(s) => s,
    };
    let end = match find_first(&v, &close_tag) {
        None => {
            return Some(content.to_owned());
        },
        Some(e) => e,
    };
    if end < start {
        return None;
    }
    let len = content.unicode_len();
    let mut out = content.substring_char(0, start).to_owned();
    out.append(content.substring_char(end + 8, len));
    proof {
        assert(content@.subrange(0, start as int) =~= content@.take(start as int));
        assert(content@.subrange(end + 8, content@.len() as int) =~= content@.skip(end + 8));
    }
    Some(out)
}

} // verus!
