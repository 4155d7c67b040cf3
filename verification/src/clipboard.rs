use vstd::prelude::*;
use crate::text::{parse_i64_spec, parse_trimmed_i64, trim};

verus! {

/// What a look at the clipboard gives, from the output of `pbpaste` and of the `osascript`
/// that prints `NSPasteboard`'s change count (each `None` when the command failed or its output
/// was not UTF-8): the text, unless it is empty, and the change count, 0 when it cannot be read.
pub fn clipboard_reading(paste: Option<String>, change: Option<String>) -> (r: (Option<String>, i64))
    ensures
        r.0 == match paste {
            Some(t) => if t@.len() > 0 {
                Some(t)
            } else {
                None
            },
            None => None,
        },
        r.1 == match change {
            Some(s) => match parse_i64_spec(trim(s@)) {
                Some(v) => v,
                None => 0,
            },
            None => 0,
        },
{
    let content = match paste {
        Some(t) => if t.as_str().is_empty() {
            None
        } else {
            Some(t)
        },
        None => None,
    };
    let count = match change {
        Some(s) => match parse_trimmed_i64(s.as_str()) {
            Some(v) => v,
            None => 0,
        },
        None => 0,
    };
    (content, count)
}

} // verus!
