use vstd::prelude::*;
use crate::text::{chars_vec, fits_in_bytes, utf8_len};

verus! {

/// Clipboard contents larger than this many bytes are not recorded.
pub const MAX_ENTRY_SIZE: usize = 1_000_000;

/// Whether clipboard content is recorded: there is text, and it has at most
/// [`MAX_ENTRY_SIZE`] bytes.
pub open spec fn should_store_spec(content: Option<String>) -> bool {
    match content {
        Some(t) => utf8_len(t@) <= MAX_ENTRY_SIZE,
        None => false,
    }
}

/// Whether clipboard content is recorded.
pub fn should_store(content: &Option<String>) -> (r: bool)
    ensures
        r == should_store_spec(*content),
{
    match content {
        Some(t) => {
            let cs = chars_vec(t.as_str());
            assert(cs@.take(cs@.len() as int) == cs@);
            fits_in_bytes(cs.as_slice(), cs.len(), MAX_ENTRY_SIZE)
        },
        None => false,
    }
}

/// What one look at the clipboard records: the text, when the clipboard changed since the last
/// look (its change count differs) and the text is to be stored.
pub open spec fn observe_spec(last_change_count: i64, content: Option<String>, change_count: i64) -> Option<String> {
    if change_count != last_change_count && should_store_spec(content) {
        content
    } else {
        None
    }
}

/// The state of the clipboard poller: the change count it saw last.
pub struct ClipboardWatch {
    pub last_change_count: i64,
}

impl ClipboardWatch {
    /// A poller that has not looked yet (no change count is `-1`, so the first look counts as
    /// a change).
    pub fn new() -> (r: ClipboardWatch)
        ensures
            r.last_change_count == -1,
    {
        ClipboardWatch { last_change_count: -1 }
    }

    /// One look at the clipboard, given what was read from it: remembers the change count and
    /// gives the text to record, if any.
    pub fn observe(&mut self, content: Option<String>, change_count: i64) -> (r: Option<String>)
        ensures
            final(self).last_change_count == change_count,
            r == observe_spec(old(self).last_change_count, content, change_count),
    {
        if change_count != self.last_change_count {
            self.last_change_count = change_count;
            if should_store(&content) {
                return content;
            }
            None
        } else {
            None
        }
    }
}

/// A clipboard change is recorded at most once: after a look that saw a change count (the
/// watch then remembers it), looking again with the same change count records nothing,
/// whatever the clipboard holds.
pub proof fn law_change_recorded_once(content: Option<String>, change_count: i64)
    ensures
        observe_spec(change_count, content, change_count) is None,
{
}

/// Text larger than [`MAX_ENTRY_SIZE`] bytes is never recorded.
pub proof fn law_large_text_never_recorded(last: i64, text: String, change_count: i64)
    requires
        utf8_len(text@) > MAX_ENTRY_SIZE,
    ensures
        observe_spec(last, Some(text), change_count) is None,
{
}

} // verus!
