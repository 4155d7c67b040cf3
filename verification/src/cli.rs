use vstd::prelude::*;
use crate::db::{ClipEntry, StoreError};
use crate::text::{
    chars_vec, decimal_text, fit_prefix, first_line, first_line_bounds, has_more_lines,
    join_path, join_path_spec, lemma_utf8_len_take_strict, push_char, push_decimal_i64,
    string_from_chars, utf8_len,
};

verus! {

/// Whether cutting `line` after `max` bytes is possible: the line is no longer than that, or
/// byte `max` starts a character.
pub open spec fn cut_is_boundary(line: Seq<char>, max: nat) -> bool {
    utf8_len(line) <= max || exists|k: int| 0 <= k <= line.len() && utf8_len(line.take(k)) == max
}

/// The characters of `line` that fill its first `max` bytes.
pub open spec fn byte_prefix(line: Seq<char>, max: nat) -> Seq<char> {
    line.take(choose|k: int| 0 <= k <= line.len() && utf8_len(line.take(k)) == max)
}

/// A one-line preview of `s`: its first line, cut after `max` bytes, with `'…'` added when
/// something was left out.
pub open spec fn truncate_spec(s: Seq<char>, max: nat) -> Seq<char> {
    let line = first_line(s);
    if utf8_len(line) > max {
        byte_prefix(line, max).push('\u{2026}')
    } else if has_more_lines(s) {
        line.push('\u{2026}')
    } else {
        line
    }
}

/// A one-line preview of `s` for listings: its first line, cut after `max` bytes, with `'…'`
/// when the line was cut or more lines follow.
pub fn truncate(s: &str, max: usize) -> (r: String)
    requires
        cut_is_boundary(first_line(s@), max as nat),
    ensures
        r@ == truncate_spec(s@, max as nat),
{
    let cs = chars_vec(s);
    let (end, nl) = first_line_bounds(cs.as_slice());
    let ghost line = cs@.take(end as int);
    let (r, _) = fit_prefix(cs.as_slice(), end, max);
    assert(line.take(r as int) == cs@.take(r as int));
    if r < end {
        proof {
            if r + 1 < end {
                lemma_utf8_len_take_strict(line, r + 1, end as int);
            }
            assert(line.take(r + 1) == cs@.take(r + 1));
            assert(line.take(end as int) == line);
            assert(utf8_len(line) > max);
            let k = choose|k: int| 0 <= k <= line.len() && utf8_len(line.take(k)) == max;
            if k > r {
                if k > r + 1 {
                    lemma_utf8_len_take_strict(line, r + 1, k);
                }
            } else if k < r {
                lemma_utf8_len_take_strict(line, k, r as int);
            }
            assert(k == r);
        }
        let mut out = string_from_chars(cs.as_slice(), r);
        push_char(&mut out, '\u{2026}');
        out
    } else {
        assert(line.take(end as int) == line);
        let mut out = string_from_chars(cs.as_slice(), end);
        if nl < cs.len() && nl < cs.len() - 1 {
            push_char(&mut out, '\u{2026}');
        }
        out
    }
}

} // verus!

verus! {

/// Whether [`truncate`] can cut the first line of `s` after `max` bytes: byte `max` must start
/// a character (slicing a string anywhere else panics), unless the line is shorter.
pub fn can_truncate(s: &str, max: usize) -> (r: bool)
    ensures
        r == cut_is_boundary(first_line(s@), max as nat),
{
    let cs = chars_vec(s);
    let (end, _) = first_line_bounds(cs.as_slice());
    let ghost line = cs@.take(end as int);
    let (k, bytes) = fit_prefix(cs.as_slice(), end, max);
    assert(line.take(k as int) == cs@.take(k as int));
    proof {
        assert(line.take(end as int) == line);
        if k < end {
            assert(line.take(k + 1) == cs@.take(k + 1));
            if k + 1 < end {
                lemma_utf8_len_take_strict(line, k + 1, end as int);
            }
            if cut_is_boundary(line, max as nat) {
                let j = choose|j: int| 0 <= j <= line.len() && utf8_len(line.take(j)) == max;
                if j > k + 1 {
                    lemma_utf8_len_take_strict(line, k + 1, j);
                } else if j < k {
                    lemma_utf8_len_take_strict(line, j, k as int);
                }
            }
        }
    }
    k == end || bytes == max
}

/// `s` right-aligned in a field of `width` characters, as `format!("{:>width$}")` writes it.
pub open spec fn pad_left(s: Seq<char>, width: nat) -> Seq<char> {
    if s.len() < width {
        Seq::new((width - s.len()) as nat, |i: int| ' ') + s
    } else {
        s
    }
}

/// One line of `rippy list` and `rippy search`: the id right-aligned in five columns, the time
/// and the preview, separated by `" │ "`.
pub open spec fn entry_line_spec(id: i64, time: Seq<char>, preview: Seq<char>) -> Seq<char> {
    pad_left(decimal_text(id as int), 5) + " \u{2502} "@ + time + " \u{2502} "@ + preview
}

/// One line of `rippy list` and `rippy search`.
pub fn entry_line(id: i64, time: &str, preview: &str) -> (r: String)
    ensures
        r@ == entry_line_spec(id, time@, preview@),
{
    let mut num = String::new();
    push_decimal_i64(&mut num, id);
    assert(num@ == decimal_text(id as int));
    let digits = chars_vec(num.as_str());
    let mut r = String::new();
    let mut pad: usize = 0;
    if digits.len() < 5 {
        while pad < 5 - digits.len()
            invariant
                digits@.len() < 5,
                pad <= 5 - digits@.len(),
                r@ == Seq::new(pad as nat, |i: int| ' '),
            decreases 5 - digits@.len() - pad,
        {
            push_char(&mut r, ' ');
            assert(r@ == Seq::new((pad + 1) as nat, |i: int| ' '));
            pad = pad + 1;
        }
    }
    r.append(num.as_str());
    r.append(" \u{2502} ");
    r.append(time);
    r.append(" \u{2502} ");
    r.append(preview);
    r
}

/// Where the program keeps its data: `~/.local/share/rippy` under the user's home directory,
/// or `rippy` inside the current directory when there is no home directory.
pub fn data_dir(home: Option<&str>) -> (r: String)
    ensures
        r@ == match home {
            Some(h) => join_path_spec(h@, ".local/share/rippy"@),
            None => join_path_spec("."@, "rippy"@),
        },
{
    proof {
        reveal_strlit("rippy");
        reveal_strlit(".local/share/rippy");
    }
    match home {
        Some(h) => join_path(h, ".local/share/rippy"),
        None => join_path(".", "rippy"),
    }
}

/// What `rippy copy <id>` does once it looked the entry up.
#[derive(Debug)]
pub enum CopyOutcome {
    /// Put `content` on the clipboard and print `message`.
    Copy { content: String, message: String },
    /// Print `message` as an error and exit with status 1.
    Fail { message: String },
}

/// How many bytes of an entry `rippy copy` shows.
pub const COPY_PREVIEW_BYTES: usize = 60;

/// What `rippy copy <id>` does with the result of looking entry `id` up: copy a found entry
/// and show its preview; report a missing entry or a failed lookup.
pub fn copy_outcome(id: i64, found: Result<Option<ClipEntry>, StoreError>) -> (r: CopyOutcome)
    requires
        found matches Ok(Some(e)) ==> cut_is_boundary(first_line(e.content@), COPY_PREVIEW_BYTES as nat),
    ensures
        match found {
            Ok(Some(e)) => r matches CopyOutcome::Copy { content, message } && content@ == e.content@
                && message@ == "Copied to clipboard: "@ + truncate_spec(e.content@, COPY_PREVIEW_BYTES as nat),
            Ok(None) => r matches CopyOutcome::Fail { message } && message@ == "Entry "@ + decimal_text(
                id as int,
            ) + " not found."@,
            Err(e) => r matches CopyOutcome::Fail { message } && message@ == "Error: "@ + e.message_spec(),
        },
{
    match found {
        Ok(Some(entry)) => {
            let preview = truncate(entry.content.as_str(), COPY_PREVIEW_BYTES);
            let mut message = "Copied to clipboard: ".to_owned();
            message.append(preview.as_str());
            CopyOutcome::Copy { content: entry.content, message }
        },
        Ok(None) => {
            let mut message = "Entry ".to_owned();
            push_decimal_i64(&mut message, id);
            message.append(" not found.");
            CopyOutcome::Fail { message }
        },
        Err(e) => {
            let text = e.message();
            let mut message = "Error: ".to_owned();
            message.append(text.as_str());
            CopyOutcome::Fail { message }
        },
    }
}

/// The history database inside the data directory.
pub fn db_path(data_dir: &str) -> (r: String)
    ensures
        r@ == join_path_spec(data_dir@, "history.db"@),
{
    proof {
        reveal_strlit("history.db");
    }
    join_path(data_dir, "history.db")
}

/// The daemon's pid file inside the data directory.
pub fn pid_path(data_dir: &str) -> (r: String)
    ensures
        r@ == join_path_spec(data_dir@, "rippy.pid"@),
{
    proof {
        reveal_strlit("rippy.pid");
    }
    join_path(data_dir, "rippy.pid")
}

} // verus!

verus! {

/// A single line that fits in `max` bytes is shown unchanged.
pub proof fn law_truncate_keeps_short_lines(s: Seq<char>, max: nat)
    requires
        forall|i: int| 0 <= i < s.len() ==> s[i] != '\n',
        utf8_len(s) <= max,
    ensures
        truncate_spec(s, max) == s,
{
    crate::text::lemma_no_newline_first_line(s);
}

} // verus!
