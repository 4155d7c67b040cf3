use vstd::prelude::*;
use vstd::utf8::*;

verus! {

broadcast use vstd::seq_lib::group_seq_properties;

/// The characters of `s`, in order.
pub fn chars_vec(s: &str) -> (r: Vec<char>)
    ensures
        r@ == s@,
{
    let mut r: Vec<char> = Vec::new();
    for c in it: s.chars()
        invariant
            r@ == it.seq().take(it.index() as int),
    {
        r.push(c);
    }
    r
}

/// Appends one character to a string (`String::push`).
#[verifier::external_body]
pub(crate) fn push_char(s: &mut String, c: char)
    ensures
        final(s)@ == old(s)@.push(c),
{
    s.push(c);
}

/// A string holding the first `n` characters of `cs`.
pub fn string_from_chars(cs: &[char], n: usize) -> (r: String)
    requires
        n <= cs@.len(),
    ensures
        r@ == cs@.take(n as int),
{
    let mut r = String::new();
    let mut i: usize = 0;
    while i < n
        invariant
            i <= n <= cs@.len(),
            r@ == cs@.take(i as int),
        decreases n - i,
    {
        push_char(&mut r, cs[i]);
        assert(cs@.take(i + 1) == cs@.take(i as int).push(cs@[i as int]));
        i = i + 1;
    }
    r
}

// ---------------------------------------------------------------------------
// White space and trimming (as `str::trim` defines them)
// ---------------------------------------------------------------------------

/// The Unicode `White_Space` property, which `char::is_whitespace` and `str::trim` use.
pub open spec fn is_white_space(c: char) -> bool {
    let u = c as u32;
    ||| 0x9 <= u <= 0xd
    ||| u == 0x20
    ||| u == 0x85
    ||| u == 0xa0
    ||| u == 0x1680
    ||| 0x2000 <= u <= 0x200a
    ||| u == 0x2028
    ||| u == 0x2029
    ||| u == 0x202f
    ||| u == 0x205f
    ||| u == 0x3000
}

pub fn is_white_space_char(c: char) -> (r: bool)
    ensures
        r == is_white_space(c),
{
    let u = c as u32;
    (0x9 <= u && u <= 0xd) || u == 0x20 || u == 0x85 || u == 0xa0 || u == 0x1680 || (0x2000 <= u
        && u <= 0x200a) || u == 0x2028 || u == 0x2029 || u == 0x202f || u == 0x205f || u == 0x3000
}

/// `s` without its leading white space.
pub open spec fn trim_start(s: Seq<char>) -> Seq<char>
    decreases s.len(),
{
    if s.len() > 0 && is_white_space(s[0]) {
        trim_start(s.drop_first())
    } else {
        s
    }
}

/// `s` without its trailing white space.
pub open spec fn trim_end(s: Seq<char>) -> Seq<char>
    decreases s.len(),
{
    if s.len() > 0 && is_white_space(s.last()) {
        trim_end(s.drop_last())
    } else {
        s
    }
}

/// `s` without leading and trailing white space (`str::trim`).
pub open spec fn trim(s: Seq<char>) -> Seq<char> {
    trim_end(trim_start(s))
}

proof fn lemma_trim_start_skip(s: Seq<char>, i: int)
    requires
        0 <= i <= s.len(),
        forall|k: int| 0 <= k < i ==> is_white_space(#[trigger] s[k]),
    ensures
        trim_start(s) == trim_start(s.skip(i)),
    decreases i,
{
    if i > 0 {
        assert(is_white_space(s[0]));
        let t = s.drop_first();
        assert forall|k: int| 0 <= k < i - 1 implies is_white_space(#[trigger] t[k]) by {
            assert(t[k] == s[k + 1]);
        }
        lemma_trim_start_skip(t, i - 1);
        assert(t.skip(i - 1) == s.skip(i));
    } else {
        assert(s.skip(0) == s);
    }
}

proof fn lemma_trim_end_take(s: Seq<char>, j: int)
    requires
        0 <= j <= s.len(),
        forall|k: int| j <= k < s.len() ==> is_white_space(#[trigger] s[k]),
    ensures
        trim_end(s) == trim_end(s.take(j)),
    decreases s.len() - j,
{
    if j < s.len() {
        assert(is_white_space(s.last()));
        let t = s.drop_last();
        assert forall|k: int| j <= k < t.len() implies is_white_space(#[trigger] t[k]) by {
            assert(t[k] == s[k]);
        }
        lemma_trim_end_take(t, j);
        assert(t.take(j) == s.take(j));
    } else {
        assert(s.take(j) == s);
    }
}

/// Bounds `(a, b)` such that `cs[a..b]` is `cs` trimmed.
pub fn trim_bounds(cs: &[char]) -> (r: (usize, usize))
    ensures
        r.0 <= r.1 <= cs@.len(),
        cs@.subrange(r.0 as int, r.1 as int) == trim(cs@),
{
    let n = cs.len();
    let mut a: usize = 0;
    while a < n && is_white_space_char(cs[a])
        invariant
            a <= n == cs@.len(),
            forall|k: int| 0 <= k < a ==> is_white_space(#[trigger] cs@[k]),
        decreases n - a,
    {
        a = a + 1;
    }
    let mut b: usize = n;
    while b > a && is_white_space_char(cs[b - 1])
        invariant
            a <= b <= n == cs@.len(),
            forall|k: int| b <= k < n ==> is_white_space(#[trigger] cs@[k]),
        decreases b - a,
    {
        b = b - 1;
    }
    proof {
        let s = cs@;
        lemma_trim_start_skip(s, a as int);
        let t = s.skip(a as int);
        if a < n {
            assert(t[0] == s[a as int]);
        }
        assert(trim_start(t) == t);
        assert forall|k: int| b - a <= k < t.len() implies is_white_space(#[trigger] t[k]) by {
            assert(t[k] == s[k + a]);
        }
        lemma_trim_end_take(t, b - a);
        let u = t.take(b - a);
        if b > a {
            assert(u.last() == s[b - 1]);
        }
        assert(trim_end(u) == u);
        assert(u == s.subrange(a as int, b as int));
    }
    (a, b)
}

} // verus!

verus! {

// ---------------------------------------------------------------------------
// Decimal numbers
// ---------------------------------------------------------------------------

pub open spec fn is_decimal_digit(c: char) -> bool {
    48 <= (c as u32) <= 57
}

pub open spec fn digit_value(c: char) -> int {
    (c as u32) - 48
}

pub open spec fn all_decimal_digits(s: Seq<char>) -> bool {
    forall|i: int| 0 <= i < s.len() ==> is_decimal_digit(#[trigger] s[i])
}

/// The number that a string of decimal digits writes, most significant digit first.
pub open spec fn decimal_value(s: Seq<char>) -> int
    decreases s.len(),
{
    if s.len() == 0 {
        0
    } else {
        decimal_value(s.drop_last()) * 10 + digit_value(s.last())
    }
}

/// The value of an unsigned integer literal as `u32::from_str` and `u64::from_str` accept it:
/// an optional `+` followed by one or more decimal digits.
pub open spec fn unsigned_literal(s: Seq<char>) -> Option<int> {
    let body = if s.len() > 0 && s[0] == '+' {
        s.drop_first()
    } else {
        s
    };
    if body.len() > 0 && all_decimal_digits(body) {
        Some(decimal_value(body))
    } else {
        None
    }
}

/// The value of a signed integer literal as `i64::from_str` accepts it:
/// an optional `+` or `-` followed by one or more decimal digits.
pub open spec fn signed_literal(s: Seq<char>) -> Option<int> {
    if s.len() > 0 && s[0] == '-' {
        let body = s.drop_first();
        if body.len() > 0 && all_decimal_digits(body) {
            Some(-decimal_value(body))
        } else {
            None
        }
    } else {
        unsigned_literal(s)
    }
}

/// What `u32::from_str` gives for `s`: the literal's value when it fits, else an error.
pub open spec fn parse_u32_spec(s: Seq<char>) -> Option<u32> {
    match unsigned_literal(s) {
        Some(v) => if v <= u32::MAX {
            Some(v as u32)
        } else {
            None
        },
        None => None,
    }
}

/// What `i64::from_str` gives for `s`: the literal's value when it fits, else an error.
pub open spec fn parse_i64_spec(s: Seq<char>) -> Option<i64> {
    match signed_literal(s) {
        Some(v) => if i64::MIN <= v <= i64::MAX {
            Some(v as i64)
        } else {
            None
        },
        None => None,
    }
}

proof fn lemma_decimal_value_nonneg(s: Seq<char>)
    requires
        all_decimal_digits(s),
    ensures
        decimal_value(s) >= 0,
    decreases s.len(),
{
    if s.len() > 0 {
        assert(is_decimal_digit(s[s.len() - 1]));
        lemma_decimal_value_nonneg(s.drop_last());
    }
}

proof fn lemma_decimal_value_prefix(s: Seq<char>, i: int)
    requires
        all_decimal_digits(s),
        0 <= i <= s.len(),
    ensures
        decimal_value(s.take(i)) <= decimal_value(s),
    decreases s.len() - i,
{
    if i < s.len() {
        lemma_decimal_value_prefix(s, i + 1);
        let t = s.take(i + 1);
        assert(t.drop_last() == s.take(i));
        assert(is_decimal_digit(t.last()));
        lemma_decimal_value_nonneg(s.take(i));
    } else {
        assert(s.take(i) == s);
    }
}

/// Reads the decimal digits `cs[start..end]` as a number no larger than `bound`;
/// `None` when a character is not a digit or the number exceeds `bound`.
fn read_digits(cs: &[char], start: usize, end: usize, bound: u64) -> (r: Option<u64>)
    requires
        start <= end <= cs@.len(),
    ensures
        ({
            let body = cs@.subrange(start as int, end as int);
            match r {
                Some(v) => all_decimal_digits(body) && v == decimal_value(body) && v <= bound,
                None => !all_decimal_digits(body) || decimal_value(body) > bound,
            }
        }),
{
    let ghost body = cs@.subrange(start as int, end as int);
    let mut acc: u64 = 0;
    let mut i: usize = start;
    while i < end
        invariant
            start <= i <= end <= cs@.len(),
            body == cs@.subrange(start as int, end as int),
            all_decimal_digits(body.take(i - start)),
            acc == decimal_value(body.take(i - start)),
            acc <= bound,
        decreases end - i,
    {
        let c = cs[i];
        let u = c as u32;
        if u < 48 || u > 57 {
            assert(body[i - start] == c);
            return None;
        }
        let d = (u - 48) as u64;
        let ghost prev = body.take(i - start);
        let ghost next = body.take(i - start + 1);
        assert(next.drop_last() == prev);
        assert(next.last() == c);
        assert(all_decimal_digits(next)) by {
            assert forall|k: int| 0 <= k < next.len() implies is_decimal_digit(#[trigger] next[k]) by {
                if k < prev.len() {
                    assert(next[k] == prev[k]);
                }
            }
        }
        let wide: u128 = (acc as u128) * 10 + (d as u128);
        assert(decimal_value(next) == acc * 10 + d);
        if wide > bound as u128 {
            proof {
                if all_decimal_digits(body) {
                    lemma_decimal_value_prefix(body, i - start + 1);
                    assert(body.take(i - start + 1) == next);
                }
            }
            return None;
        }
        acc = wide as u64;
        i = i + 1;
    }
    assert(body.take(i - start) == body);
    Some(acc)
}

} // verus!

verus! {

/// `u32::from_str` on the characters `cs[start..end]`.
pub fn parse_u32_range(cs: &[char], start: usize, end: usize) -> (r: Option<u32>)
    requires
        start <= end <= cs@.len(),
    ensures
        r == parse_u32_spec(cs@.subrange(start as int, end as int)),
{
    let ghost s = cs@.subrange(start as int, end as int);
    if start < end && cs[start] == '+' {
        assert(s[0] == '+');
        assert(s.drop_first() == cs@.subrange(start + 1, end as int));
        if start + 1 == end {
            return None;
        }
        match read_digits(cs, start + 1, end, 0xffff_ffff) {
            Some(v) => Some(v as u32),
            None => None,
        }
    } else {
        if start == end {
            return None;
        }
        match read_digits(cs, start, end, 0xffff_ffff) {
            Some(v) => Some(v as u32),
            None => None,
        }
    }
}

/// `i64::from_str` on the characters `cs[start..end]`.
pub fn parse_i64_range(cs: &[char], start: usize, end: usize) -> (r: Option<i64>)
    requires
        start <= end <= cs@.len(),
    ensures
        r == parse_i64_spec(cs@.subrange(start as int, end as int)),
{
    let ghost s = cs@.subrange(start as int, end as int);
    if start == end {
        return None;
    }
    assert(s[0] == cs@[start as int]);
    if cs[start] == '-' {
        assert(s.drop_first() == cs@.subrange(start + 1, end as int));
        if start + 1 == end {
            return None;
        }
        match read_digits(cs, start + 1, end, 0x8000_0000_0000_0000) {
            Some(v) => {
                if v == 0x8000_0000_0000_0000 {
                    Some(i64::MIN)
                } else {
                    Some(-(v as i64))
                }
            },
            None => None,
        }
    } else if cs[start] == '+' {
        assert(s.drop_first() == cs@.subrange(start + 1, end as int));
        if start + 1 == end {
            return None;
        }
        match read_digits(cs, start + 1, end, 0x7fff_ffff_ffff_ffff) {
            Some(v) => Some(v as i64),
            None => None,
        }
    } else {
        match read_digits(cs, start, end, 0x7fff_ffff_ffff_ffff) {
            Some(v) => Some(v as i64),
            None => None,
        }
    }
}

/// `s.trim().parse::<u32>()`, with the error dropped.
pub fn parse_trimmed_u32(s: &str) -> (r: Option<u32>)
    ensures
        r == parse_u32_spec(trim(s@)),
{
    let cs = chars_vec(s);
    let (a, b) = trim_bounds(cs.as_slice());
    parse_u32_range(cs.as_slice(), a, b)
}

/// `s.trim().parse::<i64>()`, with the error dropped.
pub fn parse_trimmed_i64(s: &str) -> (r: Option<i64>)
    ensures
        r == parse_i64_spec(trim(s@)),
{
    let cs = chars_vec(s);
    let (a, b) = trim_bounds(cs.as_slice());
    parse_i64_range(cs.as_slice(), a, b)
}

} // verus!

verus! {

/// The decimal digit character for `d` in `0..10`.
pub open spec fn digit_char(d: int) -> char {
    ((48 + d) as u8) as char
}

/// The decimal digits of `n`, most significant first, with no leading zero (`0` is `"0"`).
pub open spec fn decimal_digits(n: nat) -> Seq<char>
    decreases n,
{
    if n < 10 {
        seq![digit_char(n as int)]
    } else {
        decimal_digits(n / 10).push(digit_char((n % 10) as int))
    }
}

/// The decimal text of a signed number, as `Display` writes it.
pub open spec fn decimal_text(v: int) -> Seq<char> {
    if v < 0 {
        seq!['-'] + decimal_digits((-v) as nat)
    } else {
        decimal_digits(v as nat)
    }
}

proof fn lemma_digit_char(d: int)
    requires
        0 <= d < 10,
    ensures
        is_decimal_digit(digit_char(d)),
        digit_value(digit_char(d)) == d,
{
    let b = (48 + d) as u8;
    assert((b as char) as u32 == b as u32);
}

/// Reading back the decimal digits of `n` gives `n`.
pub proof fn lemma_decimal_roundtrip(n: nat)
    ensures
        all_decimal_digits(decimal_digits(n)),
        decimal_value(decimal_digits(n)) == n,
        decimal_digits(n).len() > 0,
    decreases n,
{
    if n < 10 {
        lemma_digit_char(n as int);
        let s = decimal_digits(n);
        assert(s.drop_last() == Seq::<char>::empty());
        assert(decimal_value(s.drop_last()) == 0);
        assert(s.last() == digit_char(n as int));
        assert(decimal_value(s) == n);
    } else {
        lemma_decimal_roundtrip(n / 10);
        lemma_digit_char((n % 10) as int);
        let p = decimal_digits(n / 10);
        let s = decimal_digits(n);
        assert(s.drop_last() == p);
        assert(s.last() == digit_char((n % 10) as int));
        assert((n / 10) * 10 + n % 10 == n) by (nonlinear_arith);
        assert(decimal_value(s) == decimal_value(p) * 10 + digit_value(s.last()));
        assert forall|i: int| 0 <= i < s.len() implies is_decimal_digit(#[trigger] s[i]) by {
            if i < p.len() {
                assert(s[i] == p[i]);
            }
        }
    }
}

fn digit_char_of(d: u64) -> (c: char)
    requires
        d < 10,
    ensures
        c == digit_char(d as int),
{
    ((48 + d) as u8) as char
}

/// Appends the decimal digits of `n`.
pub fn push_decimal(out: &mut String, n: u64)
    ensures
        final(out)@ == old(out)@ + decimal_digits(n as nat),
    decreases n,
{
    if n >= 10 {
        push_decimal(out, n / 10);
    }
    let ghost mid = out@;
    push_char(out, digit_char_of(n % 10));
    proof {
        if n >= 10 {
            assert(decimal_digits(n as nat) == decimal_digits((n / 10) as nat).push(digit_char((n % 10) as int)));
        }
    }
}

/// Appends the decimal text of `v`, with a leading `-` when it is negative.
pub fn push_decimal_i64(out: &mut String, v: i64)
    ensures
        final(out)@ == old(out)@ + decimal_text(v as int),
{
    if v < 0 {
        push_char(out, '-');
        let m: u64 = if v == i64::MIN {
            0x8000_0000_0000_0000
        } else {
            (-v) as u64
        };
        let ghost mid = out@;
        push_decimal(out, m);
        assert(out@ == old(out)@ + (seq!['-'] + decimal_digits((-v) as nat)));
    } else {
        push_decimal(out, v as u64);
    }
}

/// The decimal text of `n`, as `u32::to_string` writes it.
pub fn decimal_string(n: u64) -> (r: String)
    ensures
        r@ == decimal_digits(n as nat),
{
    let mut r = String::new();
    push_decimal(&mut r, n);
    assert(r@ == Seq::<char>::empty() + decimal_digits(n as nat));
    r
}

} // verus!

verus! {

// ---------------------------------------------------------------------------
// Equality, case mapping
// ---------------------------------------------------------------------------

/// Whether two string slices hold the same characters.
pub fn str_eq(a: &str, b: &str) -> (r: bool)
    ensures
        r == (a@ == b@),
{
    let x = chars_vec(a);
    let y = chars_vec(b);
    if x.len() != y.len() {
        return false;
    }
    let mut i: usize = 0;
    while i < x.len()
        invariant
            x@ == a@,
            y@ == b@,
            x@.len() == y@.len(),
            i <= x@.len(),
            forall|k: int| 0 <= k < i ==> x@[k] == y@[k],
        decreases x@.len() - i,
    {
        if x[i] != y[i] {
            return false;
        }
        i = i + 1;
    }
    assert(x@ == y@);
    true
}

/// What `str::to_lowercase` returns for a string: the Unicode lowercase mapping of each character.
pub uninterp spec fn lowercase(s: Seq<char>) -> Seq<char>;

/// What `str::to_uppercase` returns for a string: the Unicode uppercase mapping of each character.
pub uninterp spec fn uppercase(s: Seq<char>) -> Seq<char>;

/// Whether every character of `s` is ASCII.
pub open spec fn is_ascii_chars(s: Seq<char>) -> bool {
    forall|i: int| 0 <= i < s.len() ==> (s[i] as u32) < 128
}

/// The ASCII lowercase of a character: `'A'..='Z'` become `'a'..='z'`, others stay.
pub open spec fn ascii_lower_char(c: char) -> char {
    if 'A' <= c && c <= 'Z' {
        (((c as u32) + 32) as u8) as char
    } else {
        c
    }
}

/// The ASCII uppercase of a character: `'a'..='z'` become `'A'..='Z'`, others stay.
pub open spec fn ascii_upper_char(c: char) -> char {
    if 'a' <= c && c <= 'z' {
        (((c as u32) - 32) as u8) as char
    } else {
        c
    }
}

/// Each character of `s` in ASCII lowercase.
pub open spec fn ascii_lower(s: Seq<char>) -> Seq<char> {
    s.map_values(|c: char| ascii_lower_char(c))
}

/// Each character of `s` in ASCII uppercase.
pub open spec fn ascii_upper(s: Seq<char>) -> Seq<char> {
    s.map_values(|c: char| ascii_upper_char(c))
}

/// Lowering ASCII text twice lowers it once.
pub proof fn lemma_ascii_lower_idempotent(s: Seq<char>)
    ensures
        ascii_lower(ascii_lower(s)) == ascii_lower(s),
        is_ascii_chars(s) ==> is_ascii_chars(ascii_lower(s)),
{
    assert(ascii_lower(ascii_lower(s)) =~= ascii_lower(s));
}

/// `str::to_lowercase`: the string with each character replaced by its Unicode lowercase
/// mapping; the result is named [`lowercase`] of the argument's characters. The documentation
/// gives the ASCII case: there the mapping is that of `'A'..='Z'` to `'a'..='z'`.
#[verifier::external_body]
pub(crate) fn to_lowercase(s: &str) -> (r: String)
    ensures
        r@ == lowercase(s@),
        is_ascii_chars(s@) ==> r@ == ascii_lower(s@),
{
    s.to_lowercase()
}

/// `str::to_uppercase`: the string with each character replaced by its Unicode uppercase
/// mapping; the result is named [`uppercase`] of the argument's characters. The documentation
/// gives the ASCII case: there the mapping is that of `'a'..='z'` to `'A'..='Z'`.
#[verifier::external_body]
pub(crate) fn to_uppercase(s: &str) -> (r: String)
    ensures
        r@ == uppercase(s@),
        is_ascii_chars(s@) ==> r@ == ascii_upper(s@),
{
    s.to_uppercase()
}

// ---------------------------------------------------------------------------
// UTF-8 lengths
// ---------------------------------------------------------------------------

/// The number of bytes in the UTF-8 encoding of `s` (`str::len`).
pub open spec fn utf8_len(s: Seq<char>) -> nat {
    encode_utf8(s).len()
}

/// The number of bytes in the UTF-8 encoding of one character (`char::len_utf8`).
pub open spec fn char_utf8_width(c: char) -> nat {
    encode_scalar(c as u32).len()
}

proof fn lemma_encode_utf8_concat(a: Seq<char>, b: Seq<char>)
    ensures
        encode_utf8(a + b) == encode_utf8(a) + encode_utf8(b),
    decreases a.len(),
{
    if a.len() == 0 {
        assert(a + b == b);
        assert(encode_utf8(a) == Seq::<u8>::empty());
    } else {
        lemma_encode_utf8_concat(a.drop_first(), b);
        assert((a + b).drop_first() == a.drop_first() + b);
        assert((a + b)[0] == a[0]);
    }
}

pub proof fn lemma_utf8_len_push(s: Seq<char>, c: char)
    ensures
        utf8_len(s.push(c)) == utf8_len(s) + char_utf8_width(c),
        1 <= char_utf8_width(c) <= 4,
{
    lemma_encode_utf8_concat(s, seq![c]);
    assert(s.push(c) == s + seq![c]);
    let one = seq![c];
    assert(one.drop_first() == Seq::<char>::empty());
    assert(encode_utf8(Seq::<char>::empty()) == Seq::<u8>::empty());
    assert(encode_utf8(one) == encode_scalar(c as u32) + encode_utf8(one.drop_first()));
    assert(encode_utf8(one) == encode_scalar(c as u32));
    char_is_scalar(c);
}

/// Taking more characters of a string never takes fewer bytes, and each character adds at least one.
pub proof fn lemma_utf8_len_take_strict(s: Seq<char>, i: int, j: int)
    requires
        0 <= i < j <= s.len(),
    ensures
        utf8_len(s.take(i)) < utf8_len(s.take(j)),
    decreases j - i,
{
    lemma_utf8_len_push(s.take(j - 1), s[j - 1]);
    assert(s.take(j) == s.take(j - 1).push(s[j - 1]));
    if i < j - 1 {
        lemma_utf8_len_take_strict(s, i, j - 1);
    }
}

/// `char::len_utf8`.
pub fn utf8_width(c: char) -> (w: usize)
    ensures
        w == char_utf8_width(c),
        1 <= w <= 4,
{
    proof {
        char_is_scalar(c);
    }
    let u = c as u32;
    if u <= 0x7f {
        1
    } else if u <= 0x7ff {
        2
    } else if u <= 0xffff {
        3
    } else {
        4
    }
}

// ---------------------------------------------------------------------------
// Lines (as `str::lines` splits them)
// ---------------------------------------------------------------------------

/// The index of the first `'\n'` in `s`, or `s.len()` when there is none.
pub open spec fn newline_index(s: Seq<char>) -> nat
    decreases s.len(),
{
    if s.len() == 0 || s[0] == '\n' {
        0
    } else {
        1 + newline_index(s.drop_first())
    }
}

/// The first line of `s` as `s.lines().next().unwrap_or("")` gives it: the characters before the
/// first `'\n'`, without a `'\r'` that stood right before that `'\n'`.
pub open spec fn first_line(s: Seq<char>) -> Seq<char> {
    let i = newline_index(s);
    let l = s.take(i as int);
    if i < s.len() && l.len() > 0 && l.last() == '\r' {
        l.drop_last()
    } else {
        l
    }
}

/// Whether `s.lines()` yields more than one line: something follows the first `'\n'`.
pub open spec fn has_more_lines(s: Seq<char>) -> bool {
    newline_index(s) + 1 < s.len()
}

proof fn lemma_newline_index(s: Seq<char>, i: int)
    requires
        0 <= i <= s.len(),
        forall|k: int| 0 <= k < i ==> #[trigger] s[k] != '\n',
        i == s.len() || s[i] == '\n',
    ensures
        newline_index(s) == i,
    decreases i,
{
    if i > 0 {
        let t = s.drop_first();
        assert forall|k: int| 0 <= k < i - 1 implies #[trigger] t[k] != '\n' by {
            assert(t[k] == s[k + 1]);
        }
        if i < s.len() {
            assert(t[i - 1] == s[i]);
        }
        assert(s[0] != '\n');
        lemma_newline_index(t, i - 1);
    }
}

/// `(end, next)`: `cs[..end]` is the first line of `cs` and `next` is where the first `'\n'` is
/// (or the length).
pub fn first_line_bounds(cs: &[char]) -> (r: (usize, usize))
    ensures
        r.0 <= r.1 <= cs@.len(),
        r.1 == newline_index(cs@),
        cs@.take(r.0 as int) == first_line(cs@),
{
    let n = cs.len();
    let mut i: usize = 0;
    while i < n && cs[i] != '\n'
        invariant
            i <= n == cs@.len(),
            forall|k: int| 0 <= k < i ==> #[trigger] cs@[k] != '\n',
        decreases n - i,
    {
        i = i + 1;
    }
    proof {
        lemma_newline_index(cs@, i as int);
    }
    let ghost l = cs@.take(i as int);
    if i < n && i > 0 && cs[i - 1] == '\r' {
        assert(l.last() == cs@[i - 1]);
        assert(l.drop_last() == cs@.take(i - 1));
        (i - 1, i)
    } else {
        if i > 0 {
            assert(l.last() == cs@[i - 1]);
        }
        (i, i)
    }
}

// ---------------------------------------------------------------------------
// Paths
// ---------------------------------------------------------------------------

/// `base` with the relative path `name` adjoined, as `Path::join` does on Unix: a `'/'` goes
/// between them unless `base` is empty or already ends with one.
pub open spec fn join_path_spec(base: Seq<char>, name: Seq<char>) -> Seq<char> {
    if base.len() == 0 {
        name
    } else if base.last() == '/' {
        base + name
    } else {
        base + seq!['/'] + name
    }
}

/// `Path::join` for a relative `name`.
pub fn join_path(base: &str, name: &str) -> (r: String)
    requires
        !(name@.len() > 0 && name@[0] == '/'),
    ensures
        r@ == join_path_spec(base@, name@),
{
    let cs = chars_vec(base);
    let mut r = base.to_owned();
    if cs.len() > 0 && cs[cs.len() - 1] != '/' {
        push_char(&mut r, '/');
    }
    r.append(name);
    proof {
        if base@.len() == 0 {
            assert(base@ + name@ == name@);
        }
    }
    r
}

} // verus!

verus! {

/// The longest prefix `cs[..r.0]` of `cs[..end]` whose UTF-8 encoding fits in `max` bytes.
pub fn fit_prefix(cs: &[char], end: usize, max: usize) -> (r: (usize, usize))
    requires
        end <= cs@.len(),
    ensures
        r.0 <= end,
        r.1 == utf8_len(cs@.take(r.0 as int)),
        r.1 <= max,
        r.0 < end ==> utf8_len(cs@.take(r.0 + 1)) > max,
{
    let mut k: usize = 0;
    let mut acc: usize = 0;
    assert(cs@.take(0) == Seq::<char>::empty());
    assert(encode_utf8(Seq::<char>::empty()) == Seq::<u8>::empty());
    while k < end
        invariant
            k <= end <= cs@.len(),
            acc == utf8_len(cs@.take(k as int)),
            acc <= max,
        decreases end - k,
    {
        let w = utf8_width(cs[k]);
        proof {
            lemma_utf8_len_push(cs@.take(k as int), cs@[k as int]);
            assert(cs@.take(k + 1) == cs@.take(k as int).push(cs@[k as int]));
        }
        if w > max - acc {
            return (k, acc);
        }
        acc = acc + w;
        k = k + 1;
    }
    (k, acc)
}

/// Whether the UTF-8 encoding of `cs[..end]` has at most `max` bytes.
pub fn fits_in_bytes(cs: &[char], end: usize, max: usize) -> (r: bool)
    requires
        end <= cs@.len(),
    ensures
        r == (utf8_len(cs@.take(end as int)) <= max),
{
    let (k, _) = fit_prefix(cs, end, max);
    if k < end {
        if k + 1 < end {
            proof {
                lemma_utf8_len_take_strict(cs@, k + 1, end as int);
            }
        }
        false
    } else {
        true
    }
}

} // verus!

verus! {

/// A string without `'\n'` is its own first and only line.
pub proof fn lemma_no_newline_first_line(s: Seq<char>)
    requires
        forall|i: int| 0 <= i < s.len() ==> s[i] != '\n',
    ensures
        newline_index(s) == s.len(),
        first_line(s) == s,
        !has_more_lines(s),
{
    lemma_newline_index(s, s.len() as int);
    assert(s.take(s.len() as int) == s);
}

} // verus!
