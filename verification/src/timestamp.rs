//! Creation timestamps: a plain calendar value with second precision, its
//! canonical `YYYY-MM-DD HH:MM:SS` text form, and a parser for that form.

use vstd::prelude::*;

use crate::digits::{digit_char, digit_to_char};
use crate::text::push_char;

verus! {

/// A calendar timestamp, held as plain numeric fields.
#[derive(Debug, Clone, Copy, PartialEq, Eq, Structural)]
pub struct Timestamp {
    pub year: u16,
    pub month: u8,
    pub day: u8,
    pub hour: u8,
    pub minute: u8,
    pub second: u8,
}

impl Timestamp {
    /// Well-formed: the year has at most four digits and every other field
    /// stays within its calendar or clock range.
    pub open spec fn wf(self) -> bool {
        &&& self.year <= 9999
        &&& 1 <= self.month <= 12
        &&& 1 <= self.day <= 31
        &&& self.hour <= 23
        &&& self.minute <= 59
        &&& self.second <= 59
    }

    /// Executable form of `wf`.
    pub fn valid(&self) -> (r: bool)
        ensures
            r == self.wf(),
    {
        self.year <= 9999 && 1 <= self.month && self.month <= 12 && 1 <= self.day && self.day
            <= 31 && self.hour <= 23 && self.minute <= 59 && self.second <= 59
    }

    /// Strictly earlier in time: ordered by year, then month, day, hour,
    /// minute and second.
    pub open spec fn before(self, other: Timestamp) -> bool {
        if self.year != other.year {
            self.year < other.year
        } else if self.month != other.month {
            self.month < other.month
        } else if self.day != other.day {
            self.day < other.day
        } else if self.hour != other.hour {
            self.hour < other.hour
        } else if self.minute != other.minute {
            self.minute < other.minute
        } else {
            self.second < other.second
        }
    }
}

/// A number rendered as exactly two decimal digits, zero padded.
pub open spec fn pad2(n: int) -> Seq<char> {
    seq![digit_char(n / 10 % 10), digit_char(n % 10)]
}

/// A number rendered as exactly four decimal digits, zero padded.
pub open spec fn pad4(n: int) -> Seq<char> {
    pad2(n / 100 % 100) + pad2(n % 100)
}

/// The canonical text of a timestamp: `YYYY-MM-DD HH:MM:SS`.
pub open spec fn ts_chars(t: Timestamp) -> Seq<char> {
    pad4(t.year as int) + seq!['-'] + pad2(t.month as int) + seq!['-'] + pad2(t.day as int)
        + seq![' '] + pad2(t.hour as int) + seq![':'] + pad2(t.minute as int) + seq![':'] + pad2(
        t.second as int,
    )
}

/// Writes two zero-padded decimal digits of `n` onto `s`.
fn push_pad2(s: &mut String, n: u32)
    requires
        n < 100,
    ensures
        final(s)@ == old(s)@ + pad2(n as int),
{
    push_char(s, digit_to_char(n / 10));
    push_char(s, digit_to_char(n % 10));
    proof {
        assert(final(s)@ =~= old(s)@ + pad2(n as int));
    }
}

/// Renders a timestamp in its canonical `YYYY-MM-DD HH:MM:SS` form.
#[verifier::rlimit(100)]
pub fn format_timestamp(t: &Timestamp) -> (s: String)
    requires
        t.wf(),
    ensures
        s@ == ts_chars(*t),
{
    let mut s = String::new();
    push_pad2(&mut s, (t.year / 100) as u32);
    push_pad2(&mut s, (t.year % 100) as u32);
    push_char(&mut s, '-');
    push_pad2(&mut s, t.month as u32);
    push_char(&mut s, '-');
    push_pad2(&mut s, t.day as u32);
    push_char(&mut s, ' ');
    push_pad2(&mut s, t.hour as u32);
    push_char(&mut s, ':');
    push_pad2(&mut s, t.minute as u32);
    push_char(&mut s, ':');
    push_pad2(&mut s, t.second as u32);
    proof {
        assert(pad4(t.year as int) == pad2(t.year as int / 100 % 100) + pad2(t.year as int % 100));
        assert(s@ =~= ts_chars(*t));
    }
    s
}

/// Strict lexicographic order on character sequences by code point, a
/// proper prefix coming first. On the UTF-8 encodings SQLite compares
/// with `memcmp`, byte order agrees with this code-point order.
pub open spec fn lex_lt(a: Seq<char>, b: Seq<char>) -> bool
    decreases a.len(),
{
    if b.len() == 0 {
        false
    } else if a.len() == 0 {
        true
    } else if a[0] != b[0] {
        (a[0] as u32) < (b[0] as u32)
    } else {
        lex_lt(a.drop_first(), b.drop_first())
    }
}

/// The numeric value of a decimal digit character, `-1` for any other
/// character.
pub open spec fn digit_val(c: char) -> int {
    if c == '0' {
        0
    } else if c == '1' {
        1
    } else if c == '2' {
        2
    } else if c == '3' {
        3
    } else if c == '4' {
        4
    } else if c == '5' {
        5
    } else if c == '6' {
        6
    } else if c == '7' {
        7
    } else if c == '8' {
        8
    } else if c == '9' {
        9
    } else {
        -1
    }
}

/// Whether `c` is a decimal digit character.
pub open spec fn is_digit(c: char) -> bool {
    digit_val(c) >= 0
}

/// The value of the two digit characters of `s` at `i` and `i + 1`.
pub open spec fn parse2(s: Seq<char>, i: int) -> int {
    digit_val(s[i]) * 10 + digit_val(s[i + 1])
}

/// The value of the four digit characters of `s` starting at `i`.
pub open spec fn parse4(s: Seq<char>, i: int) -> int {
    parse2(s, i) * 100 + parse2(s, i + 2)
}

/// Whether `s` has the shape `YYYY-MM-DD HH:MM:SS`: nineteen characters,
/// digits and the three separators in their places.
pub open spec fn ts_shape(s: Seq<char>) -> bool {
    &&& s.len() == 19
    &&& is_digit(s[0])
    &&& is_digit(s[1])
    &&& is_digit(s[2])
    &&& is_digit(s[3])
    &&& s[4] == '-'
    &&& is_digit(s[5])
    &&& is_digit(s[6])
    &&& s[7] == '-'
    &&& is_digit(s[8])
    &&& is_digit(s[9])
    &&& s[10] == ' '
    &&& is_digit(s[11])
    &&& is_digit(s[12])
    &&& s[13] == ':'
    &&& is_digit(s[14])
    &&& is_digit(s[15])
    &&& s[16] == ':'
    &&& is_digit(s[17])
    &&& is_digit(s[18])
}

/// The timestamp read off a sequence of shape `YYYY-MM-DD HH:MM:SS`.
pub open spec fn ts_of(s: Seq<char>) -> Timestamp {
    Timestamp {
        year: parse4(s, 0) as u16,
        month: parse2(s, 5) as u8,
        day: parse2(s, 8) as u8,
        hour: parse2(s, 11) as u8,
        minute: parse2(s, 14) as u8,
        second: parse2(s, 17) as u8,
    }
}

/// What parsing a creation timestamp yields: the read timestamp when the
/// text has the canonical shape and the fields are within range, nothing
/// otherwise.
pub open spec fn parse_ts(s: Seq<char>) -> Option<Timestamp> {
    if ts_shape(s) && ts_of(s).wf() {
        Some(ts_of(s))
    } else {
        None
    }
}

/// The numeric value of a decimal digit character, executable form.
pub fn char_digit(c: char) -> (r: Option<u32>)
    ensures
        r matches Some(d) ==> d < 10 && digit_val(c) == d as int,
        r is None ==> !is_digit(c),
{
    if c == '0' {
        Some(0)
    } else if c == '1' {
        Some(1)
    } else if c == '2' {
        Some(2)
    } else if c == '3' {
        Some(3)
    } else if c == '4' {
        Some(4)
    } else if c == '5' {
        Some(5)
    } else if c == '6' {
        Some(6)
    } else if c == '7' {
        Some(7)
    } else if c == '8' {
        Some(8)
    } else if c == '9' {
        Some(9)
    } else {
        None
    }
}

/// Reads a two-digit value out of its two characters.
fn read_pair(hi: char, lo: char) -> (r: Option<u32>)
    ensures
        r matches Some(n) ==> is_digit(hi) && is_digit(lo) && n == digit_val(hi) * 10 + digit_val(
            lo,
        ) && n < 100,
        r is None ==> !(is_digit(hi) && is_digit(lo)),
{
    match (char_digit(hi), char_digit(lo)) {
        (Some(h), Some(l)) => Some(h * 10 + l),
        _ => None,
    }
}

/// Reading a rendered digit back yields the digit.
proof fn lemma_digit_char_val()
    ensures
        forall|d: int| 0 <= d < 10 ==> digit_val(#[trigger] digit_char(d)) == d,
{
}

/// The code point of a rendered digit, `'0'` shifted by the digit.
proof fn lemma_digit_char_code()
    ensures
        forall|d: int| 0 <= d < 10 ==> (#[trigger] digit_char(d)) as u32 == 48 + d,
{
}

/// Nothing comes before itself in `lex_lt`.
proof fn lemma_lex_irrefl(x: Seq<char>)
    ensures
        !lex_lt(x, x),
    decreases x.len(),
{
    if x.len() > 0 && x[0] == x[0] {
        lemma_lex_irrefl(x.drop_first());
    }
}

/// Comparing concatenations with prefixes of one length: the prefixes
/// decide unless they are equal, in which case the suffixes do.
proof fn lemma_lex_concat(a: Seq<char>, b: Seq<char>, u: Seq<char>, v: Seq<char>)
    requires
        a.len() == b.len(),
    ensures
        lex_lt(a + u, b + v) == (lex_lt(a, b) || (a =~= b && lex_lt(u, v))),
    decreases a.len(),
{
    if a.len() == 0 {
        assert(a + u =~= u);
        assert(b + v =~= v);
    } else {
        assert((a + u)[0] == a[0]);
        assert((b + v)[0] == b[0]);
        if a[0] == b[0] {
            assert((a + u).drop_first() =~= a.drop_first() + u);
            assert((b + v).drop_first() =~= b.drop_first() + v);
            lemma_lex_concat(a.drop_first(), b.drop_first(), u, v);
            if a.drop_first() =~= b.drop_first() {
                assert forall|i: int| 0 <= i < a.len() implies a[i] == b[i] by {
                    if i > 0 {
                        assert(a.drop_first()[i - 1] == b.drop_first()[i - 1]);
                    }
                }
                assert(a =~= b);
            }
            if a =~= b {
                assert(a.drop_first() =~= b.drop_first());
            }
        } else {
            assert(!(a =~= b));
        }
    }
}

/// Two-digit rendering preserves numeric order.
proof fn lemma_pad2_order(m: int, n: int)
    requires
        0 <= m < 100,
        0 <= n < 100,
    ensures
        lex_lt(pad2(m), pad2(n)) == (m < n),
{
    reveal_with_fuel(lex_lt, 4);
    lemma_digit_char_code();
    assert(m / 10 % 10 == m / 10);
    assert(n / 10 % 10 == n / 10);
    assert(pad2(m).drop_first() =~= seq![digit_char(m % 10)]);
    assert(pad2(n).drop_first() =~= seq![digit_char(n % 10)]);
    assert(seq![digit_char(m % 10)].drop_first() =~= Seq::<char>::empty());
    assert(m == 10 * (m / 10) + m % 10);
    assert(n == 10 * (n / 10) + n % 10);
}

/// Two-digit renderings of distinct numbers are distinct.
proof fn lemma_pad2_inj(m: int, n: int)
    requires
        0 <= m < 100,
        0 <= n < 100,
    ensures
        pad2(m) =~= pad2(n) ==> m == n,
{
    if pad2(m) =~= pad2(n) && m != n {
        lemma_pad2_order(m, n);
        lemma_pad2_order(n, m);
        lemma_lex_irrefl(pad2(m));
    }
}

/// A two-digit field followed by anything: the field decides unless the
/// values are equal, in which case the rest does.
proof fn lemma_lex_field2(m: int, n: int, u: Seq<char>, v: Seq<char>)
    requires
        0 <= m < 100,
        0 <= n < 100,
    ensures
        lex_lt(pad2(m) + u, pad2(n) + v) == (m < n || (m == n && lex_lt(u, v))),
{
    lemma_lex_concat(pad2(m), pad2(n), u, v);
    lemma_pad2_order(m, n);
    lemma_pad2_inj(m, n);
}

/// A shared single separator in front of both sides drops out.
proof fn lemma_lex_sep(c: char, u: Seq<char>, v: Seq<char>)
    ensures
        lex_lt(seq![c] + u, seq![c] + v) == lex_lt(u, v),
{
    lemma_lex_concat(seq![c], seq![c], u, v);
    lemma_lex_irrefl(seq![c]);
}

/// A four-digit field followed by anything, as for `lemma_lex_field2`.
proof fn lemma_lex_field4(m: int, n: int, u: Seq<char>, v: Seq<char>)
    requires
        0 <= m < 10000,
        0 <= n < 10000,
    ensures
        lex_lt(pad4(m) + u, pad4(n) + v) == (m < n || (m == n && lex_lt(u, v))),
{
    assert(m / 100 % 100 == m / 100);
    assert(n / 100 % 100 == n / 100);
    assert(pad4(m) + u =~= pad2(m / 100) + (pad2(m % 100) + u));
    assert(pad4(n) + v =~= pad2(n / 100) + (pad2(n % 100) + v));
    lemma_lex_field2(m / 100, n / 100, pad2(m % 100) + u, pad2(n % 100) + v);
    lemma_lex_field2(m % 100, n % 100, u, v);
    assert(m == 100 * (m / 100) + m % 100);
    assert(n == 100 * (n / 100) + n % 100);
}

/// The canonical texts of two well-formed timestamps compare in `lex_lt`
/// exactly as the timestamps compare in time. This is what lets the store
/// compare stored creation texts bytewise.
#[verifier::rlimit(100)]
pub proof fn lemma_ts_order(a: Timestamp, b: Timestamp)
    requires
        a.wf(),
        b.wf(),
    ensures
        lex_lt(ts_chars(a), ts_chars(b)) == a.before(b),
{
    let s5a = pad2(a.second as int);
    let s4a = pad2(a.minute as int) + (seq![':'] + s5a);
    let s3a = pad2(a.hour as int) + (seq![':'] + s4a);
    let s2a = pad2(a.day as int) + (seq![' '] + s3a);
    let s1a = pad2(a.month as int) + (seq!['-'] + s2a);
    let s5b = pad2(b.second as int);
    let s4b = pad2(b.minute as int) + (seq![':'] + s5b);
    let s3b = pad2(b.hour as int) + (seq![':'] + s4b);
    let s2b = pad2(b.day as int) + (seq![' '] + s3b);
    let s1b = pad2(b.month as int) + (seq!['-'] + s2b);
    assert(ts_chars(a) =~= pad4(a.year as int) + (seq!['-'] + s1a));
    assert(ts_chars(b) =~= pad4(b.year as int) + (seq!['-'] + s1b));
    lemma_lex_field4(a.year as int, b.year as int, seq!['-'] + s1a, seq!['-'] + s1b);
    lemma_lex_sep('-', s1a, s1b);
    lemma_lex_field2(a.month as int, b.month as int, seq!['-'] + s2a, seq!['-'] + s2b);
    lemma_lex_sep('-', s2a, s2b);
    lemma_lex_field2(a.day as int, b.day as int, seq![' '] + s3a, seq![' '] + s3b);
    lemma_lex_sep(' ', s3a, s3b);
    lemma_lex_field2(a.hour as int, b.hour as int, seq![':'] + s4a, seq![':'] + s4b);
    lemma_lex_sep(':', s4a, s4b);
    lemma_lex_field2(a.minute as int, b.minute as int, seq![':'] + s5a, seq![':'] + s5b);
    lemma_lex_sep(':', s5a, s5b);
    lemma_pad2_order(a.second as int, b.second as int);
}

/// Parsing the canonical text of a well-formed timestamp yields exactly
/// that timestamp.
#[verifier::rlimit(100)]
pub proof fn lemma_ts_round_trip(t: Timestamp)
    requires
        t.wf(),
    ensures
        parse_ts(ts_chars(t)) == Some(t),
{
    lemma_digit_char_val();
    let y = t.year as int;
    let mo = t.month as int;
    let d = t.day as int;
    let h = t.hour as int;
    let mi = t.minute as int;
    let se = t.second as int;
    let s = ts_chars(t);
    assert(s =~= seq![
        digit_char(y / 100 % 100 / 10 % 10),
        digit_char(y / 100 % 100 % 10),
        digit_char(y % 100 / 10 % 10),
        digit_char(y % 100 % 10),
        '-',
        digit_char(mo / 10 % 10),
        digit_char(mo % 10),
        '-',
        digit_char(d / 10 % 10),
        digit_char(d % 10),
        ' ',
        digit_char(h / 10 % 10),
        digit_char(h % 10),
        ':',
        digit_char(mi / 10 % 10),
        digit_char(mi % 10),
        ':',
        digit_char(se / 10 % 10),
        digit_char(se % 10),
    ]);
    assert(ts_shape(s));
    assert(parse2(s, 0) == y / 100) by {
        assert(y / 100 % 100 == y / 100);
        assert(y / 100 == 10 * (y / 100 / 10) + y / 100 % 10);
    }
    assert(parse2(s, 2) == y % 100) by {
        assert(y % 100 == 10 * (y % 100 / 10) + y % 100 % 10);
    }
    assert(parse4(s, 0) == y) by {
        assert(y == 100 * (y / 100) + y % 100);
    }
    assert(parse2(s, 5) == mo) by {
        assert(mo / 10 % 10 == mo / 10);
        assert(mo == 10 * (mo / 10) + mo % 10);
    }
    assert(parse2(s, 8) == d) by {
        assert(d / 10 % 10 == d / 10);
        assert(d == 10 * (d / 10) + d % 10);
    }
    assert(parse2(s, 11) == h) by {
        assert(h / 10 % 10 == h / 10);
        assert(h == 10 * (h / 10) + h % 10);
    }
    assert(parse2(s, 14) == mi) by {
        assert(mi / 10 % 10 == mi / 10);
        assert(mi == 10 * (mi / 10) + mi % 10);
    }
    assert(parse2(s, 17) == se) by {
        assert(se / 10 % 10 == se / 10);
        assert(se == 10 * (se / 10) + se % 10);
    }
    assert(ts_of(s) == t);
}

/// Parses `YYYY-MM-DD HH:MM:SS`, proved to match `parse_ts`.
pub fn parse_timestamp(v: &Vec<char>) -> (r: Option<Timestamp>)
    ensures
        r == parse_ts(v@),
{
    if v.len() != 19 {
        return None;
    }
    if !(v[4] == '-' && v[7] == '-' && v[10] == ' ' && v[13] == ':' && v[16] == ':') {
        return None;
    }
    let y_hi = read_pair(v[0], v[1]);
    let y_lo = read_pair(v[2], v[3]);
    let mo = read_pair(v[5], v[6]);
    let d = read_pair(v[8], v[9]);
    let h = read_pair(v[11], v[12]);
    let mi = read_pair(v[14], v[15]);
    let se = read_pair(v[17], v[18]);
    match (y_hi, y_lo, mo, d, h, mi, se) {
        (Some(yh), Some(yl), Some(mo), Some(d), Some(h), Some(mi), Some(se)) => {
            let t = Timestamp {
                year: (yh * 100 + yl) as u16,
                month: mo as u8,
                day: d as u8,
                hour: h as u8,
                minute: mi as u8,
                second: se as u8,
            };
            if t.valid() {
                Some(t)
            } else {
                None
            }
        },
        _ => None,
    }
}

} // verus!
