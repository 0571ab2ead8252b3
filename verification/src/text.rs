use vstd::prelude::*;

use crate::clicker::sat_add;

verus! {

/// The decimal digit `d` (below ten) as a character.
pub open spec fn digit_char(d: int) -> char {
    if d == 0 {
        '0'
    } else if d == 1 {
        '1'
    } else if d == 2 {
        '2'
    } else if d == 3 {
        '3'
    } else if d == 4 {
        '4'
    } else if d == 5 {
        '5'
    } else if d == 6 {
        '6'
    } else if d == 7 {
        '7'
    } else if d == 8 {
        '8'
    } else {
        '9'
    }
}

/// The hexadecimal digit `d` (below sixteen) as a character, upper case.
pub open spec fn hex_digit_char(d: int) -> char {
    if d < 10 {
        digit_char(d)
    } else if d == 10 {
        'A'
    } else if d == 11 {
        'B'
    } else if d == 12 {
        'C'
    } else if d == 13 {
        'D'
    } else if d == 14 {
        'E'
    } else {
        'F'
    }
}

/// The decimal notation of `n`, without leading zeros.
pub open spec fn decimal(n: nat) -> Seq<char>
    decreases n,
{
    if n < 10 {
        seq![digit_char(n as int)]
    } else {
        decimal(n / 10).push(digit_char((n % 10) as int))
    }
}

/// The upper-case hexadecimal notation of `n`, without leading zeros.
pub open spec fn hexadecimal(n: nat) -> Seq<char>
    decreases n,
{
    if n < 16 {
        seq![hex_digit_char(n as int)]
    } else {
        hexadecimal(n / 16).push(hex_digit_char((n % 16) as int))
    }
}

/// `n` in decimal, with a leading zero below ten (Rust's `{:02}`).
pub open spec fn pad2(n: nat) -> Seq<char> {
    if n < 10 {
        seq!['0'] + decimal(n)
    } else {
        decimal(n)
    }
}

/// `n` in upper-case hexadecimal, with a leading zero below sixteen (Rust's `{:02X}`).
pub open spec fn hex_pad2(n: nat) -> Seq<char> {
    if n < 16 {
        seq!['0'] + hexadecimal(n)
    } else {
        hexadecimal(n)
    }
}

/// `text` when `present`, else nothing.
pub open spec fn part_if(present: bool, text: Seq<char>) -> Seq<char> {
    if present {
        text
    } else {
        Seq::empty()
    }
}

fn digit_str(d: u64) -> (r: &'static str)
    requires
        d < 16,
    ensures
        r@ == seq![hex_digit_char(d as int)],
{
    proof {
        reveal_strlit("0");
        reveal_strlit("1");
        reveal_strlit("2");
        reveal_strlit("3");
        reveal_strlit("4");
        reveal_strlit("5");
        reveal_strlit("6");
        reveal_strlit("7");
        reveal_strlit("8");
        reveal_strlit("9");
        reveal_strlit("A");
        reveal_strlit("B");
        reveal_strlit("C");
        reveal_strlit("D");
        reveal_strlit("E");
        reveal_strlit("F");
    }
    match d {
        0 => "0",
        1 => "1",
        2 => "2",
        3 => "3",
        4 => "4",
        5 => "5",
        6 => "6",
        7 => "7",
        8 => "8",
        9 => "9",
        10 => "A",
        11 => "B",
        12 => "C",
        13 => "D",
        14 => "E",
        _ => "F",
    }
}

/// Appends `n` in decimal.
pub fn push_decimal(out: &mut String, n: u64)
    ensures
        final(out)@ == old(out)@ + decimal(n as nat),
    decreases n,
{
    if n >= 10 {
        push_decimal(out, n / 10);
    }
    out.append(digit_str(n % 10));
    proof {
        assert(old(out)@ + decimal(n as nat) =~= (if n >= 10 {
            old(out)@ + decimal((n / 10) as nat)
        } else {
            old(out)@
        }) + seq![digit_char((n % 10) as int)]);
    }
}

/// Appends `n` in upper-case hexadecimal.
pub fn push_hexadecimal(out: &mut String, n: u64)
    ensures
        final(out)@ == old(out)@ + hexadecimal(n as nat),
    decreases n,
{
    if n >= 16 {
        push_hexadecimal(out, n / 16);
    }
    out.append(digit_str(n % 16));
    proof {
        assert(old(out)@ + hexadecimal(n as nat) =~= (if n >= 16 {
            old(out)@ + hexadecimal((n / 16) as nat)
        } else {
            old(out)@
        }) + seq![hex_digit_char((n % 16) as int)]);
    }
}

/// Appends `n` in decimal with a leading zero below ten.
pub fn push_pad2(out: &mut String, n: u64)
    ensures
        final(out)@ == old(out)@ + pad2(n as nat),
{
    if n < 10 {
        proof {
            reveal_strlit("0");
        }
        out.append("0");
    }
    push_decimal(out, n);
    proof {
        assert(old(out)@ + pad2(n as nat) =~= final(out)@);
    }
}

/// `n` in decimal.
pub fn decimal_string(n: u64) -> (r: String)
    ensures
        r@ == decimal(n as nat),
{
    let mut out = String::new();
    push_decimal(&mut out, n);
    proof {
        assert(out@ =~= decimal(n as nat));
    }
    out
}

/// Appends one character (std's `String::push`).
#[verifier::external_body]
pub(crate) fn push_char(out: &mut String, c: char)
    ensures
        final(out)@ == old(out)@.push(c),
{
    out.push(c);
}

/// Whole seconds in `ms`, rounded up.
pub open spec fn seconds_rounded_up(ms: u64) -> nat {
    ((ms + 999) / 1000) as nat
}

/// A time left as the Windows window shows it: `h:mm:ss` from one hour on, else `m:ss`,
/// counting started seconds as whole ones.
pub open spec fn spec_format_duration(ms: u64) -> Seq<char> {
    let total = seconds_rounded_up(ms);
    let hours = total / 3600;
    let minutes = (total % 3600) / 60;
    let seconds = total % 60;
    if hours > 0 {
        decimal(hours) + seq![':'] + pad2(minutes) + seq![':'] + pad2(seconds)
    } else {
        decimal(minutes) + seq![':'] + pad2(seconds)
    }
}

/// Formats the time left of a run for the Windows window.
pub fn format_duration(milliseconds: u64) -> (r: String)
    ensures
        r@ == spec_format_duration(milliseconds),
{
    let total = milliseconds / 1_000 + if milliseconds % 1_000 == 0 {
        0
    } else {
        1
    };
    assert(total == seconds_rounded_up(milliseconds));
    let hours = total / 3_600;
    let minutes = (total % 3_600) / 60;
    let seconds = total % 60;
    let mut out = String::new();
    if hours > 0 {
        push_decimal(&mut out, hours);
        push_char(&mut out, ':');
        push_pad2(&mut out, minutes);
        push_char(&mut out, ':');
        push_pad2(&mut out, seconds);
    } else {
        push_decimal(&mut out, minutes);
        push_char(&mut out, ':');
        push_pad2(&mut out, seconds);
    }
    proof {
        assert(out@ =~= spec_format_duration(milliseconds));
    }
    out
}

/// A time left as the GTK window shows it: `1h 01m 01s`, `10m 00s` or `9s`, counting
/// started seconds as whole ones (near `u64::MAX` the rounding stops at `u64::MAX`).
pub open spec fn spec_format_remaining_time(ms: u64) -> Seq<char> {
    let total = (sat_add(ms, 999) / 1000) as nat;
    let hours = total / 3600;
    let minutes = (total % 3600) / 60;
    let seconds = total % 60;
    if hours > 0 {
        decimal(hours) + seq!['h', ' '] + pad2(minutes) + seq!['m', ' '] + pad2(seconds) + seq![
            's',
        ]
    } else if minutes > 0 {
        decimal(minutes) + seq!['m', ' '] + pad2(seconds) + seq!['s']
    } else {
        decimal(seconds) + seq!['s']
    }
}

/// Formats the time left of a run for the GTK window.
pub fn format_remaining_time(remaining_ms: u64) -> (r: String)
    ensures
        r@ == spec_format_remaining_time(remaining_ms),
{
    let total_seconds = remaining_ms.saturating_add(999) / 1_000;
    let hours = total_seconds / 3_600;
    let minutes = (total_seconds % 3_600) / 60;
    let seconds = total_seconds % 60;
    let mut out = String::new();
    if hours > 0 {
        push_decimal(&mut out, hours);
        push_char(&mut out, 'h');
        push_char(&mut out, ' ');
        push_pad2(&mut out, minutes);
        push_char(&mut out, 'm');
        push_char(&mut out, ' ');
        push_pad2(&mut out, seconds);
        push_char(&mut out, 's');
    } else if minutes > 0 {
        push_decimal(&mut out, minutes);
        push_char(&mut out, 'm');
        push_char(&mut out, ' ');
        push_pad2(&mut out, seconds);
        push_char(&mut out, 's');
    } else {
        push_decimal(&mut out, seconds);
        push_char(&mut out, 's');
    }
    proof {
        assert(out@ =~= spec_format_remaining_time(remaining_ms));
    }
    out
}

/// The decimal notation of a signed number, with a minus sign below zero.
pub open spec fn signed_decimal(n: int) -> Seq<char> {
    if n < 0 {
        seq!['-'] + decimal((-n) as nat)
    } else {
        decimal(n as nat)
    }
}

/// Appends a signed number in decimal.
pub fn push_signed_decimal(out: &mut String, n: i32)
    ensures
        final(out)@ == old(out)@ + signed_decimal(n as int),
{
    if n < 0 {
        push_char(out, '-');
        let magnitude: u64 = (0 - (n as i64)) as u64;
        push_decimal(out, magnitude);
        proof {
            assert(final(out)@ =~= old(out)@ + signed_decimal(n as int));
        }
    } else {
        push_decimal(out, n as u64);
    }
}

/// Whether a character has Unicode's `White_Space` property, which std's
/// `char::is_whitespace` reports: the controls from tab to carriage return, space,
/// next line, no-break space, the Ogham space mark, the spaces from en quad to hair
/// space, the line and paragraph separators, the narrow no-break space, the medium
/// mathematical space and the ideographic space.
pub open spec fn is_white_space(c: char) -> bool {
    let u = c as u32;
    ||| 0x09 <= u <= 0x0d
    ||| u == 0x20
    ||| u == 0x85
    ||| u == 0xa0
    ||| u == 0x1680
    ||| 0x2000 <= u <= 0x200a
    ||| u == 0x2028
    ||| u == 0x2029
    ||| u == 0x202f
    ||| u == 0x205f
    ||| u == 0x3000
}

/// Whether a character is white space.
fn char_is_whitespace(c: char) -> (r: bool)
    ensures
        r == is_white_space(c),
{
    let u = c as u32;
    (0x09 <= u && u <= 0x0d) || u == 0x20 || u == 0x85 || u == 0xa0 || u == 0x1680 || (0x2000
        <= u && u <= 0x200a) || u == 0x2028 || u == 0x2029 || u == 0x202f || u == 0x205f || u
        == 0x3000
}

/// The first position from `i` on that does not hold white space, else the end.
pub open spec fn first_non_space(s: Seq<char>, i: int) -> int
    decreases s.len() - i,
{
    if i >= s.len() || i < 0 {
        s.len() as int
    } else if !is_white_space(s[i]) {
        i
    } else {
        first_non_space(s, i + 1)
    }
}

/// The end of the text once trailing white space from `end` down is cut off.
pub open spec fn end_non_space(s: Seq<char>, end: int) -> int
    decreases end,
{
    if end <= 0 || end > s.len() {
        0
    } else if !is_white_space(s[end - 1]) {
        end
    } else {
        end_non_space(s, end - 1)
    }
}

/// The text without leading and trailing white space (std's `str::trim`).
pub open spec fn trimmed(s: Seq<char>) -> Seq<char> {
    let start = first_non_space(s, 0);
    let end = end_non_space(s, s.len() as int);
    if start < end {
        s.subrange(start, end)
    } else {
        Seq::empty()
    }
}

proof fn lemma_first_non_space_bounds(s: Seq<char>, i: int)
    requires
        0 <= i <= s.len(),
    ensures
        i <= first_non_space(s, i) <= s.len(),
    decreases s.len() - i,
{
    if i < s.len() && is_white_space(s[i]) {
        lemma_first_non_space_bounds(s, i + 1);
    }
}

proof fn lemma_end_non_space_bounds(s: Seq<char>, end: int)
    requires
        0 <= end <= s.len(),
    ensures
        0 <= end_non_space(s, end) <= end,
    decreases end,
{
    if end > 0 && is_white_space(s[end - 1]) {
        lemma_end_non_space_bounds(s, end - 1);
    }
}

/// The text without leading and trailing white space.
pub fn trim(text: &str) -> (r: String)
    ensures
        r@ == trimmed(text@),
{
    let len = text.unicode_len();
    let mut start: usize = 0;
    while start < len && char_is_whitespace(text.get_char(start))
        invariant
            len == text@.len(),
            start <= len,
            first_non_space(text@, 0) == first_non_space(text@, start as int),
        decreases len - start,
    {
        start = start + 1;
    }
    let mut end: usize = len;
    while end > 0 && char_is_whitespace(text.get_char(end - 1))
        invariant
            len == text@.len(),
            end <= len,
            end_non_space(text@, len as int) == end_non_space(text@, end as int),
        decreases end,
    {
        end = end - 1;
    }
    proof {
        lemma_first_non_space_bounds(text@, 0);
        lemma_end_non_space_bounds(text@, len as int);
    }
    if start < end {
        String::from_str(text.substring_char(start, end))
    } else {
        String::new()
    }
}

/// Whether two texts are the same.
pub fn same_text(a: &str, b: &str) -> (r: bool)
    ensures
        r == (a@ == b@),
{
    let len = a.unicode_len();
    if len != b.unicode_len() {
        return false;
    }
    let mut i: usize = 0;
    while i < len
        invariant
            len == a@.len(),
            len == b@.len(),
            i <= len,
            forall|k: int| 0 <= k < i ==> a@[k] == b@[k],
        decreases len - i,
    {
        if a.get_char(i) != b.get_char(i) {
            return false;
        }
        i = i + 1;
    }
    proof {
        assert(a@ =~= b@);
    }
    true
}

/// The UTF-16 code units of one character: itself below `0x10000`, else a surrogate
/// pair.
pub open spec fn utf16_units(c: char) -> Seq<u16> {
    let v = c as int;
    if v < 0x10000 {
        seq![v as u16]
    } else {
        seq![(0xd800 + (v - 0x10000) / 0x400) as u16, (0xdc00 + (v - 0x10000) % 0x400) as u16]
    }
}

/// The UTF-16 encoding of a text.
pub open spec fn utf16(s: Seq<char>) -> Seq<u16>
    decreases s.len(),
{
    if s.len() == 0 {
        Seq::empty()
    } else {
        utf16(s.drop_last()) + utf16_units(s.last())
    }
}

/// A text in UTF-16 followed by a terminating zero, as Windows' wide-string calls take it.
pub fn to_wide(text: &str) -> (r: Vec<u16>)
    ensures
        r@ == utf16(text@).push(0),
{
    let len = text.unicode_len();
    let mut units: Vec<u16> = Vec::new();
    let mut i: usize = 0;
    while i < len
        invariant
            len == text@.len(),
            i <= len,
            units@ == utf16(text@.take(i as int)),
        decreases len - i,
    {
        let c = text.get_char(i);
        let v = c as u32;
        assert(v as int == c as int);
        if v < 0x10000 {
            units.push(v as u16);
        } else {
            assert(v <= 0x10ffff);
            let offset = v - 0x10000;
            units.push((0xd800 + offset / 0x400) as u16);
            units.push((0xdc00 + offset % 0x400) as u16);
        }
        proof {
            assert(text@.take(i + 1).drop_last() =~= text@.take(i as int));
            assert(text@.take(i + 1).last() == c);
            assert(units@ =~= utf16(text@.take(i + 1)));
        }
        i = i + 1;
    }
    units.push(0);
    proof {
        assert(text@.take(len as int) =~= text@);
    }
    units
}

} // verus!
