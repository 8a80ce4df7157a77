//! Screenshot file naming: `screenshot[_all]_<YYYYMMDD_HHMMSS>_<8 hex>.png`.
//!
//! The timestamp comes from the local clock and the suffix from a freshly
//! drawn random value; both reach the library as plain numbers, and the
//! name itself is assembled and proved here, digit by digit.

use vstd::prelude::*;
use vstd::string::*;

use chrono::Datelike;
use chrono::Timelike;

verus! {

/// Which capture produced the file: one monitor, or all of them combined.
#[derive(Debug, Clone, Copy, PartialEq, Eq, Structural)]
pub enum CaptureKind {
    Single,
    All,
}

/// The decimal digit character for d in 0..10.
pub open spec fn digit_of(d: int) -> char {
    if d == 0 {
        '0'
    } else if d == 1 {
        '1'
    } else if d == 2 {
        '2'
    } else if d == 3 {
        '3'
    } else if d == 4 {
        '4'
    } else if d == 5 {
        '5'
    } else if d == 6 {
        '6'
    } else if d == 7 {
        '7'
    } else if d == 8 {
        '8'
    } else {
        '9'
    }
}

/// The lowercase hexadecimal digit character for d in 0..16.
pub open spec fn hex_digit_of(d: int) -> char {
    if d < 10 {
        digit_of(d)
    } else if d == 10 {
        'a'
    } else if d == 11 {
        'b'
    } else if d == 12 {
        'c'
    } else if d == 13 {
        'd'
    } else if d == 14 {
        'e'
    } else {
        'f'
    }
}

/// c is one of '0' to '9'.
pub open spec fn is_dec_digit(c: char) -> bool {
    '0' <= c <= '9'
}

/// c is one of '0' to '9' or 'a' to 'f'.
pub open spec fn is_lower_hex_digit(c: char) -> bool {
    ('0' <= c <= '9') || ('a' <= c <= 'f')
}

/// n rendered as two decimal digits, most significant first.
pub open spec fn dec2_chars(n: int) -> Seq<char> {
    seq![digit_of(n / 10 % 10), digit_of(n % 10)]
}

/// n rendered as four decimal digits, most significant first.
pub open spec fn dec4_chars(n: int) -> Seq<char> {
    seq![
        digit_of(n / 1000 % 10),
        digit_of(n / 100 % 10),
        digit_of(n / 10 % 10),
        digit_of(n % 10),
    ]
}

/// n rendered as eight lowercase hexadecimal digits, most significant first.
pub open spec fn hex8_chars(n: int) -> Seq<char> {
    seq![
        hex_digit_of(n / 0x10000000 % 16),
        hex_digit_of(n / 0x1000000 % 16),
        hex_digit_of(n / 0x100000 % 16),
        hex_digit_of(n / 0x10000 % 16),
        hex_digit_of(n / 0x1000 % 16),
        hex_digit_of(n / 0x100 % 16),
        hex_digit_of(n / 0x10 % 16),
        hex_digit_of(n % 16),
    ]
}

fn digit_str(d: u8) -> (r: &'static str)
    requires
        d < 10,
    ensures
        r@ == seq![digit_of(d as int)],
{
    proof {
        reveal_strlit("0");
        reveal_strlit("1");
        reveal_strlit("2");
        reveal_strlit("3");
        reveal_strlit("4");
        reveal_strlit("5");
        reveal_strlit("6");
        reveal_strlit("7");
        reveal_strlit("8");
        reveal_strlit("9");
    }
    let r = match d {
        0 => "0",
        1 => "1",
        2 => "2",
        3 => "3",
        4 => "4",
        5 => "5",
        6 => "6",
        7 => "7",
        8 => "8",
        _ => "9",
    };
    proof {
        assert(r@ =~= seq![digit_of(d as int)]);
    }
    r
}

fn hex_digit_str(d: u8) -> (r: &'static str)
    requires
        d < 16,
    ensures
        r@ == seq![hex_digit_of(d as int)],
{
    if d < 10 {
        digit_str(d)
    } else {
        proof {
            reveal_strlit("a");
            reveal_strlit("b");
            reveal_strlit("c");
            reveal_strlit("d");
            reveal_strlit("e");
            reveal_strlit("f");
        }
        let r = match d {
            10 => "a",
            11 => "b",
            12 => "c",
            13 => "d",
            14 => "e",
            _ => "f",
        };
        proof {
            assert(r@ =~= seq![hex_digit_of(d as int)]);
        }
        r
    }
}

fn push_dec2(s: &mut String, n: u8)
    requires
        n < 100,
    ensures
        final(s)@ == old(s)@ + dec2_chars(n as int),
{
    s.append(digit_str(n / 10));
    s.append(digit_str(n % 10));
    proof {
        assert(s@ =~= old(s)@ + dec2_chars(n as int));
    }
}

fn push_dec4(s: &mut String, n: u16)
    requires
        n < 10000,
    ensures
        final(s)@ == old(s)@ + dec4_chars(n as int),
{
    s.append(digit_str((n / 1000) as u8));
    s.append(digit_str((n / 100 % 10) as u8));
    s.append(digit_str((n / 10 % 10) as u8));
    s.append(digit_str((n % 10) as u8));
    proof {
        assert(s@ =~= old(s)@ + dec4_chars(n as int));
    }
}

fn push_hex8(s: &mut String, n: u32)
    ensures
        final(s)@ == old(s)@ + hex8_chars(n as int),
{
    s.append(hex_digit_str((n / 0x10000000 % 16) as u8));
    s.append(hex_digit_str((n / 0x1000000 % 16) as u8));
    s.append(hex_digit_str((n / 0x100000 % 16) as u8));
    s.append(hex_digit_str((n / 0x10000 % 16) as u8));
    s.append(hex_digit_str((n / 0x1000 % 16) as u8));
    s.append(hex_digit_str((n / 0x100 % 16) as u8));
    s.append(hex_digit_str((n / 0x10 % 16) as u8));
    s.append(hex_digit_str((n % 16) as u8));
    proof {
        assert(s@ =~= old(s)@ + hex8_chars(n as int));
    }
}

/// A local wall-clock timestamp reduced to plain fields.
#[derive(Debug, Clone, Copy, PartialEq, Eq, Structural)]
pub struct Timestamp {
    pub year: u16,
    pub month: u8,
    pub day: u8,
    pub hour: u8,
    pub minute: u8,
    pub second: u8,
}

impl Timestamp {
    /// Every field fits its place in an 8+6 digit timestamp.
    pub open spec fn wf(self) -> bool {
        &&& self.year < 10000
        &&& 1 <= self.month <= 12
        &&& 1 <= self.day <= 31
        &&& self.hour < 24
        &&& self.minute < 60
        &&& self.second < 60
    }
}

/// Relies on chrono::Local::now and chrono's Datelike/Timelike accessors
/// (year, month, day, hour, minute, second): month is 1 to 12, day 1 to 31,
/// hour 0 to 23, minute and second 0 to 59. The year is unbounded and the
/// whole reading depends on the clock, so nothing more is stated.
#[verifier::external_body]
fn local_now_fields() -> (r: (i32, u32, u32, u32, u32, u32))
    ensures
        1 <= r.1 <= 12,
        1 <= r.2 <= 31,
        r.3 < 24,
        r.4 < 60,
        r.5 < 60,
{
    let t = chrono::Local::now();
    (t.year(), t.month(), t.day(), t.hour(), t.minute(), t.second())
}

/// Relies on uuid::Uuid::new_v4 and Uuid::as_u128: a freshly drawn random
/// value. No two calls need agree, so nothing is stated of the result.
#[verifier::external_body]
fn fresh_random_bits() -> u128 {
    uuid::Uuid::new_v4().as_u128()
}

/// The local wall-clock time, with the year reduced to its last four digits
/// so that every field fits the timestamp's digit budget.
pub fn now_timestamp() -> (r: Timestamp)
    ensures
        r.wf(),
{
    let (year, month, day, hour, minute, second) = local_now_fields();
    let year4 = ((year % 10000) + 10000) % 10000;
    Timestamp {
        year: year4 as u16,
        month: month as u8,
        day: day as u8,
        hour: hour as u8,
        minute: minute as u8,
        second: second as u8,
    }
}

/// A fresh 32-bit random value for the filename suffix.
pub fn fresh_suffix() -> u32 {
    let bits = fresh_random_bits();
    (bits % 0x1_0000_0000) as u32
}

/// The characters of a screenshot's file name for the given capture kind,
/// timestamp fields and random suffix.
pub open spec fn filename_chars(kind: CaptureKind, t: Timestamp, rand: u32) -> Seq<char> {
    let head: Seq<char> = if kind is All {
        "screenshot_all"@
    } else {
        "screenshot"@
    };
    head + "_"@ + dec4_chars(t.year as int) + dec2_chars(t.month as int) + dec2_chars(t.day as int)
        + "_"@ + dec2_chars(t.hour as int) + dec2_chars(t.minute as int) + dec2_chars(
        t.second as int,
    ) + "_"@ + hex8_chars(rand as int) + ".png"@
}

/// s is of the shape `screenshot[_all]_` + 8 decimal digits + `_` + 6
/// decimal digits + `_` + 8 lowercase hexadecimal digits + `.png`.
pub open spec fn matches_screenshot_name(s: Seq<char>) -> bool {
    exists|tagged: bool| matches_screenshot_name_tagged(s, tagged)
}

/// The shape above with the `_all` tag present (tagged) or absent.
pub open spec fn matches_screenshot_name_tagged(s: Seq<char>, tagged: bool) -> bool {
    let head: Seq<char> = if tagged {
        "screenshot_all"@
    } else {
        "screenshot"@
    };
    let l = head.len() as int;
    &&& s.len() == l + 29
    &&& s.subrange(0, l) == head
    &&& s[l] == '_'
    &&& (forall|i: int| l + 1 <= i < l + 9 ==> is_dec_digit(#[trigger] s[i]))
    &&& s[l + 9] == '_'
    &&& (forall|i: int| l + 10 <= i < l + 16 ==> is_dec_digit(#[trigger] s[i]))
    &&& s[l + 16] == '_'
    &&& (forall|i: int| l + 17 <= i < l + 25 ==> is_lower_hex_digit(#[trigger] s[i]))
    &&& s.subrange(l + 25, l + 29) == ".png"@
}

/// A generated file name matches the screenshot name pattern.
pub proof fn lemma_filename_matches_pattern(kind: CaptureKind, t: Timestamp, rand: u32)
    requires
        t.wf(),
    ensures
        matches_screenshot_name(filename_chars(kind, t, rand)),
{
    reveal_strlit("screenshot");
    reveal_strlit("screenshot_all");
    reveal_strlit("_");
    reveal_strlit(".png");
    let s = filename_chars(kind, t, rand);
    let tagged = kind is All;
    let head: Seq<char> = if tagged {
        "screenshot_all"@
    } else {
        "screenshot"@
    };
    let l = head.len() as int;
    assert(s.len() == l + 29);
    assert(s.subrange(0, l) =~= head);
    assert forall|i: int| l + 1 <= i < l + 9 implies is_dec_digit(#[trigger] s[i]) by {
        assert(is_dec_digit(digit_of(t.year as int / 1000 % 10)));
        assert(is_dec_digit(digit_of(t.year as int / 100 % 10)));
        assert(is_dec_digit(digit_of(t.year as int / 10 % 10)));
        assert(is_dec_digit(digit_of(t.year as int % 10)));
        assert(is_dec_digit(digit_of(t.month as int / 10 % 10)));
        assert(is_dec_digit(digit_of(t.month as int % 10)));
        assert(is_dec_digit(digit_of(t.day as int / 10 % 10)));
        assert(is_dec_digit(digit_of(t.day as int % 10)));
    }
    assert forall|i: int| l + 10 <= i < l + 16 implies is_dec_digit(#[trigger] s[i]) by {
        assert(is_dec_digit(digit_of(t.hour as int / 10 % 10)));
        assert(is_dec_digit(digit_of(t.hour as int % 10)));
        assert(is_dec_digit(digit_of(t.minute as int / 10 % 10)));
        assert(is_dec_digit(digit_of(t.minute as int % 10)));
        assert(is_dec_digit(digit_of(t.second as int / 10 % 10)));
        assert(is_dec_digit(digit_of(t.second as int % 10)));
    }
    assert forall|i: int| l + 17 <= i < l + 25 implies is_lower_hex_digit(#[trigger] s[i]) by {
        assert(is_lower_hex_digit(hex_digit_of(rand as int / 0x10000000 % 16)));
        assert(is_lower_hex_digit(hex_digit_of(rand as int / 0x1000000 % 16)));
        assert(is_lower_hex_digit(hex_digit_of(rand as int / 0x100000 % 16)));
        assert(is_lower_hex_digit(hex_digit_of(rand as int / 0x10000 % 16)));
        assert(is_lower_hex_digit(hex_digit_of(rand as int / 0x1000 % 16)));
        assert(is_lower_hex_digit(hex_digit_of(rand as int / 0x100 % 16)));
        assert(is_lower_hex_digit(hex_digit_of(rand as int / 0x10 % 16)));
        assert(is_lower_hex_digit(hex_digit_of(rand as int % 16)));
    }
    assert(s.subrange(l + 25, l + 29) =~= ".png"@);
    assert(matches_screenshot_name_tagged(s, tagged));
}

/// The file name for a capture: `screenshot` with `_all` when the capture
/// combined every monitor, the timestamp, the random suffix, and `.png`.
/// The result matches the screenshot name pattern.
pub fn make_filename(kind: CaptureKind, t: Timestamp, rand: u32) -> (r: String)
    requires
        t.wf(),
    ensures
        r@ == filename_chars(kind, t, rand),
        matches_screenshot_name(r@),
{
    let mut name = String::new();
    match kind {
        CaptureKind::All => name.append("screenshot_all"),
        CaptureKind::Single => name.append("screenshot"),
    }
    name.append("_");
    push_dec4(&mut name, t.year);
    push_dec2(&mut name, t.month);
    push_dec2(&mut name, t.day);
    name.append("_");
    push_dec2(&mut name, t.hour);
    push_dec2(&mut name, t.minute);
    push_dec2(&mut name, t.second);
    name.append("_");
    push_hex8(&mut name, rand);
    name.append(".png");
    proof {
        assert(name@ =~= filename_chars(kind, t, rand));
        lemma_filename_matches_pattern(kind, t, rand);
    }
    name
}

} // verus!
