//! Delivery times in the 24-hour `HH:MM` form.

use vstd::prelude::*;
use vstd::string::*;

verus! {

/// An ASCII decimal digit.
pub open spec fn is_digit(c: char) -> bool {
    '0' <= c && c <= '9'
}

/// The number that an ASCII decimal digit stands for.
pub open spec fn digit_value(c: char) -> int {
    c as int - '0' as int
}

/// The ASCII digit of a number below ten.
pub open spec fn digit_char(d: int) -> char {
    (d + '0' as int) as char
}

/// The hour that the first two characters of a text name, when they are
/// digits.
pub open spec fn hour_of(s: Seq<char>) -> int {
    10 * digit_value(s[0]) + digit_value(s[1])
}

/// The minute that the fourth and fifth character of a text name, when
/// they are digits.
pub open spec fn minute_of(s: Seq<char>) -> int {
    10 * digit_value(s[3]) + digit_value(s[4])
}

/// A time of day written as two digits, a colon and two digits, with the
/// hour below 24 and the minute below 60.
pub open spec fn valid_time(s: Seq<char>) -> bool {
    &&& s.len() == 5
    &&& is_digit(s[0])
    &&& is_digit(s[1])
    &&& s[2] == ':'
    &&& is_digit(s[3])
    &&& is_digit(s[4])
    &&& hour_of(s) < 24
    &&& minute_of(s) < 60
}

/// The `HH:MM` text of an hour and a minute.
pub open spec fn hhmm(hour: int, minute: int) -> Seq<char> {
    seq![
        digit_char(hour / 10),
        digit_char(hour % 10),
        ':',
        digit_char(minute / 10),
        digit_char(minute % 10),
    ]
}

fn digit_of(c: char) -> (d: Option<u32>)
    ensures
        d is Some <==> is_digit(c),
        d matches Some(v) ==> v == digit_value(c) && v < 10,
{
    if '0' <= c && c <= '9' {
        Some(c as u32 - '0' as u32)
    } else {
        None
    }
}

/// Whether `time` is a valid delivery time: exactly two digits, a colon and
/// two digits, the hour below 24 and the minute below 60. Every other text
/// is refused, a single-digit hour and surrounding whitespace among them.
pub fn is_valid_time_format(time: &str) -> (ok: bool)
    ensures
        ok == valid_time(time@),
{
    if time.unicode_len() != 5 {
        return false;
    }
    let h1 = digit_of(time.get_char(0));
    let h2 = digit_of(time.get_char(1));
    let colon = time.get_char(2);
    let m1 = digit_of(time.get_char(3));
    let m2 = digit_of(time.get_char(4));
    match (h1, h2, m1, m2) {
        (Some(a), Some(b), Some(c), Some(d)) => colon == ':' && 10 * a + b < 24 && 10 * c + d < 60,
        _ => false,
    }
}

/// The `HH:MM` text of a time of day is a valid delivery time.
pub proof fn lemma_hhmm_is_valid(hour: int, minute: int)
    requires
        0 <= hour < 24,
        0 <= minute < 60,
    ensures
        valid_time(hhmm(hour, minute)),
{
}

/// The valid delivery times are the `HH:MM` texts of the hours below 24
/// and the minutes below 60, and no other text is valid.
pub proof fn law_valid_times_are_clock_texts(s: Seq<char>)
    ensures
        valid_time(s) <==> exists|h: int, m: int|
            0 <= h < 24 && 0 <= m < 60 && s == #[trigger] hhmm(h, m),
{
    if valid_time(s) {
        let h = hour_of(s);
        let m = minute_of(s);
        assert(s =~= hhmm(h, m));
    }
    if exists|h: int, m: int| 0 <= h < 24 && 0 <= m < 60 && s == #[trigger] hhmm(h, m) {
        let (h, m) = choose|h: int, m: int| 0 <= h < 24 && 0 <= m < 60 && s == #[trigger] hhmm(h, m);
        lemma_hhmm_is_valid(h, m);
    }
}

/// Two times of day have the same `HH:MM` text only when they are the same
/// time: a delivery time matches the clock in one minute of the day.
pub proof fn law_one_text_per_time(h1: int, m1: int, h2: int, m2: int)
    requires
        0 <= h1 < 24,
        0 <= m1 < 60,
        0 <= h2 < 24,
        0 <= m2 < 60,
        hhmm(h1, m1) == hhmm(h2, m2),
    ensures
        h1 == h2,
        m1 == m2,
{
    let a = hhmm(h1, m1);
    let b = hhmm(h2, m2);
    assert(a[0] == b[0]);
    assert(a[1] == b[1]);
    assert(a[3] == b[3]);
    assert(a[4] == b[4]);
}

} // verus!
