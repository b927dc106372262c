//! The duration codec: the two textual forms of a duration, `mm:ss` and
//! `hh:mm:ss`, and the number of seconds each stands for.

use vstd::prelude::*;

verus! {

pub const SECS_IN_MIN: u64 = 60;

pub const SECS_IN_HOUR: u64 = 3600;

/// The largest value of an hours field.
pub const MAX_HOURS: u64 = 23;

/// The largest value of a minutes or seconds field.
pub const MAX_SIXTIETH: u64 = 59;

/// The longest duration that has a textual form to parse, `23:59:59`.
pub const MAX_DURATION: u64 = 86_399;

/// `c` is one of the ASCII digits `0` to `9`.
pub open spec fn is_digit(c: char) -> bool {
    '0' <= c && c <= '9'
}

/// The number that the digit `c` stands for.
pub open spec fn digit_value(c: char) -> nat
    recommends
        is_digit(c),
{
    (c as u32 - '0' as u32) as nat
}

/// The digit that stands for `d`.
pub open spec fn digit_char(d: nat) -> char
    recommends
        d < 10,
{
    (d + 48) as u8 as char
}

/// The number that the two digits `hi lo` read as.
pub open spec fn field_value(hi: char, lo: char) -> nat {
    10 * digit_value(hi) + digit_value(lo)
}

/// `hi lo` is a field of two digits whose value is at most `max`.
pub open spec fn is_field(hi: char, lo: char, max: nat) -> bool {
    is_digit(hi) && is_digit(lo) && field_value(hi, lo) <= max
}

/// `text` has the form `mm:ss`, minutes and seconds from `00` to `59`.
pub open spec fn is_mm_ss(text: Seq<char>) -> bool {
    &&& text.len() == 5
    &&& is_field(text[0], text[1], MAX_SIXTIETH as nat)
    &&& text[2] == ':'
    &&& is_field(text[3], text[4], MAX_SIXTIETH as nat)
}

/// `text` has the form `hh:mm:ss`, hours from `00` to `23`, minutes and
/// seconds from `00` to `59`.
pub open spec fn is_hh_mm_ss(text: Seq<char>) -> bool {
    &&& text.len() == 8
    &&& is_field(text[0], text[1], MAX_HOURS as nat)
    &&& text[2] == ':'
    &&& is_field(text[3], text[4], MAX_SIXTIETH as nat)
    &&& text[5] == ':'
    &&& is_field(text[6], text[7], MAX_SIXTIETH as nat)
}

/// The duration in seconds that `text` stands for, if it stands for one.
/// Only the two forms above do; nothing is trimmed, skipped or normalised.
pub open spec fn parse_spec(text: Seq<char>) -> Option<nat> {
    if is_mm_ss(text) {
        Some(60 * field_value(text[0], text[1]) + field_value(text[3], text[4]))
    } else if is_hh_mm_ss(text) {
        Some(
            3600 * field_value(text[0], text[1]) + 60 * field_value(text[3], text[4])
                + field_value(text[6], text[7]),
        )
    } else {
        None
    }
}

/// `r` is what `parse_spec` gives for `text`.
pub open spec fn parses_to(text: Seq<char>, r: Option<u64>) -> bool {
    match r {
        Some(secs) => parse_spec(text) == Some(secs as nat),
        None => parse_spec(text) is None,
    }
}

/// Reads a field of two digits, and refuses one whose value is above `max`.
fn read_field(hi: char, lo: char, max: u64) -> (v: Option<u64>)
    ensures
        v is Some <==> is_field(hi, lo, max as nat),
        v is Some ==> v->0 as nat == field_value(hi, lo),
{
    if '0' <= hi && hi <= '9' && '0' <= lo && lo <= '9' {
        let tens: u64 = (hi as u32 - 48) as u64;
        let units: u64 = (lo as u32 - 48) as u64;
        let value: u64 = 10 * tens + units;
        if value <= max {
            Some(value)
        } else {
            None
        }
    } else {
        None
    }
}

/// Parses the characters of a duration. Succeeds exactly on the forms `mm:ss`
/// and `hh:mm:ss` with every field in range, and then returns the total number
/// of seconds.
pub fn parse_chars(text: &[char]) -> (r: Option<u64>)
    ensures
        parses_to(text@, r),
        text@.len() != 5 && text@.len() != 8 ==> r is None,
        r is Some ==> r->0 <= MAX_DURATION,
{
    let n: usize = text.len();
    if n == 5 {
        if text[2] != ':' {
            return None;
        }
        let minutes = read_field(text[0], text[1], MAX_SIXTIETH);
        let seconds = read_field(text[3], text[4], MAX_SIXTIETH);
        match (minutes, seconds) {
            (Some(m), Some(s)) => Some(SECS_IN_MIN * m + s),
            _ => None,
        }
    } else if n == 8 {
        if text[2] != ':' || text[5] != ':' {
            return None;
        }
        let hours = read_field(text[0], text[1], MAX_HOURS);
        let minutes = read_field(text[3], text[4], MAX_SIXTIETH);
        let seconds = read_field(text[6], text[7], MAX_SIXTIETH);
        match (hours, minutes, seconds) {
            (Some(h), Some(m), Some(s)) => Some(SECS_IN_HOUR * h + SECS_IN_MIN * m + s),
            _ => None,
        }
    } else {
        None
    }
}

/// Parses a duration typed as `mm:ss` or `hh:mm:ss`. Any other text, a field
/// out of range among them, gives `None`.
pub fn parse_duration(duration: &str) -> (r: Option<u64>)
    ensures
        parses_to(duration@, r),
        duration@.len() != 5 && duration@.len() != 8 ==> r is None,
        r is Some ==> r->0 <= MAX_DURATION,
{
    let n: usize = duration.unicode_len();
    if n != 5 && n != 8 {
        return None;
    }
    let mut chars: Vec<char> = Vec::new();
    let mut i: usize = 0;
    while i < n
        invariant
            i <= n,
            n == duration@.len(),
            chars@ == duration@.subrange(0, i as int),
        decreases n - i,
    {
        chars.push(duration.get_char(i));
        i += 1;
    }
    assert(chars@ == duration@);
    parse_chars(chars.as_slice())
}

/// The decimal digits of `n`, most significant first, without leading zeros.
pub open spec fn decimal(n: nat) -> Seq<char>
    decreases n,
{
    if n < 10 {
        seq![digit_char(n)]
    } else {
        decimal(n / 10).push(digit_char(n % 10))
    }
}

/// `n` in decimal, padded with a zero on the left to two digits. A number of
/// three digits or more keeps all of them.
pub open spec fn two_digits(n: nat) -> Seq<char> {
    if n < 10 {
        seq!['0', digit_char(n)]
    } else {
        decimal(n)
    }
}

/// The text `mm:ss` for the given minutes and seconds.
pub open spec fn mm_ss_text(m: nat, s: nat) -> Seq<char> {
    two_digits(m) + seq![':'] + two_digits(s)
}

/// The text `hh:mm:ss` for the given hours, minutes and seconds.
pub open spec fn hh_mm_ss_text(h: nat, m: nat, s: nat) -> Seq<char> {
    two_digits(h) + seq![':'] + two_digits(m) + seq![':'] + two_digits(s)
}

/// The display text of a duration of `total` seconds: `mm:ss` below one hour,
/// `hh:mm:ss` from one hour on.
pub open spec fn format_spec(total: nat) -> Seq<char> {
    let hours = total / 3600;
    let minutes = (total % 3600) / 60;
    let seconds = total % 60;
    if hours == 0 {
        mm_ss_text(minutes, seconds)
    } else {
        hh_mm_ss_text(hours, minutes, seconds)
    }
}

/// Appends the decimal digits of `n` to `out`.
fn push_decimal(out: &mut String, n: u64)
    ensures
        final(out)@ == old(out)@ + decimal(n as nat),
    decreases n,
{
    if n >= 10 {
        push_decimal(out, n / 10);
    }
    let units: u8 = (n % 10) as u8;
    out.push((units + 48) as char);
}

/// Appends `n` to `out`, zero-padded to two digits.
fn push_two_digits(out: &mut String, n: u64)
    ensures
        final(out)@ == old(out)@ + two_digits(n as nat),
{
    if n < 10 {
        out.push('0');
    }
    push_decimal(out, n);
}

/// Formats a number of seconds for display: `mm:ss` when it is less than an
/// hour, `hh:mm:ss` otherwise, each field zero-padded to two digits.
pub fn remain_to_fmt(remain: u64) -> (text: String)
    ensures
        text@ == format_spec(remain as nat),
{
    let hours: u64 = remain / SECS_IN_HOUR;
    let minutes: u64 = (remain % SECS_IN_HOUR) / SECS_IN_MIN;
    let seconds: u64 = remain % SECS_IN_MIN;
    let mut text = String::new();
    if hours != 0 {
        push_two_digits(&mut text, hours);
        text.push(':');
    }
    push_two_digits(&mut text, minutes);
    text.push(':');
    push_two_digits(&mut text, seconds);
    text
}

/// Below one hundred, `two_digits` is the tens digit followed by the units
/// digit.
pub proof fn lemma_two_digits(n: nat)
    requires
        n < 100,
    ensures
        two_digits(n) == seq![digit_char(n / 10), digit_char(n % 10)],
        is_digit(digit_char(n / 10)),
        is_digit(digit_char(n % 10)),
        field_value(digit_char(n / 10), digit_char(n % 10)) == n,
{
    reveal_with_fuel(decimal, 2);
    assert(two_digits(n) =~= seq![digit_char(n / 10), digit_char(n % 10)]);
}

/// A text that is neither five nor eight characters long stands for no
/// duration.
pub proof fn lemma_parse_rejects_other_lengths(text: Seq<char>)
    requires
        text.len() != 5,
        text.len() != 8,
    ensures
        parse_spec(text) is None,
{
}

/// Minutes and seconds from 0 to 59, written `mm:ss`, parse to `60m + s`.
pub proof fn lemma_parse_mm_ss(m: nat, s: nat)
    requires
        m <= 59,
        s <= 59,
    ensures
        parse_spec(mm_ss_text(m, s)) == Some(60 * m + s),
{
    lemma_two_digits(m);
    lemma_two_digits(s);
    let text = mm_ss_text(m, s);
    assert(text =~= seq![
        digit_char(m / 10),
        digit_char(m % 10),
        ':',
        digit_char(s / 10),
        digit_char(s % 10),
    ]);
}

/// Hours from 0 to 23 and minutes and seconds from 0 to 59, written
/// `hh:mm:ss`, parse to `3600h + 60m + s`.
pub proof fn lemma_parse_hh_mm_ss(h: nat, m: nat, s: nat)
    requires
        h <= 23,
        m <= 59,
        s <= 59,
    ensures
        parse_spec(hh_mm_ss_text(h, m, s)) == Some(3600 * h + 60 * m + s),
{
    lemma_two_digits(h);
    lemma_two_digits(m);
    lemma_two_digits(s);
    let text = hh_mm_ss_text(h, m, s);
    assert(text =~= seq![
        digit_char(h / 10),
        digit_char(h % 10),
        ':',
        digit_char(m / 10),
        digit_char(m % 10),
        ':',
        digit_char(s / 10),
        digit_char(s % 10),
    ]);
}

/// Two-digit minutes and seconds of which one is above 59, written `mm:ss`,
/// stand for no duration: a field out of range is refused, not carried over.
pub proof fn lemma_parse_rejects_out_of_range_mm_ss(m: nat, s: nat)
    requires
        m < 100,
        s < 100,
        m > 59 || s > 59,
    ensures
        parse_spec(mm_ss_text(m, s)) is None,
{
    lemma_two_digits(m);
    lemma_two_digits(s);
    let text = mm_ss_text(m, s);
    assert(text =~= seq![
        digit_char(m / 10),
        digit_char(m % 10),
        ':',
        digit_char(s / 10),
        digit_char(s % 10),
    ]);
}

/// Two-digit hours, minutes and seconds of which the hours are above 23 or the
/// minutes or seconds above 59, written `hh:mm:ss`, stand for no duration.
pub proof fn lemma_parse_rejects_out_of_range_hh_mm_ss(h: nat, m: nat, s: nat)
    requires
        h < 100,
        m < 100,
        s < 100,
        h > 23 || m > 59 || s > 59,
    ensures
        parse_spec(hh_mm_ss_text(h, m, s)) is None,
{
    lemma_two_digits(h);
    lemma_two_digits(m);
    lemma_two_digits(s);
    let text = hh_mm_ss_text(h, m, s);
    assert(text =~= seq![
        digit_char(h / 10),
        digit_char(h % 10),
        ':',
        digit_char(m / 10),
        digit_char(m % 10),
        ':',
        digit_char(s / 10),
        digit_char(s % 10),
    ]);
}

/// The display text of a duration of at most `MAX_DURATION` seconds parses
/// back to that duration.
pub proof fn lemma_format_then_parse(total: nat)
    requires
        total <= MAX_DURATION,
    ensures
        parse_spec(format_spec(total)) == Some(total),
{
    let hours = total / 3600;
    let minutes = (total % 3600) / 60;
    let seconds = total % 60;
    if hours == 0 {
        lemma_parse_mm_ss(minutes, seconds);
    } else {
        lemma_parse_hh_mm_ss(hours, minutes, seconds);
    }
}

} // verus!
