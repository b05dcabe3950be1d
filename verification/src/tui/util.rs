//! Text formatting for the terminal front end: durations, local date-times
//! and the chart colour of a day.

use vstd::prelude::*;

use chrono::{Local, TimeZone};

use vstd::string::StrSliceExecFns;

use crate::text::{decimal, decimal_string, digit, push_char, push_two_digits, signed_decimal, two_digits};

verus! {

/// The greatest Unix timestamp whose local date lies before the year 10000
/// in every time zone (two days before its end in UTC).
pub const FOUR_DIGIT_YEAR_LIMIT: i64 = 253_402_128_000;

/// `s` reads like `YYYY-MM-DD HH:MM`: sixteen characters, a dash at 4 and 7,
/// a space at 10, a colon at 13 and decimal digits everywhere else.
pub open spec fn date_time_shaped(s: Seq<char>) -> bool {
    &&& s.len() == 16
    &&& s[4] == '-'
    &&& s[7] == '-'
    &&& s[10] == ' '
    &&& s[13] == ':'
    &&& forall|i: int|
        0 <= i < 16 && i != 4 && i != 7 && i != 10 && i != 13 ==> '0' <= #[trigger] s[i] <= '9'
}

/// chrono: `Local.timestamp_opt(unix_secs, 0)`, the local date-time of a Unix
/// timestamp in the machine's time zone (the single one, or the first of
/// two), written as `%Y-%m-%d %H:%M`; `None` when that instant does not exist
/// locally. A `DateTime` cannot be declared here (its type parameter is bound
/// by chrono's `TimeZone` trait), so the wrapper hands back its text.
/// Stated: `timestamp_opt` gives a single local time for every timestamp that
/// `DateTime::from_timestamp` accepts, which includes every one from 0 to
/// [`FOUR_DIGIT_YEAR_LIMIT`]; a local offset is under a day, so its year is
/// from 1969 to 9999, which `%Y` writes in four digits, and `%m`, `%d`, `%H`
/// and `%M` write two digits each. Which digits depends on the machine's
/// time zone and is not stated.
#[verifier::external_body]
fn local_date_time_text(unix_secs: i64) -> (r: Option<String>)
    ensures
        0 <= unix_secs <= FOUR_DIGIT_YEAR_LIMIT ==> r is Some && date_time_shaped(r->0@),
{
    match Local.timestamp_opt(unix_secs, 0) {
        chrono::LocalResult::Single(dt) => Some(dt.format("%Y-%m-%d %H:%M").to_string()),
        chrono::LocalResult::Ambiguous(dt, _) => Some(dt.format("%Y-%m-%d %H:%M").to_string()),
        chrono::LocalResult::None => None,
    }
}

/// Integer division rounding toward zero, as Rust's `/` does.
pub open spec fn trunc_div(a: int, b: int) -> int {
    if a >= 0 {
        a / b
    } else {
        -((-a) / b)
    }
}

/// The remainder that goes with [`trunc_div`], as Rust's `%` gives it.
pub open spec fn trunc_rem(a: int, b: int) -> int {
    a - b * trunc_div(a, b)
}

/// `secs` as `HH:MM:SS`: hours, minutes of the hour and seconds of the
/// minute, each zero-padded to two characters (negative parts keep their sign).
pub open spec fn duration_text(secs: int) -> Seq<char> {
    two_digits(trunc_div(secs, 3600)) + seq![':'] + two_digits(trunc_div(trunc_rem(secs, 3600), 60))
        + seq![':'] + two_digits(trunc_rem(secs, 60))
}

/// `secs` as `HH:MM:SS`.
pub fn fmt_duration(secs: i64) -> (r: String)
    ensures
        r@ == duration_text(secs as int),
{
    let h = secs / 3600;
    let m = (secs % 3600) / 60;
    let s = secs % 60;
    let mut out = String::new();
    push_two_digits(&mut out, h);
    push_char(&mut out, ':');
    push_two_digits(&mut out, m);
    push_char(&mut out, ':');
    push_two_digits(&mut out, s);
    assert(out@ =~= duration_text(secs as int));
    out
}

/// A non-negative number of seconds under 100 hours is written in exactly
/// eight characters, `HH:MM:SS`, with colons at positions 2 and 5.
pub proof fn lemma_duration_text_shape(secs: int)
    requires
        0 <= secs < 360000,
    ensures
        duration_text(secs).len() == 8,
        duration_text(secs)[2] == ':',
        duration_text(secs)[5] == ':',
{
    let h = secs / 3600;
    let m = (secs % 3600) / 60;
    let s = secs % 60;
    assert(trunc_div(secs, 3600) == h);
    assert(trunc_rem(secs, 3600) == secs % 3600);
    assert(trunc_div(secs % 3600, 60) == m);
    assert(trunc_rem(secs, 60) == s);
    assert(0 <= h < 100 && 0 <= m < 60 && 0 <= s < 60);
    lemma_two_digits_len(h);
    lemma_two_digits_len(m);
    lemma_two_digits_len(s);
}

/// A number from 0 to 99 is written in two characters.
proof fn lemma_two_digits_len(n: int)
    requires
        0 <= n < 100,
    ensures
        two_digits(n).len() == 2,
{
    if n >= 10 {
        assert(decimal(n as nat) == decimal((n / 10) as nat).push(digit((n % 10) as nat)));
        assert(decimal((n / 10) as nat).len() == 1);
    }
}

/// A Unix timestamp as the given local date-time text, or as its decimal
/// number when the local time zone has no such instant (`local` is `None`).
pub fn fmt_datetime_from(unix_secs: i64, local: Option<String>) -> (r: String)
    ensures
        local matches Some(text) ==> r == text,
        local is None ==> r@ == signed_decimal(unix_secs as int),
{
    match local {
        Some(text) => text,
        None => decimal_string(unix_secs),
    }
}

/// A Unix timestamp as a local `YYYY-MM-DD HH:MM`, or as its decimal number
/// when the machine's time zone has no such instant. The digits depend on the
/// machine's time zone; [`fmt_datetime_from`] states what is done with them.
pub fn fmt_datetime(unix_secs: i64) -> (r: String)
    ensures
        0 <= unix_secs <= FOUR_DIGIT_YEAR_LIMIT ==> date_time_shaped(r@),
{
    fmt_datetime_from(unix_secs, local_date_time_text(unix_secs))
}

/// The twelve colours a day's bar can take.
#[derive(Debug, PartialEq, Eq, Structural, Clone, Copy)]
pub enum ChartColor {
    Red,
    Green,
    Yellow,
    Blue,
    Magenta,
    Cyan,
    LightRed,
    LightGreen,
    LightYellow,
    LightBlue,
    LightMagenta,
    LightCyan,
}

/// The palette, in order.
pub open spec fn palette(i: int) -> ChartColor {
    if i == 0 { ChartColor::Red }
    else if i == 1 { ChartColor::Green }
    else if i == 2 { ChartColor::Yellow }
    else if i == 3 { ChartColor::Blue }
    else if i == 4 { ChartColor::Magenta }
    else if i == 5 { ChartColor::Cyan }
    else if i == 6 { ChartColor::LightRed }
    else if i == 7 { ChartColor::LightGreen }
    else if i == 8 { ChartColor::LightYellow }
    else if i == 9 { ChartColor::LightBlue }
    else if i == 10 { ChartColor::LightMagenta }
    else { ChartColor::LightCyan }
}

/// One step of the djb2 hash: `h * 33 + c`, modulo 2^32.
pub open spec fn hash_step(h: u32, c: char) -> u32 {
    ((h as int * 33 + c as int) % 0x1_0000_0000) as u32
}

/// The djb2 hash of `s` (start at 5381, one step per char).
pub open spec fn djb2(s: Seq<char>) -> u32
    decreases s.len(),
{
    if s.len() == 0 {
        5381
    } else {
        hash_step(djb2(s.drop_last()), s.last())
    }
}

fn palette_at(i: u32) -> (r: ChartColor)
    requires
        i < 12,
    ensures
        r == palette(i as int),
{
    match i {
        0 => ChartColor::Red,
        1 => ChartColor::Green,
        2 => ChartColor::Yellow,
        3 => ChartColor::Blue,
        4 => ChartColor::Magenta,
        5 => ChartColor::Cyan,
        6 => ChartColor::LightRed,
        7 => ChartColor::LightGreen,
        8 => ChartColor::LightYellow,
        9 => ChartColor::LightBlue,
        10 => ChartColor::LightMagenta,
        _ => ChartColor::LightCyan,
    }
}

/// A deterministic pseudo-random colour for a seed (such as a day): the
/// palette entry at the seed's djb2 hash modulo the palette's size.
pub fn random_color(seed: &str) -> (r: ChartColor)
    ensures
        r == palette((djb2(seed@) % 12) as int),
{
    let n = seed.unicode_len();
    let mut hash: u32 = 5381;
    let mut i: usize = 0;
    while i < n
        invariant
            i <= n,
            n == seed@.len(),
            hash == djb2(seed@.take(i as int)),
        decreases n - i,
    {
        let c = seed.get_char(i);
        let shifted = hash << 5u32;
        let code = c as u32;
        let mixed = shifted.wrapping_add(hash);
        let next = mixed.wrapping_add(code);
        proof {
            let h = hash;
            assert(next as u64 == (h as u64 * 33 + code as u64) % 0x1_0000_0000) by (bit_vector)
                requires
                    shifted == h << 5u32,
                    mixed as u64 == if shifted as u64 + h as u64 > 0xffff_ffff {
                        (shifted as u64 + h as u64 - 0x1_0000_0000) as u64
                    } else {
                        (shifted as u64 + h as u64) as u64
                    },
                    next as u64 == if mixed as u64 + code as u64 > 0xffff_ffff {
                        (mixed as u64 + code as u64 - 0x1_0000_0000) as u64
                    } else {
                        (mixed as u64 + code as u64) as u64
                    },
            ;
            assert(code as int == c as int);
        }
        hash = next;
        assert(seed@.take(i + 1).drop_last() =~= seed@.take(i as int));
        assert(seed@.take(i + 1).last() == c);
        i = i + 1;
    }
    assert(seed@.take(n as int) =~= seed@);
    palette_at(hash % 12)
}

} // verus!
