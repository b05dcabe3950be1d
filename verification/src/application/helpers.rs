//! Identifiers and the clock, as the use cases get them.

use vstd::prelude::*;

use std::time::{Duration, SystemTime, SystemTimeError};

verus! {

#[verifier::external_type_specification]
#[verifier::external_body]
pub struct ExSystemTime(SystemTime);

#[verifier::external_type_specification]
#[verifier::external_body]
pub struct ExSystemTimeError(SystemTimeError);

/// `c` is a lower-case hexadecimal digit.
pub open spec fn lower_hex_digit(c: char) -> bool {
    ('0' <= c && c <= '9') || ('a' <= c && c <= 'f')
}

/// `s` is the hyphenated lower-case text of a version 4 (random) UUID:
/// thirty-six characters, dashes at 8, 13, 18 and 23, lower-case hex digits
/// elsewhere, the version digit `4` at 14 and an RFC 4122 variant digit
/// (`8`, `9`, `a` or `b`) at 19.
pub open spec fn v4_uuid_text(s: Seq<char>) -> bool {
    &&& s.len() == 36
    &&& s[8] == '-'
    &&& s[13] == '-'
    &&& s[18] == '-'
    &&& s[23] == '-'
    &&& forall|i: int|
        0 <= i < 36 && i != 8 && i != 13 && i != 18 && i != 23 ==> lower_hex_digit(#[trigger] s[i])
    &&& s[14] == '4'
    &&& (s[19] == '8' || s[19] == '9' || s[19] == 'a' || s[19] == 'b')
}

/// A fresh random identifier: `uuid::Uuid::new_v4()` in its hyphenated text
/// form (`to_string` goes through `Display`, `LowerHex` and the hyphenated
/// encoder). Stated: the text has the v4 shape, since `new_v4` fixes the
/// version and variant bits of the random value and the encoder writes 32
/// lower-case hex digits with dashes after the 8th, 12th, 16th and 20th.
/// The random digits are not stated.
#[verifier::external_body]
pub fn generate_uuid() -> (r: String)
    ensures
        v4_uuid_text(r@),
{
    uuid::Uuid::new_v4().to_string()
}

/// `SystemTime::now`: the system clock's current time. Nothing is stated of
/// it: it depends on the machine and the moment.
#[verifier::external_body]
fn system_time_now() -> SystemTime {
    SystemTime::now()
}

/// `SystemTime::duration_since(UNIX_EPOCH)`: the time elapsed since the Unix
/// epoch, or an error when `t` lies before it. The value is not stated: a
/// `SystemTime` is opaque here.
#[verifier::external_body]
fn duration_since_epoch(t: &SystemTime) -> Result<Duration, SystemTimeError> {
    t.duration_since(std::time::UNIX_EPOCH)
}

/// `Duration::as_secs`: the whole seconds of `d`. The value is not stated:
/// a `Duration` is opaque here.
#[verifier::external_body]
pub(crate) fn duration_as_secs(d: &Duration) -> u64 {
    d.as_secs()
}

/// The current Unix time in whole seconds. A clock set before the epoch
/// reads as `0`.
pub fn now_secs() -> u64 {
    match duration_since_epoch(&system_time_now()) {
        Ok(d) => duration_as_secs(&d),
        Err(_) => 0,
    }
}

} // verus!
