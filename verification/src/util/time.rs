use vstd::prelude::*;

verus! {

use super::error::Error;

/// The canonical RFC 3339 rendering, in UTC, of a whole-second Unix timestamp.
pub uninterp spec fn rfc3339_of(t: int) -> Seq<char>;

/// The Unix timestamp (whole seconds) an RFC 3339 string denotes, or `None`
/// where the string is not a well-formed RFC 3339 timestamp.
pub uninterp spec fn rfc3339_parse_of(s: Seq<char>) -> Option<int>;

/// The timestamps `time` can format as RFC 3339: years 0000 through 9999.
pub open spec fn rfc3339_representable(t: int) -> bool {
    -62167219200 <= t <= 253402300799
}

/// Relies on time's `OffsetDateTime::now_utc`: the clock reading, as whole
/// seconds since the Unix epoch. Nothing is assumed of the value.
#[verifier::external_body]
pub fn now_utc() -> i64 {
    time::OffsetDateTime::now_utc().unix_timestamp()
}

/// Formats a Unix timestamp as an RFC 3339 UTC string.
///
/// Relies on time's `OffsetDateTime::from_unix_timestamp` and the `Rfc3339`
/// well-known format: formatting succeeds exactly for timestamps in years
/// 0000 through 9999, is a deterministic function of the timestamp, and the
/// rendered string parses back to the same timestamp.
#[verifier::external_body]
pub fn utc_time_to_str(t: i64) -> (r: Result<String, Error>)
    ensures
        r is Ok <==> rfc3339_representable(t as int),
        r is Ok ==> r->Ok_0@ == rfc3339_of(t as int),
        r is Ok ==> rfc3339_parse_of(r->Ok_0@) == Some(t as int),
        r is Err ==> r->Err_0 == Error::TimeError,
{
    let moment = match time::OffsetDateTime::from_unix_timestamp(t) {
        Ok(m) => m,
        Err(_) => return Err(Error::TimeError),
    };
    match moment.format(&time::format_description::well_known::Rfc3339) {
        Ok(formatted) => Ok(formatted),
        Err(_) => Err(Error::TimeError),
    }
}

/// Parses an RFC 3339 timestamp down to whole seconds since the Unix epoch.
///
/// Relies on time's `OffsetDateTime::parse` with the `Rfc3339` well-known
/// format: parsing is a deterministic function of the input string alone.
#[verifier::external_body]
pub fn parse_utc(moment: &str) -> (r: Result<i64, Error>)
    ensures
        r is Ok <==> rfc3339_parse_of(moment@) is Some,
        r is Ok ==> rfc3339_parse_of(moment@) == Some(r->Ok_0 as int),
        r is Err ==> r->Err_0 == Error::TimeError,
{
    let parsed = match time::OffsetDateTime::parse(
        moment,
        &time::format_description::well_known::Rfc3339,
    ) {
        Ok(m) => m,
        Err(_) => return Err(Error::TimeError),
    };
    Ok(parsed.unix_timestamp())
}

/// `now + sec`, formatted as RFC 3339; fails where the sum overflows or falls
/// outside the formattable range.
pub fn plus_sec_str(now: i64, sec: u64) -> (r: Result<String, Error>)
    ensures
        r is Ok <==> rfc3339_representable(now + sec),
        r is Ok ==> r->Ok_0@ == rfc3339_of(now + sec),
        r is Ok ==> rfc3339_parse_of(r->Ok_0@) == Some((now + sec) as int),
        r is Err ==> r->Err_0 == Error::TimeError,
{
    let wide: i128 = now as i128 + sec as i128;
    if wide > 253402300799i128 || wide < -62167219200i128 {
        Err(Error::TimeError)
    } else {
        utc_time_to_str(wide as i64)
    }
}

/// The current clock reading plus `sec` seconds, formatted as RFC 3339.
pub fn now_utc_plus_sec_str(sec: u64) -> (r: Result<String, Error>)
    ensures
        r is Ok ==> rfc3339_parse_of(r->Ok_0@) is Some,
        r is Err ==> r->Err_0 == Error::TimeError,
{
    let now: i64 = now_utc();
    plus_sec_str(now, sec)
}

} // verus!
