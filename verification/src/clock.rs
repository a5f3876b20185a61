//! The clock and the RFC 3339 text of a point in time, from the `time`
//! crate. Points in time are Unix timestamps: whole seconds since
//! 1970-01-01T00:00:00Z.

use vstd::prelude::*;

verus! {

/// The first second of year 0: 0000-01-01T00:00:00Z.
pub const MIN_TIMESTAMP: i64 = -62167219200;

/// The last second of year 9999: 9999-12-31T23:59:59Z.
pub const MAX_TIMESTAMP: i64 = 253402300799;

/// A timestamp whose calendar year (UTC) lies in 0..=9999: the years that a
/// four-digit RFC 3339 year and an ASN.1 GeneralizedTime can express.
pub open spec fn in_four_digit_years(unix_seconds: int) -> bool {
    MIN_TIMESTAMP <= unix_seconds <= MAX_TIMESTAMP
}

pub open spec fn is_ascii_digit(c: char) -> bool {
    '0' <= c && c <= '9'
}

/// The shape of an RFC 3339 UTC time of whole seconds:
/// `YYYY-MM-DDTHH:MM:SSZ`.
pub open spec fn is_rfc3339_utc(s: Seq<char>) -> bool {
    &&& s.len() == 20
    &&& forall|i: int|
        0 <= i < 19 && i != 4 && i != 7 && i != 10 && i != 13 && i != 16 ==> is_ascii_digit(
            #[trigger] s[i],
        )
    &&& s[4] == '-' && s[7] == '-'
    &&& s[10] == 'T'
    &&& s[13] == ':' && s[16] == ':'
    &&& s[19] == 'Z'
}

/// The RFC 3339 text that `time` writes for a Unix timestamp in the years
/// 0..=9999.
pub uninterp spec fn rfc3339_text(unix_seconds: i64) -> Seq<char>;

/// A reading of the system clock, as a Unix timestamp. Only
/// `now_unix_timestamp` makes one, so a value of this type is a time that the
/// clock showed.
#[derive(Debug, Clone, Copy, PartialEq, Eq, Structural)]
pub struct ClockReading {
    unix_seconds: i64,
}

impl ClockReading {
    /// The Unix timestamp that the clock showed.
    pub closed spec fn spec_seconds(self) -> i64 {
        self.unix_seconds
    }

    /// The Unix timestamp that the clock showed.
    pub fn seconds(&self) -> (t: i64)
        ensures
            t == self.spec_seconds(),
    {
        self.unix_seconds
    }
}

/// Reads the clock: the current time (`time::OffsetDateTime::now_utc`) as a
/// Unix timestamp (`unix_timestamp`). It depends on the clock, so nothing is
/// stated of the time it shows.
#[verifier::external_body]
pub(crate) fn now_unix_timestamp() -> ClockReading {
    ClockReading { unix_seconds: time::OffsetDateTime::now_utc().unix_timestamp() }
}

/// The RFC 3339 text of a Unix timestamp (`time::OffsetDateTime::format`
/// with `Rfc3339`, on `OffsetDateTime::from_unix_timestamp`, which is UTC
/// and has no fraction of a second). `time` writes such a time as
/// `YYYY-MM-DDTHH:MM:SSZ` and refuses a year outside 0..=9999, so there is a
/// text exactly for the timestamps of those years. The digits are named,
/// not stated: `rfc3339_text`.
#[verifier::external_body]
pub(crate) fn format_rfc3339(unix_seconds: i64) -> (res: Option<String>)
    ensures
        res is Some <==> in_four_digit_years(unix_seconds as int),
        res matches Some(text) ==> text@ == rfc3339_text(unix_seconds) && is_rfc3339_utc(text@),
{
    match time::OffsetDateTime::from_unix_timestamp(unix_seconds) {
        Ok(t) => t.format(&time::format_description::well_known::Rfc3339).ok(),
        Err(_) => None,
    }
}

} // verus!
