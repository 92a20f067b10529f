//! The capture time of a snapshot: a civil date and time, written as
//! `YYYY-MM-DD HH:MM:SS` and taken at two hours east of UTC.

use vstd::prelude::*;

verus! {

/// chrono's account of why a text is no date and time.
#[verifier::external_type_specification]
#[verifier::external_body]
pub struct ExParseError(chrono::ParseError);

/// The civil date and time that chrono's `NaiveDateTime::parse_from_str`
/// reads from `text` under `format`, in milliseconds since
/// 1970-01-01 00:00:00; `None` where it reads none.
pub uninterp spec fn civil_millis(text: Seq<char>, format: Seq<char>) -> Option<i64>;

/// The format of a capture time.
pub const DATE_FORMAT: &'static str = "%Y-%m-%d %H:%M:%S";

/// Seconds east of UTC at which capture times are taken.
pub const OFFSET_SECONDS: i32 = 7200;

/// No civil time that chrono holds lies further from 1970-01-01 00:00:00
/// than this many milliseconds: its dates (`NaiveDate::MIN` to
/// `NaiveDate::MAX`) stay within 262145 years of the year 0, which is
/// fewer than 97 million days of 86400000 milliseconds each.
pub const CIVIL_LIMIT: i64 = 9_000_000_000_000_000;

/// A point in time, together with the offset from UTC of the clock that
/// showed it.
#[derive(Clone, Copy, Debug, PartialEq, Eq, Structural)]
pub struct Timestamp {
    /// Milliseconds since 1970-01-01 00:00:00 UTC.
    pub utc_millis: i64,
    /// Seconds east of UTC of the clock.
    pub offset_seconds: i32,
}

/// Why a capture time could not be read.
#[derive(Debug)]
pub enum DateError {
    /// The text is no date and time of the expected format; the field holds
    /// the parser's own description.
    Unreadable(String),
}

impl Timestamp {
    /// Milliseconds since 1970-01-01 00:00:00 on the clock that showed this
    /// time.
    pub open spec fn civil(self) -> int {
        self.utc_millis + 1000 * self.offset_seconds
    }

    /// The point in time at which a clock `offset_seconds` east of UTC
    /// shows `civil` milliseconds since 1970-01-01 00:00:00.
    pub open spec fn at(civil: int, offset_seconds: i32) -> Option<Timestamp> {
        let utc = civil - 1000 * offset_seconds;
        if i64::MIN <= utc <= i64::MAX {
            Some(Timestamp { utc_millis: utc as i64, offset_seconds })
        } else {
            None
        }
    }

    /// Takes a civil time as shown `offset_seconds` east of UTC. The civil
    /// time is kept as it is: only the point in time depends on the offset.
    pub fn from_civil(civil_millis: i64, offset_seconds: i32) -> (r: Option<Timestamp>)
        ensures
            r == Timestamp::at(civil_millis as int, offset_seconds),
            r matches Some(t) ==> t.civil() == civil_millis && t.offset_seconds == offset_seconds,
    {
        let shift: i64 = 1000 * (offset_seconds as i64);
        match civil_millis.checked_sub(shift) {
            Some(utc) => Some(Timestamp { utc_millis: utc, offset_seconds }),
            None => None,
        }
    }
}

/// Calls chrono's `NaiveDateTime::parse_from_str` and hands back the civil
/// time it read as milliseconds since 1970-01-01 00:00:00, or its error.
/// Trusted: the result is the one that `civil_millis` names, and a civil
/// time that was read lies within `CIVIL_LIMIT`, the range of chrono's dates.
#[verifier::external_body]
fn read_civil(text: &str, format: &str) -> (r: Result<i64, chrono::ParseError>)
    ensures
        match r {
            Ok(millis) => civil_millis(text@, format@) == Some(millis) && -CIVIL_LIMIT <= millis
                <= CIVIL_LIMIT,
            Err(_) => civil_millis(text@, format@) is None,
        },
{
    match chrono::NaiveDateTime::parse_from_str(text, format) {
        Ok(civil) => Ok(civil.and_utc().timestamp_millis()),
        Err(e) => Err(e),
    }
}

/// Calls `to_string` on chrono's `ParseError`. Trusted: nothing is claimed
/// of the text.
#[verifier::external_body]
fn describe(error: &chrono::ParseError) -> String {
    error.to_string()
}

/// Reads a capture time written as `YYYY-MM-DD HH:MM:SS` and takes it at
/// two hours east of UTC: the civil time is kept, and the point in time is
/// two hours before the same reading in UTC. Every text that chrono reads
/// as a date and time of that format gives a capture time.
pub fn deserialize(text: &str) -> (r: Result<Timestamp, DateError>)
    ensures
        match civil_millis(text@, DATE_FORMAT@) {
            Some(millis) => r matches Ok(t) && Timestamp::at(millis as int, OFFSET_SECONDS)
                == Some(t) && t.civil() == millis,
            None => r matches Err(DateError::Unreadable(_)),
        },
{
    match read_civil(text, DATE_FORMAT) {
        Ok(millis) => Ok(Timestamp::from_civil(millis, OFFSET_SECONDS).unwrap()),
        Err(e) => Err(DateError::Unreadable(describe(&e))),
    }
}

} // verus!
