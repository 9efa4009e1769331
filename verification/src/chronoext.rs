//! Rounding of points in time.
//!
//! A point in time is held as the seconds since 1970-01-01 00:00:00 UTC and
//! the nanoseconds within the second. Whether a point in time lies in the
//! range of the calendar, and what point lies a span before it, is left to
//! `chrono`.

use vstd::prelude::*;

verus! {

/// What `chrono` gives for the point in time that lies `sub_secs` seconds and
/// `sub_nanos` nanoseconds before the point in time at `secs` seconds and
/// `nanos` nanoseconds: its seconds and nanoseconds, or nothing where a point
/// or the span is out of the range that `chrono` can hold.
pub uninterp spec fn datetime_minus(secs: i64, nanos: u32, sub_secs: i64, sub_nanos: u32) -> Option<
    (i64, u32),
>;

/// Calls `chrono::DateTime::checked_sub_signed` on the point in time that
/// `chrono::DateTime::from_timestamp` makes of `secs` and `nanos`, with the
/// span of `sub_secs` seconds and `sub_nanos` nanoseconds. The result is a
/// function of the four numbers.
#[verifier::external_body]
fn datetime_sub(secs: i64, nanos: u32, sub_secs: i64, sub_nanos: u32) -> (r: Option<(i64, u32)>)
    ensures
        r == datetime_minus(secs, nanos, sub_secs, sub_nanos),
{
    let time = chrono::DateTime::from_timestamp(secs, nanos)?;
    let whole = chrono::TimeDelta::try_seconds(sub_secs)?;
    let span = chrono::TimeDelta::nanoseconds(i64::from(sub_nanos)).checked_add(&whole)?;
    let r = time.checked_sub_signed(span)?;
    Some((r.timestamp(), r.timestamp_subsec_nanos()))
}

/// A point in time.
#[derive(Clone, Copy, PartialEq, Eq, Debug, Structural)]
pub struct Timestamp {
    /// The seconds since 1970-01-01 00:00:00 UTC.
    pub secs: i64,
    /// The nanoseconds since the last whole second.
    pub nanos: u32,
}

/// The remainder of `a` by a positive `b`, with the sign of `a`.
pub open spec fn remainder(a: int, b: int) -> int {
    if a >= 0 {
        a % b
    } else {
        -((-a) % b)
    }
}

/// The point in time that `chrono` gives for `parts`, if it gives one.
pub open spec fn timestamp_of(parts: Option<(i64, u32)>) -> Option<Timestamp> {
    match parts {
        Some((secs, nanos)) => Some(Timestamp { secs, nanos }),
        None => None,
    }
}

/// Rounding of a point in time towards 1970-01-01 00:00:00 UTC.
pub trait RoundTime: Sized {
    /// The point in time rounded to a multiple of `seconds` seconds.
    spec fn rounded_to_seconds(self, seconds: u64) -> Option<Self>;

    /// The point in time rounded to a multiple of `millis` milliseconds
    /// within its second.
    spec fn rounded_to_millis(self, millis: u32) -> Option<Self>;

    /// Rounds to a multiple of `seconds` seconds: the nanoseconds are dropped,
    /// and so are the seconds beyond the multiple. A number of seconds that
    /// an `i64` cannot hold only drops the nanoseconds. Nothing is returned
    /// where the range of the calendar is left.
    fn round_to_seconds(self, seconds: u64) -> (r: Option<Self>)
        requires
            seconds != 0,
        ensures
            r == self.rounded_to_seconds(seconds),
    ;

    /// Rounds to a multiple of `millis` milliseconds within the second: the
    /// nanoseconds beyond the multiple are dropped. Nothing is returned for
    /// 1000 milliseconds and more, nor where the range of the calendar is
    /// left.
    fn round_to_millis(self, millis: u32) -> (r: Option<Self>)
        requires
            millis != 0,
        ensures
            r == self.rounded_to_millis(millis),
    ;
}

impl RoundTime for Timestamp {
    open spec fn rounded_to_seconds(self, seconds: u64) -> Option<Self> {
        timestamp_of(
            datetime_minus(
                self.secs,
                self.nanos,
                if seconds <= i64::MAX {
                    remainder(self.secs as int, seconds as int) as i64
                } else {
                    0
                },
                self.nanos,
            ),
        )
    }

    open spec fn rounded_to_millis(self, millis: u32) -> Option<Self> {
        if millis >= 1000 {
            None
        } else {
            timestamp_of(
                datetime_minus(
                    self.secs,
                    self.nanos,
                    0,
                    (self.nanos as int % (1_000_000 * millis)) as u32,
                ),
            )
        }
    }

    fn round_to_seconds(self, seconds: u64) -> (r: Option<Self>) {
        let mut sub_secs: i64 = 0;
        if seconds <= i64::MAX as u64 {
            sub_secs = self.secs % (seconds as i64);
        }
        match datetime_sub(self.secs, self.nanos, sub_secs, self.nanos) {
            Some((secs, nanos)) => Some(Timestamp { secs, nanos }),
            None => None,
        }
    }

    fn round_to_millis(self, millis: u32) -> (r: Option<Self>) {
        let millis_per_second: u32 = 1_000;
        let nanos_per_milli: u64 = 1_000_000;
        if millis >= millis_per_second {
            return None;
        }
        let sub_nanos: u64 = (self.nanos as u64) % (nanos_per_milli * (millis as u64));
        match datetime_sub(self.secs, self.nanos, 0, sub_nanos as u32) {
            Some((secs, nanos)) => Some(Timestamp { secs, nanos }),
            None => None,
        }
    }
}

} // verus!
