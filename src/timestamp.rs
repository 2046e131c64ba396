//! Wall-clock instants as calendar fields, and their textual stamp.

use vstd::prelude::*;
use crate::text::padded;

verus! {

/// Milliseconds since the Unix epoch that a stamped instant may lie from it.
pub const EPOCH_MS_LIMIT: i64 = 300_000_000_000_000;

/// Whether `year` is a leap year of the proleptic Gregorian calendar.
pub open spec fn is_leap_year(year: int) -> bool {
    (year % 4 == 0 && year % 100 != 0) || year % 400 == 0
}

/// The number of days in `month` (1 to 12) of `year`.
pub open spec fn days_in_month(year: int, month: int) -> int {
    if month == 2 {
        if is_leap_year(year) { 29 } else { 28 }
    } else if month == 4 || month == 6 || month == 9 || month == 11 {
        30
    } else {
        31
    }
}

/// A local wall-clock instant to the second, with its position on the
/// millisecond time line.
#[derive(Clone, Copy, Debug, PartialEq, Eq, Structural)]
pub struct Timestamp {
    pub year: i32,
    pub month: u32,
    pub day: u32,
    pub hour: u32,
    pub minute: u32,
    pub second: u32,
    /// Milliseconds since the Unix epoch.
    pub epoch_ms: i64,
}

impl Timestamp {
    /// A real date of years 0 to 9999 and a time of day, near enough to
    /// the epoch.
    pub open spec fn wf(self) -> bool {
        &&& 0 <= self.year <= 9999
        &&& 1 <= self.month <= 12
        &&& 1 <= self.day <= days_in_month(self.year as int, self.month as int)
        &&& self.hour < 24
        &&& self.minute < 60
        &&& self.second < 60
        &&& -EPOCH_MS_LIMIT <= self.epoch_ms <= EPOCH_MS_LIMIT
    }

    /// The stamp `YYYY-MM-DD_HH-MM-SS` of this instant.
    pub open spec fn stamp(self) -> Seq<char> {
        padded(self.year as nat, 4) + "-"@ + padded(self.month as nat, 2) + "-"@
            + padded(self.day as nat, 2) + "_"@ + padded(self.hour as nat, 2) + "-"@
            + padded(self.minute as nat, 2) + "-"@ + padded(self.second as nat, 2)
    }

    /// Builds an instant from its fields, or `None` where they do not name
    /// one (see `wf`).
    pub fn new(
        year: i32,
        month: u32,
        day: u32,
        hour: u32,
        minute: u32,
        second: u32,
        epoch_ms: i64,
    ) -> (r: Option<Timestamp>)
        ensures
            r matches Some(t) ==> t.wf() && t == (Timestamp {
                year,
                month,
                day,
                hour,
                minute,
                second,
                epoch_ms,
            }),
            r is None ==> !(Timestamp { year, month, day, hour, minute, second, epoch_ms }).wf(),
    {
        let t = Timestamp { year, month, day, hour, minute, second, epoch_ms };
        if year < 0 || year > 9999 || month < 1 || month > 12 || day < 1 {
            return None;
        }
        let leap = (year % 4 == 0 && year % 100 != 0) || year % 400 == 0;
        let month_days: u32 = if month == 2 {
            if leap { 29 } else { 28 }
        } else if month == 4 || month == 6 || month == 9 || month == 11 {
            30
        } else {
            31
        };
        if day > month_days || hour >= 24 || minute >= 60 || second >= 60 {
            return None;
        }
        if epoch_ms < -EPOCH_MS_LIMIT || epoch_ms > EPOCH_MS_LIMIT {
            return None;
        }
        Some(t)
    }

    /// The stamp `YYYY-MM-DD_HH-MM-SS` of this instant.
    pub fn text(&self) -> (r: String)
        requires
            self.wf(),
        ensures
            r@ == self.stamp(),
    {
        chrono_stamp(self).unwrap()
    }

    /// Milliseconds from `start` to this instant (negative where the clock
    /// went back).
    pub fn millis_since(&self, start: &Timestamp) -> (r: i64)
        requires
            self.wf(),
            start.wf(),
        ensures
            r == self.epoch_ms - start.epoch_ms,
    {
        self.epoch_ms - start.epoch_ms
    }
}

/// Relies on chrono's `NaiveDate::from_ymd_opt` and `and_hms_opt` (which
/// accept every real date and time of day) and on its `%Y-%m-%d_%H-%M-%S`
/// format, which writes years 0 to 9999 as four zero-padded digits and
/// the other fields as two.
#[verifier::external_body]
fn chrono_stamp(t: &Timestamp) -> (r: Option<String>)
    ensures
        t.wf() ==> r is Some && r->0@ == t.stamp(),
{
    let date = chrono::NaiveDate::from_ymd_opt(t.year, t.month, t.day)?;
    let instant = date.and_hms_opt(t.hour, t.minute, t.second)?;
    Some(instant.format("%Y-%m-%d_%H-%M-%S").to_string())
}

} // verus!
