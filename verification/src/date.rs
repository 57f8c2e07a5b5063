//! Calendar dates, and the one place where the clock is read.

use vstd::prelude::*;

verus! {

/// A calendar date, held as the three numbers that a file name shows.
#[derive(Clone, Copy, Debug, PartialEq, Eq, Structural)]
pub struct Date {
    /// The day of the month, counted from 1.
    pub day: u32,
    /// The month of the year, counted from 1.
    pub month: u32,
    /// The year; years before the year 1 are zero or negative.
    pub year: i32,
}

impl Date {
    /// Whether day and month lie where a calendar has them: the day from 1
    /// to 31, the month from 1 to 12.
    pub open spec fn in_range(self) -> bool {
        &&& 1 <= self.day <= 31
        &&& 1 <= self.month <= 12
    }
}

/// Reads today's date in the local time zone, through `chrono::Local::now`
/// and the `Datelike` accessors of what it returns.
///
/// Nothing is proved of this function. Its contract states what chrono
/// documents of `Datelike::day` and `Datelike::month`: the first ranges from
/// 1 to 31, the second from 1 to 12. Which date comes back depends on the
/// clock and the time zone of the machine, so nothing more is claimed.
/// chrono panics where the system clock stands before 1970, and where the
/// machine's time zone data yield no local time.
#[verifier::external_body]
pub(crate) fn local_today() -> (today: Date)
    ensures
        today.in_range(),
{
    let now = chrono::Local::now();
    Date {
        day: chrono::Datelike::day(&now),
        month: chrono::Datelike::month(&now),
        year: chrono::Datelike::year(&now),
    }
}

} // verus!
