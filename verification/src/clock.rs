//! The wall clock, read through chrono.  The parsing logic itself takes the
//! current date and time as explicit arguments, so tests can fix them; these
//! wrappers supply the real values at the library's edge.

use vstd::prelude::*;
use crate::dates::{Date, valid_date, valid_ymd, date_valid};

verus! {

/// Relies on chrono's `Utc::now().date_naive()` with the `Datelike`
/// accessors `year`, `month` and `day`: together they yield a valid
/// calendar date, with the month in 1..=12 and the day in 1..=31.
#[verifier::external_body]
fn today_utc_raw() -> (r: (i64, u32, u32))
    ensures
        1 <= r.1 <= 12,
        1 <= r.2 <= 31,
{
    let d = chrono::Utc::now().date_naive();
    (chrono::Datelike::year(&d) as i64, chrono::Datelike::month(&d), chrono::Datelike::day(&d))
}

/// Relies on chrono's `Utc::now().timestamp_millis()`: the current time as
/// milliseconds since the Unix epoch.  Nothing is assumed of its value.
#[verifier::external_body]
pub fn now_millis() -> i64 {
    chrono::Utc::now().timestamp_millis()
}

/// Turn raw year, month and day numbers into a library date.  Values outside
/// the library's calendar model (years 1..=9998, so a day can always be
/// added) fall back to 2000-01-01.
pub fn date_from_parts(y: i64, m: u32, d: u32) -> (r: Date)
    ensures
        valid_date(r),
        r.year <= 9998,
        1 <= y <= 9998 && valid_ymd(y as int, m as int, d as int) ==> r == (Date {
            year: y as u32,
            month: m as u8,
            day: d as u8,
        }),
{
    if 1 <= y && y <= 9998 && 1 <= m && m <= 12 && 1 <= d && d <= 31 {
        let cand = Date { year: y as u32, month: m as u8, day: d as u8 };
        if date_valid(&cand) {
            return cand;
        }
    }
    Date { year: 2000, month: 1, day: 1 }
}

/// Today's date in UTC, as read from the system clock.
pub fn today() -> (r: Date)
    ensures
        valid_date(r),
        r.year <= 9998,
{
    let (y, m, d) = today_utc_raw();
    date_from_parts(y, m, d)
}

} // verus!
