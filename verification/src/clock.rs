//! Calendar dates as plain numbers, and the single place where the library
//! reads the wall clock.

use vstd::prelude::*;

verus! {

/// A calendar date held as plain numbers. It keys daily statistics and is
/// compared against the current date to detect day rollover.
#[derive(Clone, Copy, Debug, PartialEq, Eq, Structural)]
pub struct Date {
    pub year: u32,
    pub month: u32,
    pub day: u32,
}

/// The dates the library stores: a four-digit year and the field ranges a
/// calendar produces. (Whether `day` exists in `month` is irrelevant here:
/// a date is only compared and printed, never advanced.)
pub open spec fn valid_date(d: Date) -> bool {
    d.year <= 9999 && 1 <= d.month <= 12 && 1 <= d.day <= 31
}

impl Date {
    /// Builds a date from the given fields, pinning each to its valid range;
    /// fields that are already in range are kept exactly.
    pub fn clamped(year: i32, month: u32, day: u32) -> (d: Date)
        ensures
            valid_date(d),
            0 <= year <= 9999 ==> d.year == year,
            1 <= month <= 12 ==> d.month == month,
            1 <= day <= 31 ==> d.day == day,
    {
        let y: u32 = if year < 0 {
            0
        } else if year > 9999 {
            9999
        } else {
            year as u32
        };
        let m: u32 = if month < 1 {
            1
        } else if month > 12 {
            12
        } else {
            month
        };
        let dd: u32 = if day < 1 {
            1
        } else if day > 31 {
            31
        } else {
            day
        };
        Date { year: y, month: m, day: dd }
    }
}

/// Relies on chrono's `Local::now`, `DateTime::date_naive` and the `Datelike`
/// accessors: `month()` is documented to return 1..=12 and `day()` 1..=31;
/// the year is any `i32` a wall clock can be set to.
#[verifier::external_body]
fn now_parts() -> (r: (i32, u32, u32))
    ensures
        1 <= r.1 <= 12,
        1 <= r.2 <= 31,
{
    let d = chrono::Local::now().date_naive();
    (chrono::Datelike::year(&d), chrono::Datelike::month(&d), chrono::Datelike::day(&d))
}

/// Today's local date. A wall clock can be set to any year at all, so a year
/// outside the stored range is pinned to its nearer end.
pub fn current_date() -> (d: Date)
    ensures
        valid_date(d),
{
    let (y, m, dd) = now_parts();
    Date::clamped(y, m, dd)
}

} // verus!
