//! In-game dates: a calendar of twelve fixed-length months and no leap years.

use vstd::prelude::*;

verus! {

/// A calendar date as year, month (1 to 12) and day of the month.
#[derive(Clone, Copy, Debug, PartialEq, Eq, Structural)]
pub struct GameDate {
    pub year: i16,
    pub month: u8,
    pub day: u8,
}

/// Number of days in a month of the game calendar.
pub open spec fn month_length(month: int) -> int {
    if month == 2 {
        28
    } else if month == 4 || month == 6 || month == 9 || month == 11 {
        30
    } else {
        31
    }
}

/// Offset of the first day of a month within its year, less one.
pub open spec fn month_offset(month: int) -> int {
    if month == 1 {
        -1
    } else if month == 2 {
        30
    } else if month == 3 {
        58
    } else if month == 4 {
        89
    } else if month == 5 {
        119
    } else if month == 6 {
        150
    } else if month == 7 {
        180
    } else if month == 8 {
        211
    } else if month == 9 {
        242
    } else if month == 10 {
        272
    } else if month == 11 {
        303
    } else {
        333
    }
}

impl GameDate {
    /// The date names a day that the calendar has.
    pub open spec fn valid(self) -> bool {
        1 <= self.month <= 12 && 1 <= self.day <= month_length(self.month as int)
    }

    /// The day count that date differences are measured with.
    pub open spec fn day_number(self) -> int {
        let y = self.year as int * 365;
        if y < 0 {
            y - month_offset(self.month as int) - self.day as int
        } else {
            y + month_offset(self.month as int) + self.day as int
        }
    }

    /// Whether the date exists in the game calendar.
    pub fn is_real(&self) -> (r: bool)
        ensures
            r == self.valid(),
    {
        date_exists(self.year, self.month, self.day)
    }
}

/// Relies on `jomini::common::Date::from_ymd_opt`, which accepts a month from
/// 1 to 12 and a day from 1 to that month's fixed length.
#[verifier::external_body]
fn date_exists(year: i16, month: u8, day: u8) -> (r: bool)
    ensures
        r == (GameDate { year, month, day }).valid(),
{
    jomini::common::Date::from_ymd_opt(year, month, day).is_some()
}

/// Relies on `jomini::common::Date::days_until`: the day count of `to` less
/// that of `from`, both built with `Date::from_ymd`.
#[verifier::external_body]
pub(crate) fn days_between(from: &GameDate, to: &GameDate) -> (r: i32)
    requires
        from.valid(),
        to.valid(),
    ensures
        r == to.day_number() - from.day_number(),
{
    let a = jomini::common::Date::from_ymd(from.year, from.month, from.day);
    let b = jomini::common::Date::from_ymd(to.year, to.month, to.day);
    a.days_until(&b)
}

/// The first day of the campaign.
pub fn campaign_start() -> (r: GameDate)
    ensures
        r == (GameDate { year: 1444, month: 11, day: 11 }),
        r.valid(),
{
    GameDate { year: 1444, month: 11, day: 11 }
}

} // verus!
