//! Calendar days as chrono numbers them, and the few calendar steps the
//! planner needs from chrono.

use chrono::{Datelike, NaiveDate};
use vstd::prelude::*;

verus! {

/// Day number of chrono's first representable date (January 1, 262144 BCE).
pub const MIN_DAY: i32 = -95_746_129;

/// Day number of chrono's last representable date (December 31, 262142 CE).
pub const MAX_DAY: i32 = 95_745_399;

/// A calendar day, counted as chrono counts days of the proleptic Gregorian
/// calendar: January 1 of year 1 is day 1, December 31 of year 0 is day 0.
#[derive(Clone, Copy, Debug, PartialEq, Eq, Structural)]
pub struct Date {
    pub days: i32,
}

impl View for Date {
    type V = int;

    open spec fn view(&self) -> int {
        self.days as int
    }
}

/// The days of the week, Monday first.
#[derive(Clone, Copy, Debug, PartialEq, Eq, Structural)]
pub enum Weekday {
    Monday,
    Tuesday,
    Wednesday,
    Thursday,
    Friday,
    Saturday,
    Sunday,
}

/// The weekday of a day number: day 1 (January 1 of year 1) is a Monday,
/// and the week repeats every seven days in both directions.
pub open spec fn weekday_of(days: int) -> Weekday {
    let k = (days - 1) % 7;
    if k == 0 {
        Weekday::Monday
    } else if k == 1 {
        Weekday::Tuesday
    } else if k == 2 {
        Weekday::Wednesday
    } else if k == 3 {
        Weekday::Thursday
    } else if k == 4 {
        Weekday::Friday
    } else if k == 5 {
        Weekday::Saturday
    } else {
        Weekday::Sunday
    }
}

/// The Portuguese name of a weekday.
pub open spec fn weekday_name(w: Weekday) -> Seq<char> {
    match w {
        Weekday::Monday => "segunda-feira"@,
        Weekday::Tuesday => "terça-feira"@,
        Weekday::Wednesday => "quarta-feira"@,
        Weekday::Thursday => "quinta-feira"@,
        Weekday::Friday => "sexta-feira"@,
        Weekday::Saturday => "sábado"@,
        Weekday::Sunday => "domingo"@,
    }
}

/// chrono's `NaiveDate::succ_opt`, applied to the date whose day number is
/// `days` (the date is built with `NaiveDate::from_num_days_from_ce_opt` and
/// read back with `Datelike::num_days_from_ce`). chrono documents that the
/// successor is the next calendar day and that there is none after its last
/// representable date.
#[verifier::external_body]
fn chrono_succ(days: i32) -> (r: Option<i32>)
    requires
        MIN_DAY <= days <= MAX_DAY,
    ensures
        r == (if days < MAX_DAY { Some((days + 1) as i32) } else { None::<i32> }),
{
    let date = NaiveDate::from_num_days_from_ce_opt(days)?;
    let next = date.succ_opt()?;
    Some(next.num_days_from_ce())
}

/// chrono's `NaiveDate::pred_opt`, applied to the date whose day number is
/// `days`. chrono documents that the predecessor is the previous calendar day
/// and that there is none before its first representable date.
#[verifier::external_body]
fn chrono_pred(days: i32) -> (r: Option<i32>)
    requires
        MIN_DAY <= days <= MAX_DAY,
    ensures
        r == (if days > MIN_DAY { Some((days - 1) as i32) } else { None::<i32> }),
{
    let date = NaiveDate::from_num_days_from_ce_opt(days)?;
    let prev = date.pred_opt()?;
    Some(prev.num_days_from_ce())
}

/// chrono's `Datelike::weekday`, applied to the date whose day number is
/// `days`, with chrono's `Weekday` variants mapped one for one. In the
/// proleptic Gregorian calendar that chrono uses, day 1 is a Monday.
#[verifier::external_body]
fn chrono_weekday(days: i32) -> (r: Option<Weekday>)
    requires
        MIN_DAY <= days <= MAX_DAY,
    ensures
        r == Some(weekday_of(days as int)),
{
    let date = NaiveDate::from_num_days_from_ce_opt(days)?;
    Some(
        match date.weekday() {
            chrono::Weekday::Mon => Weekday::Monday,
            chrono::Weekday::Tue => Weekday::Tuesday,
            chrono::Weekday::Wed => Weekday::Wednesday,
            chrono::Weekday::Thu => Weekday::Thursday,
            chrono::Weekday::Fri => Weekday::Friday,
            chrono::Weekday::Sat => Weekday::Saturday,
            chrono::Weekday::Sun => Weekday::Sunday,
        },
    )
}

/// The day after `d`, or `d` itself when it is the last day chrono can
/// represent.
pub open spec fn day_after(d: Date) -> Date {
    if d.days < MAX_DAY {
        Date { days: (d.days + 1) as i32 }
    } else {
        d
    }
}

/// The day before `d`, or `d` itself when it is the first day chrono can
/// represent.
pub open spec fn day_before(d: Date) -> Date {
    if d.days > MIN_DAY {
        Date { days: (d.days - 1) as i32 }
    } else {
        d
    }
}

impl Date {
    /// A day that chrono can represent.
    pub open spec fn valid(self) -> bool {
        MIN_DAY <= self.days <= MAX_DAY
    }

    /// The day with the given number, if chrono can represent it.
    pub fn from_days(days: i32) -> (r: Option<Date>)
        ensures
            r == (if MIN_DAY <= days <= MAX_DAY { Some(Date { days }) } else { None::<Date> }),
    {
        if MIN_DAY <= days && days <= MAX_DAY {
            Some(Date { days })
        } else {
            None
        }
    }

    /// The day number.
    pub fn days(self) -> (r: i32)
        ensures
            r == self.days,
    {
        self.days
    }

    /// The next day, unless this is the last day chrono can represent.
    pub fn succ(self) -> (r: Option<Date>)
        requires
            self.valid(),
        ensures
            r == (if self.days < MAX_DAY {
                Some(Date { days: (self.days + 1) as i32 })
            } else {
                None::<Date>
            }),
            r matches Some(d) ==> d.valid(),
    {
        match chrono_succ(self.days) {
            Some(n) => Some(Date { days: n }),
            None => None,
        }
    }

    /// The previous day, unless this is the first day chrono can represent.
    pub fn pred(self) -> (r: Option<Date>)
        requires
            self.valid(),
        ensures
            r == (if self.days > MIN_DAY {
                Some(Date { days: (self.days - 1) as i32 })
            } else {
                None::<Date>
            }),
            r matches Some(d) ==> d.valid(),
    {
        match chrono_pred(self.days) {
            Some(n) => Some(Date { days: n }),
            None => None,
        }
    }

    /// The day of the week.
    pub fn weekday(self) -> (r: Weekday)
        requires
            self.valid(),
        ensures
            r == weekday_of(self@),
    {
        match chrono_weekday(self.days) {
            Some(w) => w,
            None => Weekday::Monday,
        }
    }
}

/// The Portuguese name of the day's weekday, as the date header shows it.
pub fn weekday_pt(date: Date) -> (r: &'static str)
    requires
        date.valid(),
    ensures
        r@ == weekday_name(weekday_of(date@)),
{
    match date.weekday() {
        Weekday::Monday => "segunda-feira",
        Weekday::Tuesday => "terça-feira",
        Weekday::Wednesday => "quarta-feira",
        Weekday::Thursday => "quinta-feira",
        Weekday::Friday => "sexta-feira",
        Weekday::Saturday => "sábado",
        Weekday::Sunday => "domingo",
    }
}

} // verus!
