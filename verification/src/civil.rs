//! Dates and times of day without a time zone, as a calendar and a wall clock
//! show them. Which dates and times there are, and how they are written, is
//! for the `jiff` crate to say.
use crate::error::Error;
use vstd::prelude::*;

verus! {

/// A day of the calendar.
#[derive(Debug, Clone, Copy, PartialEq, Eq, Structural)]
pub struct Date {
    year: i16,
    month: i8,
    day: i8,
}

/// A time of day.
#[derive(Debug, Clone, Copy, PartialEq, Eq, Structural)]
pub struct Time {
    hour: i8,
    minute: i8,
    second: i8,
    subsec_nanosecond: i32,
}

/// A day and a time of day.
#[derive(Debug, Clone, Copy, PartialEq, Eq, Structural)]
pub struct DateTime {
    /// The day.
    pub date: Date,
    /// The time of day.
    pub time: Time,
}

/// Whether a year has a 29th of February.
pub open spec fn is_leap_year(year: int) -> bool {
    year % 4 == 0 && (year % 100 != 0 || year % 400 == 0)
}

/// How many days a month has.
pub open spec fn days_in_month(year: int, month: int) -> int {
    if month == 2 {
        if is_leap_year(year) {
            29
        } else {
            28
        }
    } else if month == 4 || month == 6 || month == 9 || month == 11 {
        30
    } else {
        31
    }
}

/// Whether there is such a day: the year from -9999 to 9999, the month from 1
/// to 12, and the day from 1 to the last of the month.
pub open spec fn is_date(year: i16, month: i8, day: i8) -> bool {
    &&& -9999 <= year <= 9999
    &&& 1 <= month <= 12
    &&& 1 <= day <= days_in_month(year as int, month as int)
}

/// Whether there is such a time of day: the hour up to 23, the minute and the
/// second up to 59, and less than a second in nanoseconds.
pub open spec fn is_time(hour: i8, minute: i8, second: i8, subsec_nanosecond: i32) -> bool {
    &&& 0 <= hour <= 23
    &&& 0 <= minute <= 59
    &&& 0 <= second <= 59
    &&& 0 <= subsec_nanosecond <= 999_999_999
}

/// How `jiff` writes a day.
pub uninterp spec fn date_text(year: i16, month: i8, day: i8) -> Seq<char>;

/// How `jiff` writes a time of day.
pub uninterp spec fn time_text(hour: i8, minute: i8, second: i8, subsec_nanosecond: i32) -> Seq<
    char,
>;

/// How `jiff` writes a day and a time of day.
pub uninterp spec fn datetime_text(date: (i16, i8, i8), time: (i8, i8, i8, i32)) -> Seq<char>;

/// Calls `jiff::civil::Date::new`, which takes the year from -9999 to 9999,
/// the month from 1 to 12 and the day from 1 to the last of the month, and
/// refuses anything else.
#[verifier::external_body]
fn check_date(year: i16, month: i8, day: i8) -> (r: bool)
    ensures
        r == is_date(year, month, day),
{
    jiff::civil::Date::new(year, month, day).is_ok()
}

/// Calls `jiff::civil::Time::new`, which takes the hour up to 23, the minute
/// and the second up to 59 and the nanoseconds below a second, none of them
/// negative, and refuses anything else.
#[verifier::external_body]
fn check_time(hour: i8, minute: i8, second: i8, subsec_nanosecond: i32) -> (r: bool)
    ensures
        r == is_time(hour, minute, second, subsec_nanosecond),
{
    jiff::civil::Time::new(hour, minute, second, subsec_nanosecond).is_ok()
}

/// Calls `to_string` on the `jiff::civil::Date` that `jiff::civil::date`
/// makes of the three numbers.
#[verifier::external_body]
fn write_date(year: i16, month: i8, day: i8) -> (r: String)
    requires
        is_date(year, month, day),
    ensures
        r@ == date_text(year, month, day),
{
    jiff::civil::date(year, month, day).to_string()
}

/// Calls `to_string` on the `jiff::civil::Time` that `jiff::civil::time`
/// makes of the four numbers.
#[verifier::external_body]
fn write_time(hour: i8, minute: i8, second: i8, subsec_nanosecond: i32) -> (r: String)
    requires
        is_time(hour, minute, second, subsec_nanosecond),
    ensures
        r@ == time_text(hour, minute, second, subsec_nanosecond),
{
    jiff::civil::time(hour, minute, second, subsec_nanosecond).to_string()
}

/// Calls `to_string` on the `jiff::civil::DateTime` that
/// `jiff::civil::DateTime::from_parts` makes of a day and a time of day.
#[verifier::external_body]
fn write_datetime(date: (i16, i8, i8), time: (i8, i8, i8, i32)) -> (r: String)
    requires
        is_date(date.0, date.1, date.2),
        is_time(time.0, time.1, time.2, time.3),
    ensures
        r@ == datetime_text(date, time),
{
    jiff::civil::DateTime::from_parts(
        jiff::civil::date(date.0, date.1, date.2),
        jiff::civil::time(time.0, time.1, time.2, time.3),
    ).to_string()
}

impl View for Date {
    type V = (i16, i8, i8);

    /// The year, the month and the day of the month.
    closed spec fn view(&self) -> (i16, i8, i8) {
        (self.year, self.month, self.day)
    }
}

impl View for Time {
    type V = (i8, i8, i8, i32);

    /// The hour, the minute, the second and the part of a second in
    /// nanoseconds.
    closed spec fn view(&self) -> (i8, i8, i8, i32) {
        (self.hour, self.minute, self.second, self.subsec_nanosecond)
    }
}

impl View for DateTime {
    type V = ((i16, i8, i8), (i8, i8, i8, i32));

    open spec fn view(&self) -> ((i16, i8, i8), (i8, i8, i8, i32)) {
        (self.date@, self.time@)
    }
}

/// Two days are the same day exactly if they show the same year, month and
/// day of the month.
pub proof fn lemma_date_view(a: Date, b: Date)
    ensures
        a == b <==> a@ == b@,
{
}

impl Date {
    #[verifier::type_invariant]
    spec fn is_valid(self) -> bool {
        is_date(self.year, self.month, self.day)
    }

    /// How the day is written.
    pub open spec fn text(self) -> Seq<char> {
        date_text(self@.0, self@.1, self@.2)
    }

    /// The day with the given year, month and day of the month, if there is
    /// one.
    pub fn new(year: i16, month: i8, day: i8) -> (r: Result<Date, Error>)
        ensures
            r is Ok <==> is_date(year, month, day),
            r is Ok ==> r->Ok_0@ == (year, month, day),
            r is Err ==> r->Err_0 == Error::RangeError,
    {
        if check_date(year, month, day) {
            Ok(Date { year, month, day })
        } else {
            Err(Error::RangeError)
        }
    }

    /// The year.
    pub fn year(&self) -> (r: i16)
        ensures
            r == self@.0,
            is_date(self@.0, self@.1, self@.2),
    {
        proof {
            use_type_invariant(self);
        }
        self.year
    }

    /// The month.
    pub fn month(&self) -> (r: i8)
        ensures
            r == self@.1,
    {
        self.month
    }

    /// The day of the month.
    pub fn day(&self) -> (r: i8)
        ensures
            r == self@.2,
    {
        self.day
    }

    /// This day at the given time of day, if there is such a time.
    pub fn at(self, hour: i8, minute: i8, second: i8, subsec_nanosecond: i32) -> (r: Result<
        DateTime,
        Error,
    >)
        ensures
            r is Ok <==> is_time(hour, minute, second, subsec_nanosecond),
            r is Ok ==> r->Ok_0@ == (self@, (hour, minute, second, subsec_nanosecond)),
            r is Err ==> r->Err_0 == Error::RangeError,
    {
        match Time::new(hour, minute, second, subsec_nanosecond) {
            Ok(time) => Ok(DateTime { date: self, time }),
            Err(e) => Err(e),
        }
    }

    /// The day, written.
    pub fn to_string(&self) -> (r: String)
        ensures
            r@ == self.text(),
    {
        proof {
            use_type_invariant(self);
        }
        write_date(self.year, self.month, self.day)
    }
}

impl Time {
    #[verifier::type_invariant]
    spec fn is_valid(self) -> bool {
        is_time(self.hour, self.minute, self.second, self.subsec_nanosecond)
    }

    /// How the time of day is written.
    pub open spec fn text(self) -> Seq<char> {
        time_text(self@.0, self@.1, self@.2, self@.3)
    }

    /// The time of day with the given hour, minute, second and part of a
    /// second, if there is one.
    pub fn new(hour: i8, minute: i8, second: i8, subsec_nanosecond: i32) -> (r: Result<
        Time,
        Error,
    >)
        ensures
            r is Ok <==> is_time(hour, minute, second, subsec_nanosecond),
            r is Ok ==> r->Ok_0@ == (hour, minute, second, subsec_nanosecond),
            r is Err ==> r->Err_0 == Error::RangeError,
    {
        if check_time(hour, minute, second, subsec_nanosecond) {
            Ok(Time { hour, minute, second, subsec_nanosecond })
        } else {
            Err(Error::RangeError)
        }
    }

    /// Midnight.
    pub fn midnight() -> (r: Time)
        ensures
            r@ == (0i8, 0i8, 0i8, 0i32),
    {
        Time { hour: 0, minute: 0, second: 0, subsec_nanosecond: 0 }
    }

    /// The hour.
    pub fn hour(&self) -> (r: i8)
        ensures
            r == self@.0,
    {
        self.hour
    }

    /// The minute.
    pub fn minute(&self) -> (r: i8)
        ensures
            r == self@.1,
    {
        self.minute
    }

    /// The time of day, written.
    pub fn to_string(&self) -> (r: String)
        ensures
            r@ == self.text(),
    {
        proof {
            use_type_invariant(self);
        }
        write_time(self.hour, self.minute, self.second, self.subsec_nanosecond)
    }
}

impl Default for Time {
    fn default() -> (r: Self)
        ensures
            r@ == (0i8, 0i8, 0i8, 0i32),
    {
        Time::midnight()
    }
}

impl DateTime {
    /// How the day and the time of day are written.
    pub open spec fn text(self) -> Seq<char> {
        datetime_text(self@.0, self@.1)
    }

    /// The day.
    pub fn date(&self) -> (r: Date)
        ensures
            r == self.date,
    {
        self.date
    }

    /// The time of day.
    pub fn time(&self) -> (r: Time)
        ensures
            r == self.time,
    {
        self.time
    }

    /// The day and the time of day, written.
    pub fn to_string(&self) -> (r: String)
        ensures
            r@ == self.text(),
    {
        proof {
            use_type_invariant(&self.date);
            use_type_invariant(&self.time);
        }
        write_datetime(
            (self.date.year, self.date.month, self.date.day),
            (self.time.hour, self.time.minute, self.time.second, self.time.subsec_nanosecond),
        )
    }
}

} // verus!
