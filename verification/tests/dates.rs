use spreadsheet::civil::{Date, DateTime, Time};
use spreadsheet::error::Error;
use spreadsheet::utils::{datetime, hm12, hm24, mdy};

#[test]
fn dates_of_the_calendar() {
    let date = Date::new(2024, 2, 29).unwrap();
    assert_eq!((date.year(), date.month(), date.day()), (2024, 2, 29));
    assert_eq!(Date::new(2023, 2, 29), Err(Error::RangeError));
    assert_eq!(Date::new(1900, 2, 29), Err(Error::RangeError));
    assert!(Date::new(2000, 2, 29).is_ok());
    assert!(Date::new(-4, 2, 29).is_ok());
    assert_eq!(Date::new(2024, 13, 1), Err(Error::RangeError));
    assert_eq!(Date::new(2024, 0, 1), Err(Error::RangeError));
    assert_eq!(Date::new(2024, 4, 31), Err(Error::RangeError));
    assert!(Date::new(2024, 4, 30).is_ok());
    assert_eq!(Date::new(2024, 1, 0), Err(Error::RangeError));
    assert!(Date::new(9999, 12, 31).is_ok());
    assert_eq!(Date::new(10000, 1, 1), Err(Error::RangeError));
    assert!(Date::new(-9999, 1, 1).is_ok());
    assert_eq!(Date::new(-10000, 1, 1), Err(Error::RangeError));
}

#[test]
fn dates_agree_with_jiff() {
    for year in [-9999i16, -1, 0, 1, 1900, 2000, 2023, 2024, 2100, 9999] {
        for month in -1i8..=14 {
            for day in -1i8..=33 {
                assert_eq!(
                    Date::new(year, month, day).is_ok(),
                    jiff::civil::Date::new(year, month, day).is_ok(),
                    "{year}-{month}-{day}"
                );
            }
        }
    }
}

#[test]
fn times_of_day() {
    let time = Time::new(21, 30, 5, 123_456_789).unwrap();
    assert_eq!((time.hour(), time.minute()), (21, 30));
    assert_eq!(Time::new(24, 0, 0, 0), Err(Error::RangeError));
    assert_eq!(Time::new(21, 60, 0, 0), Err(Error::RangeError));
    assert_eq!(Time::new(21, 30, 60, 0), Err(Error::RangeError));
    assert_eq!(Time::new(21, 30, 0, 1_000_000_000), Err(Error::RangeError));
    assert_eq!(Time::new(-1, 0, 0, 0), Err(Error::RangeError));
    assert_eq!(Time::new(0, 0, 0, -1), Err(Error::RangeError));
    assert_eq!(Time::midnight(), Time::new(0, 0, 0, 0).unwrap());
    assert_eq!(Time::default(), Time::midnight());
}

#[test]
fn dates_and_times_are_written_as_jiff_writes_them() {
    let date = Date::new(2024, 3, 5).unwrap();
    assert_eq!(date.to_string(), "2024-03-05");
    assert_eq!(date.to_string(), jiff::civil::date(2024, 3, 5).to_string());
    let time = Time::new(7, 5, 0, 0).unwrap();
    assert_eq!(time.to_string(), "07:05:00");
    let moment = date.at(14, 30, 0, 0).unwrap();
    assert_eq!(moment.to_string(), "2024-03-05T14:30:00");
    assert_eq!(moment.date(), date);
    assert_eq!(moment.time(), Time::new(14, 30, 0, 0).unwrap());
    assert_eq!(date.at(25, 0, 0, 0), Err(Error::RangeError));
}

#[test]
fn month_day_year() {
    let (rest, date) = mdy("3/15/2024 14:30").unwrap();
    assert_eq!(rest, " 14:30");
    assert_eq!(date, Date::new(2024, 3, 15).unwrap());
    let (rest, date) = mdy("  \t12/31/1999").unwrap();
    assert_eq!(rest, "");
    assert_eq!(date, Date::new(1999, 12, 31).unwrap());
    assert_eq!(mdy("03/05/0007x").unwrap(), ("x", Date::new(7, 3, 5).unwrap()));
    assert_eq!(mdy(""), Err(Error::ParseError));
    assert_eq!(mdy("3-15-2024"), Err(Error::ParseError));
    assert_eq!(mdy("3/15"), Err(Error::ParseError));
    assert_eq!(mdy("a/15/2024"), Err(Error::ParseError));
    assert_eq!(mdy("300/15/2024"), Err(Error::ParseError));
    assert_eq!(mdy("3/15/40000"), Err(Error::ParseError));
    assert_eq!(mdy("2/30/2024"), Err(Error::RangeError));
    assert_eq!(mdy("13/1/2024"), Err(Error::RangeError));
}

#[test]
fn hours_and_minutes_of_the_twenty_four_hour_clock() {
    assert_eq!(hm24("14:30"), Ok(("", (14, 30))));
    assert_eq!(hm24(" 7:05 rest"), Ok((" rest", (7, 5))));
    assert_eq!(hm24("99:99"), Ok(("", (99, 99))));
    assert_eq!(hm24("14.30"), Err(Error::ParseError));
    assert_eq!(hm24("14:"), Err(Error::ParseError));
    assert_eq!(hm24(":30"), Err(Error::ParseError));
    assert_eq!(hm24("200:30"), Err(Error::ParseError));
}

#[test]
fn hours_and_minutes_of_the_twelve_hour_clock() {
    assert_eq!(hm12("2:30PM"), Ok(("", Time::new(14, 30, 0, 0).unwrap())));
    assert_eq!(hm12("2:30AM"), Ok(("", Time::new(2, 30, 0, 0).unwrap())));
    assert_eq!(hm12("12:15PM"), Ok(("", Time::new(12, 15, 0, 0).unwrap())));
    assert_eq!(hm12("12:15AM"), Ok(("", Time::new(12, 15, 0, 0).unwrap())));
    assert_eq!(hm12(" 11:59PM tail"), Ok((" tail", Time::new(23, 59, 0, 0).unwrap())));
    assert_eq!(hm12("2:30pm"), Ok(("", Time::new(2, 30, 0, 0).unwrap())));
    assert_eq!(hm12("2:30"), Err(Error::ParseError));
    assert_eq!(hm12("2:30 PM"), Err(Error::ParseError));
    assert_eq!(hm12("13:30PM"), Err(Error::RangeError));
    assert_eq!(hm12("120:30PM"), Err(Error::RangeError));
    assert_eq!(hm12("2:75AM"), Err(Error::RangeError));
}

#[test]
fn date_with_and_without_a_time() {
    let day = Date::new(2024, 3, 15).unwrap();
    assert_eq!(datetime("3/15/2024 14:30"), Ok(("", day.at(14, 30, 0, 0).unwrap())));
    assert_eq!(datetime("3/15/2024"), Ok(("", day.at(0, 0, 0, 0).unwrap())));
    assert_eq!(datetime("3/15/2024 later"), Ok((" later", day.at(0, 0, 0, 0).unwrap())));
    assert_eq!(datetime("3/15/2024 25:00"), Err(Error::RangeError));
    assert_eq!(datetime("15.3.2024"), Err(Error::ParseError));
    assert_eq!(datetime("2/30/2024 10:00"), Err(Error::RangeError));
    let moment: DateTime = datetime("1/2/2003 4:05").unwrap().1;
    assert_eq!(moment.to_string(), "2003-01-02T04:05:00");
}
