//! What several kinds of record have in common.
use crate::analytic::{AnyGeometry, GeometryView};
use crate::civil::{is_date, is_time, Date, DateTime, Time};
use crate::convert::{coord_of, lines_of, Convert};
use crate::error::Error;
use crate::legacy;
use crate::parse::{
    many0, many1, number, number_i16, number_i8, run, starts_with, tag, Class,
};
use crate::record::{number_of, text_of, FieldValue, Record};
use crate::text::same;
use vstd::prelude::*;

verus! {

/// The text of a field of an ArcGIS table: none where the field is empty or
/// holds the text `<Null>`.
pub open spec fn arcgis_text(field: Option<Seq<char>>) -> Option<Seq<char>> {
    match field {
        None => None,
        Some(text) => if text == "<Null>"@ {
            None
        } else {
            Some(text)
        },
    }
}

/// The text of a field of an ArcGIS table: none where the field is empty or
/// holds the text `<Null>`.
pub fn deserialize_arcgis_data(intermediate: Option<&str>) -> (r: Option<String>)
    ensures
        match r {
            Some(text) => arcgis_text(
                match intermediate {
                    Some(field) => Some(field@),
                    None => None,
                },
            ) == Some(text@),
            None => arcgis_text(
                match intermediate {
                    Some(field) => Some(field@),
                    None => None,
                },
            ) is None,
        },
{
    match intermediate {
        None => None,
        Some(text) => {
            if same(text, "<Null>") {
                None
            } else {
                Some(text.to_owned())
            }
        },
    }
}

/// A date written as month, day and year with a stroke between them, blanks
/// before it allowed: the rest of the text, the year, the month and the day.
pub open spec fn mdy_parts(input: Seq<char>) -> Option<(Seq<char>, i16, i8, i8)> {
    let s = input.skip(run(input, Class::Space) as int);
    match number(s, -128, 127) {
        None => None,
        Some((s, month)) => if !starts_with(s, "/"@) {
            None
        } else {
            match number(s.skip("/"@.len() as int), -128, 127) {
                None => None,
                Some((s, day)) => if !starts_with(s, "/"@) {
                    None
                } else {
                    match number(s.skip("/"@.len() as int), -32768, 32767) {
                        None => None,
                        Some((s, year)) => Some((s, year as i16, month as i8, day as i8)),
                    }
                },
            }
        },
    }
}

/// A time written as hour and minute with a colon between them, blanks
/// before it allowed: the rest of the text, the hour and the minute.
pub open spec fn hm_parts(input: Seq<char>) -> Option<(Seq<char>, i8, i8)> {
    let s = input.skip(run(input, Class::Space) as int);
    match number(s, -128, 127) {
        None => None,
        Some((s, hour)) => if !starts_with(s, ":"@) {
            None
        } else {
            match number(s.skip(":"@.len() as int), -128, 127) {
                None => None,
                Some((s, minute)) => Some((s, hour as i8, minute as i8)),
            }
        },
    }
}

/// A time of the twelve-hour clock, written as hour and minute and then
/// letters: the rest of the text, the hour of the day and the minute. After
/// `PM` every hour but twelve is twelve hours later; other letters change
/// nothing.
pub open spec fn hm12_parts(input: Seq<char>) -> Option<(Seq<char>, int, i8)> {
    match hm_parts(input) {
        None => None,
        Some((s, hour, minute)) => {
            let n = run(s, Class::Alpha) as int;
            if n == 0 {
                None
            } else if s.take(n) == "PM"@ && hour != 12 {
                Some((s.skip(n), hour + 12, minute))
            } else {
                Some((s.skip(n), hour as int, minute))
            }
        },
    }
}

/// The date that a text writes as month, day and year: the rest of the
/// text, and the year, the month and the day.
pub open spec fn mdy_of(input: Seq<char>) -> Result<(Seq<char>, (i16, i8, i8)), Error> {
    match mdy_parts(input) {
        None => Err(Error::ParseError),
        Some((rest, year, month, day)) => if is_date(year, month, day) {
            Ok((rest, (year, month, day)))
        } else {
            Err(Error::RangeError)
        },
    }
}

/// The time that a text writes by the twelve-hour clock: the rest of the
/// text, and the time of day.
pub open spec fn hm12_of(input: Seq<char>) -> Result<(Seq<char>, (i8, i8, i8, i32)), Error> {
    match hm12_parts(input) {
        None => Err(Error::ParseError),
        Some((rest, hour, minute)) => if hour <= 127 && is_time(hour as i8, minute, 0, 0) {
            Ok((rest, (hour as i8, minute, 0i8, 0i32)))
        } else {
            Err(Error::RangeError)
        },
    }
}

/// The hour and the minute that a text writes with a colon between them: the
/// rest of the text, and the two numbers.
pub open spec fn hm24_of(input: Seq<char>) -> Result<(Seq<char>, (i8, i8)), Error> {
    match hm_parts(input) {
        None => Err(Error::ParseError),
        Some((rest, hour, minute)) => Ok((rest, (hour, minute))),
    }
}

/// The day and the time that a text writes as a date and, if one follows, a
/// time of the twenty-four-hour clock: the rest of the text, and the day and
/// the time of day. Without a time the day is taken at midnight, and the
/// rest is what follows the date.
pub open spec fn datetime_of(input: Seq<char>) -> Result<
    (Seq<char>, ((i16, i8, i8), (i8, i8, i8, i32))),
    Error,
> {
    match mdy_of(input) {
        Err(e) => Err(e),
        Ok((rest, date)) => match hm_parts(rest) {
            None => Ok((rest, (date, (0i8, 0i8, 0i8, 0i32)))),
            Some((rest, hour, minute)) => if is_time(hour, minute, 0, 0) {
                Ok((rest, (date, (hour, minute, 0i8, 0i32))))
            } else {
                Err(Error::RangeError)
            },
        },
    }
}

/// Reads a date written as month, day and year with a stroke between them,
/// as in `3/15/2024`: the rest of the text and the date.
pub fn mdy<'a>(input: &'a str) -> (r: Result<(&'a str, Date), Error>)
    ensures
        match mdy_of(input@) {
            Ok((rest, date)) => r is Ok && r->Ok_0.0@ == rest && r->Ok_0.1@ == date,
            Err(e) => r == Err::<(&str, Date), Error>(e),
        },
{
    let (rem, _) = many0(input, Class::Space);
    let (rem, month) = match number_i8(rem) {
        Some(found) => found,
        None => { return Err(Error::ParseError); },
    };
    let rem = match tag(rem, "/") {
        Some(rem) => rem,
        None => { return Err(Error::ParseError); },
    };
    let (rem, day) = match number_i8(rem) {
        Some(found) => found,
        None => { return Err(Error::ParseError); },
    };
    let rem = match tag(rem, "/") {
        Some(rem) => rem,
        None => { return Err(Error::ParseError); },
    };
    let (rem, year) = match number_i16(rem) {
        Some(found) => found,
        None => { return Err(Error::ParseError); },
    };
    match Date::new(year, month, day) {
        Ok(date) => Ok((rem, date)),
        Err(e) => Err(e),
    }
}

/// Reads a time of the twelve-hour clock, as in `2:30PM`: the rest of the
/// text and the time of day.
pub fn hm12<'a>(input: &'a str) -> (r: Result<(&'a str, Time), Error>)
    ensures
        match hm12_of(input@) {
            Ok((rest, time)) => r is Ok && r->Ok_0.0@ == rest && r->Ok_0.1@ == time,
            Err(e) => r == Err::<(&str, Time), Error>(e),
        },
{
    let (rem, (hour, minutes)) = match hm24(input) {
        Ok(found) => found,
        Err(e) => { return Err(e); },
    };
    let (rem, meridian) = match many1(rem, Class::Alpha) {
        Some(found) => found,
        None => { return Err(Error::ParseError); },
    };
    let mut hour = hour;
    if same(meridian, "PM") && hour != 12 {
        if hour > 115 {
            return Err(Error::RangeError);
        }
        hour = hour + 12;
    }
    match Time::new(hour, minutes, 0, 0) {
        Ok(time) => Ok((rem, time)),
        Err(e) => Err(e),
    }
}

/// Reads a time written as hour and minute with a colon between them, as in
/// `14:30`: the rest of the text, the hour and the minute. Neither number is
/// held to the range of a clock.
pub fn hm24<'a>(input: &'a str) -> (r: Result<(&'a str, (i8, i8)), Error>)
    ensures
        match hm24_of(input@) {
            Ok((rest, time)) => r is Ok && r->Ok_0.0@ == rest && r->Ok_0.1 == time,
            Err(e) => r == Err::<(&str, (i8, i8)), Error>(e),
        },
{
    let (rem, _) = many0(input, Class::Space);
    let (rem, hour) = match number_i8(rem) {
        Some(found) => found,
        None => { return Err(Error::ParseError); },
    };
    let rem = match tag(rem, ":") {
        Some(rem) => rem,
        None => { return Err(Error::ParseError); },
    };
    let (rem, minutes) = match number_i8(rem) {
        Some(found) => found,
        None => { return Err(Error::ParseError); },
    };
    Ok((rem, (hour, minutes)))
}

/// Reads a date and, if one follows, a time of the twenty-four-hour clock,
/// as in `3/15/2024 14:30`: the rest of the text, and the day at that time.
pub fn datetime<'a>(input: &'a str) -> (r: Result<(&'a str, DateTime), Error>)
    ensures
        match datetime_of(input@) {
            Ok((rest, moment)) => r is Ok && r->Ok_0.0@ == rest && r->Ok_0.1@ == moment,
            Err(e) => r == Err::<(&str, DateTime), Error>(e),
        },
{
    let (rem, date) = match mdy(input) {
        Ok(found) => found,
        Err(e) => { return Err(e); },
    };
    match hm24(rem) {
        Ok((rem, (hour, minutes))) => match date.at(hour, minutes, 0, 0) {
            Ok(moment) => Ok((rem, moment)),
            Err(e) => Err(e),
        },
        Err(_) => match date.at(0, 0, 0, 0) {
            Ok(moment) => Ok((rem, moment)),
            Err(e) => Err(e),
        },
    }
}

/// The lines of a polyline record, as a geometry of the analytical model.
pub fn read_geo_line(line: &legacy::GenericPolyline<legacy::PointZ>) -> (r: AnyGeometry)
    ensures
        r@ == GeometryView::MultiLineString(lines_of(line@)),
{
    let conv = Convert::new(legacy::GenericPolyline::with_parts(clone_parts(line.parts())));
    conv.into_geometry()
}

fn clone_parts(parts: &Vec<Vec<legacy::PointZ>>) -> (r: Vec<Vec<legacy::PointZ>>)
    ensures
        lines_of(r@) == lines_of(parts@),
{
    let mut r: Vec<Vec<legacy::PointZ>> = Vec::new();
    let mut i: usize = 0;
    while i < parts.len()
        invariant
            i <= parts.len(),
            r@.len() == i,
            forall|k: int| 0 <= k < i ==> (#[trigger] r@[k])@ == parts@[k]@,
        decreases parts.len() - i,
    {
        let part = parts[i].clone();
        assert(part@ =~= parts@[i as int]@);
        r.push(part);
        i = i + 1;
    }
    assert(lines_of(r@) =~= lines_of(parts@));
    r
}

/// The place of a point record, as a geometry of the analytical model.
pub fn read_geo_point(point: &legacy::PointZ) -> (r: AnyGeometry)
    ensures
        r@ == GeometryView::Point(coord_of(*point)),
{
    let conv = Convert::new(*point);
    let geo_pt = conv.geo_point();
    AnyGeometry::Point(geo_pt)
}

/// The text that a record holds under a name, if it holds a text there.
pub fn read_char(record: &Record, field: &str) -> (r: Option<String>)
    ensures
        match r {
            Some(text) => text_of(record.fields@, field@) == Some(text@),
            None => text_of(record.fields@, field@) is None,
        },
{
    match record.get(field) {
        Some(FieldValue::Character(Some(value))) => Some(value.clone()),
        _ => None,
    }
}

/// The number that a record holds under a name, if it holds a number there.
pub fn read_num(record: &Record, field: &str) -> (r: Option<i64>)
    ensures
        r == number_of(record.fields@, field@),
{
    match record.get(field) {
        Some(FieldValue::Numeric(Some(value))) => Some(*value),
        _ => None,
    }
}

} // verus!
