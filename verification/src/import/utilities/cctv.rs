//! The reports of the camera inspections of the lines, which are known by
//! the names of their files.
use crate::civil::{date_text, is_date, Date};
use crate::convert::Convert;
use crate::error::{Error, ErrorView};
use crate::import::utilities::wastewater::line::{first_known_as, Line, LineView, Lines};
use crate::interchange::{
    collect_features, collection_holds, collection_text, feature_holds, feature_properties,
    no_properties, set_property, shape_of, write_collection, FeatureHeld, GeometryHeld,
};
use crate::parse::{
    find, integer, many0, many1, number, number_i16, number_i8, parse_i16, parse_i8, run,
    starts_with, tag, take, take_until, Class,
};
use crate::paths::{build_path, file_path, lemma_known_extensions, path_text, to_text};
use crate::text::{clone_opt, join, opt_text};
use vstd::prelude::*;

verus! {

/// The report of an inspection, as the name of its file tells of it: the line
/// that was inspected, the day, and whether the report was put in the archive.
#[derive(Debug, PartialEq)]
pub struct InspectionFile {
    /// What the name says of the archive, if it says anything.
    archive: Option<String>,
    /// The day of the inspection.
    date: Date,
    /// The name of the line: the junctions at its two ends, with a dot between.
    name: String,
    /// Where the report lies.
    path: std::path::PathBuf,
}

/// What the report of an inspection holds.
pub struct InspectionFileView {
    pub archive: Option<Seq<char>>,
    pub date: (i16, i8, i8),
    pub name: Seq<char>,
    pub path: std::path::PathBuf,
}

impl View for InspectionFile {
    type V = InspectionFileView;

    closed spec fn view(&self) -> InspectionFileView {
        InspectionFileView {
            archive: opt_text(self.archive),
            date: self.date@,
            name: self.name@,
            path: self.path,
        }
    }
}

impl Clone for InspectionFile {
    fn clone(&self) -> (r: Self)
        ensures
            r@ == self@,
    {
        InspectionFile {
            archive: clone_opt(&self.archive),
            date: self.date,
            name: self.name.clone(),
            path: self.path.clone(),
        }
    }
}

impl InspectionFile {
    /// What the name says of the archive, if it says anything.
    pub fn archive(&self) -> (r: &Option<String>)
        ensures
            opt_text((*r)) == self@.archive,
    {
        &self.archive
    }

    /// The day of the inspection.
    pub fn date(&self) -> (r: &Date)
        ensures
            (*r)@ == self@.date,
    {
        &self.date
    }

    /// The name of the line: the junctions at its two ends, with a dot between.
    pub fn name(&self) -> (r: &String)
        ensures
            (*r)@ == self@.name,
    {
        &self.name
    }

    /// Where the report lies.
    pub fn path(&self) -> (r: &std::path::PathBuf)
        ensures
            *r == self@.path,
    {
        &self.path
    }

    /// The same, but with another value for: what the name says of the archive, if it says anything.
    pub fn with_archive(self, value: Option<String>) -> (r: Self)
        ensures
            r@ == (InspectionFileView { archive: opt_text(value), ..self@ }),
    {
        let mut r = self;
        r.archive = value;
        r
    }

    /// The same, but with another value for: the day of the inspection.
    pub fn with_date(self, value: Date) -> (r: Self)
        ensures
            r@ == (InspectionFileView { date: value@, ..self@ }),
    {
        let mut r = self;
        r.date = value;
        r
    }

    /// The same, but with another value for: the name of the line: the junctions at its two ends, with a dot between.
    pub fn with_name(self, value: String) -> (r: Self)
        ensures
            r@ == (InspectionFileView { name: value@, ..self@ }),
    {
        let mut r = self;
        r.name = value;
        r
    }

    /// The same, but with another value for: where the report lies.
    pub fn with_path(self, value: std::path::PathBuf) -> (r: Self)
        ensures
            r@ == (InspectionFileView { path: value, ..self@ }),
    {
        let mut r = self;
        r.path = value;
        r
    }
}

/// The reports of a directory.
#[derive(Debug, PartialEq)]
pub struct InspectionFiles(pub Vec<InspectionFile>);

impl View for InspectionFiles {
    type V = Seq<InspectionFileView>;

    open spec fn view(&self) -> Seq<InspectionFileView> {
        Seq::new(self.0@.len(), |i: int| self.0@[i]@)
    }
}

impl Clone for InspectionFiles {
    fn clone(&self) -> (r: Self)
        ensures
            r@ == self@,
    {
        let mut items: Vec<InspectionFile> = Vec::new();
        let mut i: usize = 0;
        while i < self.0.len()
            invariant
                i <= self.0.len(),
                items@.len() == i,
                forall|k: int| 0 <= k < i ==> (#[trigger] items@[k])@ == self.0@[k]@,
            decreases self.0.len() - i,
        {
            items.push(self.0[i].clone());
            i = i + 1;
        }
        let r = InspectionFiles(items);
        assert(r@ =~= self@);
        r
    }
}

impl InspectionFiles {
    /// The list of the given reports.
    pub fn new(items: Vec<InspectionFile>) -> (r: Self)
        ensures
            r.0 == items,
    {
        InspectionFiles(items)
    }

    /// How many reports there are.
    pub fn len(&self) -> (r: usize)
        ensures
            r == self@.len(),
    {
        self.0.len()
    }
}

/// An inspection: a line of the network, and the report of its inspection.
#[derive(Debug, PartialEq)]
pub struct Inspection {
    /// The line that was inspected.
    asset: Line,
    /// The report.
    file: InspectionFile,
}

/// What an inspection holds.
pub struct InspectionView {
    pub asset: LineView,
    pub file: InspectionFileView,
}

impl View for Inspection {
    type V = InspectionView;

    closed spec fn view(&self) -> InspectionView {
        InspectionView {
            asset: self.asset@,
            file: self.file@,
        }
    }
}

impl Clone for Inspection {
    fn clone(&self) -> (r: Self)
        ensures
            r@ == self@,
    {
        Inspection {
            asset: self.asset.clone(),
            file: self.file.clone(),
        }
    }
}

impl Inspection {
    /// The line that was inspected.
    pub fn asset(&self) -> (r: &Line)
        ensures
            (*r)@ == self@.asset,
    {
        &self.asset
    }

    /// The report.
    pub fn file(&self) -> (r: &InspectionFile)
        ensures
            (*r)@ == self@.file,
    {
        &self.file
    }

    /// The same, but with another value for: the line that was inspected.
    pub fn with_asset(self, value: Line) -> (r: Self)
        ensures
            r@ == (InspectionView { asset: value@, ..self@ }),
    {
        let mut r = self;
        r.asset = value;
        r
    }

    /// The same, but with another value for: the report.
    pub fn with_file(self, value: InspectionFile) -> (r: Self)
        ensures
            r@ == (InspectionView { file: value@, ..self@ }),
    {
        let mut r = self;
        r.file = value;
        r
    }
}

/// The inspections of a network.
#[derive(Debug, PartialEq)]
pub struct Inspections(pub Vec<Inspection>);

impl View for Inspections {
    type V = Seq<InspectionView>;

    open spec fn view(&self) -> Seq<InspectionView> {
        Seq::new(self.0@.len(), |i: int| self.0@[i]@)
    }
}

impl Clone for Inspections {
    fn clone(&self) -> (r: Self)
        ensures
            r@ == self@,
    {
        let mut items: Vec<Inspection> = Vec::new();
        let mut i: usize = 0;
        while i < self.0.len()
            invariant
                i <= self.0.len(),
                items@.len() == i,
                forall|k: int| 0 <= k < i ==> (#[trigger] items@[k])@ == self.0@[k]@,
            decreases self.0.len() - i,
        {
            items.push(self.0[i].clone());
            i = i + 1;
        }
        let r = Inspections(items);
        assert(r@ =~= self@);
        r
    }
}

impl Inspections {
    /// The list of the given inspections.
    pub fn new(items: Vec<Inspection>) -> (r: Self)
        ensures
            r.0 == items,
    {
        Inspections(items)
    }

    /// How many inspections there are.
    pub fn len(&self) -> (r: usize)
        ensures
            r == self@.len(),
    {
        self.0.len()
    }
}

/// The name at the front of a title: letters and digits, a dot, letters and
/// digits again, and after that blanks and one word, which are passed over.
/// The rest of the title, and the name.
pub open spec fn name_parts(input: Seq<char>) -> Option<(Seq<char>, Seq<char>)> {
    let n = run(input, Class::Alphanumeric) as int;
    let s = input.skip(n);
    if n == 0 || !starts_with(s, "."@) {
        None
    } else {
        let s = s.skip("."@.len() as int);
        let m = run(s, Class::Alphanumeric) as int;
        if m == 0 {
            None
        } else {
            let name = input.take(n) + "."@ + s.take(m);
            let s = s.skip(m);
            let s = s.skip(run(s, Class::Space) as int);
            let s = s.skip(run(s, Class::Alpha) as int);
            Some((s, name))
        }
    }
}

/// What stands in brackets at the front of a text, blanks before it allowed;
/// blanks and the word `ARCHIVE` after it are passed over. The rest of the
/// text, and what stood in the brackets.
pub open spec fn archive_parts(input: Seq<char>) -> Option<(Seq<char>, Seq<char>)> {
    let s = input.skip(run(input, Class::Space) as int);
    if !starts_with(s, "("@) {
        None
    } else {
        let s = s.skip("("@.len() as int);
        let n = find(s, ")"@) as int;
        if !starts_with(s.skip(n), ")"@) {
            None
        } else {
            let archive = s.take(n);
            let s = s.skip(n).skip(")"@.len() as int);
            let s = s.skip(run(s, Class::Space) as int);
            if starts_with(s, "ARCHIVE"@) {
                Some((s.skip("ARCHIVE"@.len() as int), archive))
            } else {
                Some((s, archive))
            }
        }
    }
}

/// A date written as month, day and year with blanks between them, a dot and
/// blanks before it allowed: the rest of the text, the year, the month and
/// the day.
pub open spec fn mdy_parts(input: Seq<char>) -> Option<(Seq<char>, i16, i8, i8)> {
    let s = if starts_with(input, "."@) {
        input.skip("."@.len() as int)
    } else {
        input
    };
    let s = s.skip(run(s, Class::Space) as int);
    match number(s, -128, 127) {
        None => None,
        Some((s, month)) => match number(s.skip(run(s, Class::Space) as int), -128, 127) {
            None => None,
            Some((s, day)) => match number(s.skip(run(s, Class::Space) as int), -32768, 32767) {
                None => None,
                Some((s, year)) => Some((s, year as i16, month as i8, day as i8)),
            },
        },
    }
}

/// A date written as a stamp: an underscore, four characters for the year,
/// two for the month and two for the day. The rest of the text, the year,
/// the month and the day.
pub open spec fn datestamp_parts(input: Seq<char>) -> Option<(Seq<char>, i16, i8, i8)> {
    if !starts_with(input, "_"@) {
        None
    } else {
        let s = input.skip("_"@.len() as int);
        if s.len() < 8 {
            None
        } else {
            match (
                integer(s.take(4), -32768, 32767),
                integer(s.skip(4).take(2), -128, 127),
                integer(s.skip(6).take(2), -128, 127),
            ) {
                (Some(year), Some(month), Some(day)) => Some(
                    (s.skip(8), year as i16, month as i8, day as i8),
                ),
                _ => None,
            }
        }
    }
}

/// A date written in one of the two ways, the one with blanks tried first:
/// the year, the month and the day.
pub open spec fn date_parts(input: Seq<char>) -> Option<(i16, i8, i8)> {
    match mdy_parts(input) {
        Some((_, year, month, day)) => Some((year, month, day)),
        None => match datestamp_parts(input) {
            Some((_, year, month, day)) => Some((year, month, day)),
            None => None,
        },
    }
}

/// What a title tells: the name of the line, what it says of the archive, and
/// the date, which follows the name or, where there is one, the note on the
/// archive.
pub open spec fn title_parts(title: Seq<char>) -> Option<(Seq<char>, Option<Seq<char>>, (i16, i8, i8))> {
    match name_parts(title) {
        None => None,
        Some((rest, name)) => match archive_parts(rest) {
            Some((rest, archive)) => match date_parts(rest) {
                Some(date) => Some((name, Some(archive), date)),
                None => None,
            },
            None => match date_parts(rest) {
                Some(date) => Some((name, None, date)),
                None => None,
            },
        },
    }
}

impl InspectionFile {
    /// The report with the given parts.
    pub fn new(archive: Option<String>, date: Date, name: String, path: std::path::PathBuf) -> (r:
        Self)
        ensures
            r@ == (InspectionFileView { archive: opt_text(archive), date: date@, name: name@, path }),
    {
        InspectionFile { archive, date, name, path }
    }

    /// Reads the name of the line at the front of a title: the rest of the
    /// title, and the name.
    pub fn read_name<'a>(input: &'a str) -> (r: Result<(&'a str, String), Error>)
        ensures
            match name_parts(input@) {
                None => r == Err::<(&str, String), Error>(Error::ParseError),
                Some((rest, name)) => r is Ok && r->Ok_0.0@ == rest && r->Ok_0.1@ == name,
            },
    {
        let (rem, from) = match many1(input, Class::Alphanumeric) {
            Some(found) => found,
            None => { return Err(Error::ParseError); },
        };
        let rem = match tag(rem, ".") {
            Some(rem) => rem,
            None => { return Err(Error::ParseError); },
        };
        let (rem, to) = match many1(rem, Class::Alphanumeric) {
            Some(found) => found,
            None => { return Err(Error::ParseError); },
        };
        let mut name = join(from, ".");
        name.append(to);
        let (rem, _) = many0(rem, Class::Space);
        let (rem, _) = many0(rem, Class::Alpha);
        Ok((rem, name))
    }

    /// Reads what a title says of the archive, in brackets: the rest of the
    /// title, and what stood in the brackets.
    pub fn read_archive<'a>(input: &'a str) -> (r: Result<(&'a str, &'a str), Error>)
        ensures
            match archive_parts(input@) {
                None => r == Err::<(&str, &str), Error>(Error::ParseError),
                Some((rest, archive)) => r is Ok && r->Ok_0.0@ == rest && r->Ok_0.1@ == archive,
            },
    {
        let (rem, _) = many0(input, Class::Space);
        let rem = match tag(rem, "(") {
            Some(rem) => rem,
            None => { return Err(Error::ParseError); },
        };
        let (rem, archive) = match take_until(rem, ")") {
            Some(found) => found,
            None => { return Err(Error::ParseError); },
        };
        let rem = match tag(rem, ")") {
            Some(rem) => rem,
            None => { return Err(Error::ParseError); },
        };
        let (rem, _) = many0(rem, Class::Space);
        let rem = match tag(rem, "ARCHIVE") {
            Some(rem) => rem,
            None => rem,
        };
        Ok((rem, archive))
    }

    /// Reads a date written as month, day and year with blanks between them:
    /// the rest of the text, and the year, the month and the day.
    pub fn read_mdy<'a>(input: &'a str) -> (r: Result<(&'a str, (i16, i8, i8)), Error>)
        ensures
            match mdy_parts(input@) {
                None => r == Err::<(&str, (i16, i8, i8)), Error>(Error::ParseError),
                Some((rest, year, month, day)) => r is Ok && r->Ok_0.0@ == rest && r->Ok_0.1 == (
                    year,
                    month,
                    day,
                ),
            },
    {
        let rem = match tag(input, ".") {
            Some(rem) => rem,
            None => input,
        };
        let (rem, _) = many0(rem, Class::Space);
        let (rem, month) = match number_i8(rem) {
            Some(found) => found,
            None => { return Err(Error::ParseError); },
        };
        let (rem, _) = many0(rem, Class::Space);
        let (rem, day) = match number_i8(rem) {
            Some(found) => found,
            None => { return Err(Error::ParseError); },
        };
        let (rem, _) = many0(rem, Class::Space);
        let (rem, year) = match number_i16(rem) {
            Some(found) => found,
            None => { return Err(Error::ParseError); },
        };
        Ok((rem, (year, month, day)))
    }

    /// Reads a date written as a stamp, as in `_20240315`: the rest of the
    /// text, and the year, the month and the day.
    pub fn read_datestamp<'a>(input: &'a str) -> (r: Result<(&'a str, (i16, i8, i8)), Error>)
        ensures
            match datestamp_parts(input@) {
                None => r == Err::<(&str, (i16, i8, i8)), Error>(Error::ParseError),
                Some((rest, year, month, day)) => r is Ok && r->Ok_0.0@ == rest && r->Ok_0.1 == (
                    year,
                    month,
                    day,
                ),
            },
    {
        let rem = match tag(input, "_") {
            Some(rem) => rem,
            None => { return Err(Error::ParseError); },
        };
        let ghost s = rem@;
        let (rem, year) = match take(rem, 4) {
            Some(found) => found,
            None => { return Err(Error::ParseError); },
        };
        let year = match parse_i16(year) {
            Some(year) => year,
            None => { return Err(Error::ParseError); },
        };
        let (rem, month) = match take(rem, 2) {
            Some(found) => found,
            None => { return Err(Error::ParseError); },
        };
        let month = match parse_i8(month) {
            Some(month) => month,
            None => { return Err(Error::ParseError); },
        };
        assert(s.skip(4).skip(2) =~= s.skip(6));
        let (rem, day) = match take(rem, 2) {
            Some(found) => found,
            None => { return Err(Error::ParseError); },
        };
        let day = match parse_i8(day) {
            Some(day) => day,
            None => { return Err(Error::ParseError); },
        };
        assert(s.skip(6).skip(2) =~= s.skip(8));
        Ok((rem, (year, month, day)))
    }

    /// Reads a date written in one of the two ways.
    pub fn read_date(input: &str) -> (r: Result<Date, Error>)
        ensures
            match date_parts(input@) {
                None => r == Err::<Date, Error>(Error::ParseError),
                Some((year, month, day)) => if is_date(year, month, day) {
                    r is Ok && r->Ok_0@ == (year, month, day)
                } else {
                    r == Err::<Date, Error>(Error::RangeError)
                },
            },
    {
        let (year, month, day) = match InspectionFile::read_mdy(input) {
            Ok((_, date)) => date,
            Err(_) => match InspectionFile::read_datestamp(input) {
                Ok((_, date)) => date,
                Err(e) => { return Err(e); },
            },
        };
        Date::new(year, month, day)
    }

    /// The report that a file stands for, by the title of the file and the
    /// directory it lies in.
    pub fn from_path(title: &str, path: std::path::PathBuf) -> (r: Result<Self, Error>)
        ensures
            match title_parts(title@) {
                None => r == Err::<InspectionFile, Error>(Error::ParseError),
                Some((name, archive, (year, month, day))) => if is_date(year, month, day) {
                    r is Ok && r->Ok_0@ == (InspectionFileView {
                        archive,
                        date: (year, month, day),
                        name,
                        path: file_path(path, title@, "pdf"@),
                    })
                } else {
                    r == Err::<InspectionFile, Error>(Error::RangeError)
                },
            },
    {
        let (rem, name) = match InspectionFile::read_name(title) {
            Ok(found) => found,
            Err(e) => { return Err(e); },
        };
        proof {
            lemma_known_extensions();
        }
        match InspectionFile::read_archive(rem) {
            Ok((remaining, value)) => {
                let archive = Some(value.to_owned());
                let date = match InspectionFile::read_date(remaining) {
                    Ok(date) => date,
                    Err(e) => { return Err(e); },
                };
                let path = build_path(title, "pdf", path);
                Ok(InspectionFile { archive, name, date, path })
            },
            Err(_) => {
                let date = match InspectionFile::read_date(rem) {
                    Ok(date) => date,
                    Err(e) => { return Err(e); },
                };
                let path = build_path(title, "pdf", path);
                Ok(InspectionFile { archive: None, name, date, path })
            },
        }
    }
}

/// The reports that the files of a directory stand for, by their titles:
/// one for each title that can be read and names a day of the calendar, in
/// the order of the titles.
pub open spec fn titles_read(titles: Seq<String>, directory: std::path::PathBuf) -> Seq<
    InspectionFileView,
>
    decreases titles.len(),
{
    if titles.len() == 0 {
        Seq::empty()
    } else {
        let before = titles_read(titles.drop_last(), directory);
        match title_parts(titles.last()@) {
            Some((name, archive, date)) => if is_date(date.0, date.1, date.2) {
                before.push(
                    InspectionFileView {
                        archive,
                        date,
                        name,
                        path: file_path(directory, titles.last()@, "pdf"@),
                    },
                )
            } else {
                before
            },
            None => before,
        }
    }
}

impl InspectionFiles {
    /// The reports that the files of a directory stand for, by the titles of
    /// the files: those whose titles can be read, in the order of the titles.
    pub fn from_path(titles: &Vec<String>, path: &std::path::PathBuf) -> (r: Self)
        ensures
            r@ == titles_read(titles@, *path),
    {
        let mut files: Vec<InspectionFile> = Vec::new();
        let mut i: usize = 0;
        assert(InspectionFiles(files)@ =~= titles_read(titles@.take(0), *path));
        while i < titles.len()
            invariant
                i <= titles.len(),
                InspectionFiles(files)@ == titles_read(titles@.take(i as int), *path),
            decreases titles.len() - i,
        {
            let ghost before = InspectionFiles(files)@;
            assert(titles@.take(i + 1).drop_last() =~= titles@.take(i as int));
            match InspectionFile::from_path(titles[i].as_str(), path.clone()) {
                Ok(file) => {
                    files.push(file);
                    assert(InspectionFiles(files)@ =~= before.push(file@));
                },
                Err(_) => {
                    assert(InspectionFiles(files)@ =~= before);
                },
            }
            i = i + 1;
        }
        assert(titles@.take(i as int) =~= titles@);
        InspectionFiles(files)
    }
}

/// The properties of the feature of an inspection.
pub open spec fn inspection_properties(inspection: InspectionView) -> Map<Seq<char>, Option<Seq<char>>> {
    no_properties().insert("asset_id"@, Some(inspection.asset.asset_id)).insert(
        "historic_id"@,
        inspection.asset.historic_id,
    ).insert("owner"@, Some(inspection.asset.owner.label())).insert(
        "date"@,
        Some(date_text(inspection.file.date.0, inspection.file.date.1, inspection.file.date.2)),
    ).insert("path"@, path_text(inspection.file.path))
}

impl Inspection {
    /// The inspection of a line, with its report.
    pub fn new(asset: Line, file: InspectionFile) -> (r: Self)
        ensures
            r@ == (InspectionView { asset: asset@, file: file@ }),
    {
        Inspection { asset, file }
    }

    /// The inspection that a report belongs to: that of the first line which
    /// goes by the name of the report, now or before.
    pub fn from_file(file: &InspectionFile, lines: &Lines) -> (r: Result<Self, Error>)
        ensures
            match r {
                Ok(inspection) => first_known_as(lines@, file@.name) < lines@.len()
                    && inspection@ == (InspectionView {
                    asset: lines@[first_known_as(lines@, file@.name)],
                    file: file@,
                }),
                Err(e) => first_known_as(lines@, file@.name) == lines@.len() && e@
                    == ErrorView::Hint("Line match to "@ + file@.name + " not found."@),
            },
    {
        match lines.find(file.name()) {
            Some(line) => Ok(Inspection { asset: line.clone(), file: file.clone() }),
            None => {
                let mut hint = join("Line match to ", file.name().as_str());
                hint.append(" not found.");
                Err(Error::Hint(hint))
            },
        }
    }

    /// The GeoJSON feature of the inspection: the geometry of the line, and
    /// as properties the identifiers and the owner of the line and the day
    /// and the path of the report.
    pub fn feature(&self) -> (r: geojson::Feature)
        ensures
            feature_holds(r) == (FeatureHeld {
                geometry: Some(
                    GeometryHeld {
                        value: shape_of(self@.asset.geometry),
                        bbox: false,
                        foreign_members: false,
                    },
                ),
                bbox: false,
                id: false,
                foreign_members: false,
            }),
            feature_properties(r) == inspection_properties(self@),
    {
        let mut result = Convert::new(self.asset.geometry.clone()).geojson_feature();
        set_property(&mut result, "asset_id", Some(self.asset.asset_id().clone()));
        set_property(&mut result, "historic_id", clone_opt(self.asset.historic_id()));
        set_property(&mut result, "owner", Some(self.asset.owner()));
        set_property(&mut result, "date", Some(self.file.date.to_string()));
        set_property(&mut result, "path", to_text(&self.file.path));
        result
    }

    /// The day of the inspection.
    pub fn date(&self) -> (r: &Date)
        ensures
            r@ == self@.file.date,
    {
        self.file.date()
    }

    /// Where the report lies.
    pub fn path(&self) -> (r: &std::path::PathBuf)
        ensures
            *r == self@.file.path,
    {
        self.file.path()
    }
}

/// The inspections that reports and lines give: for each report the
/// inspection it belongs to, and nothing for a report without a line.
pub open spec fn matched(files: Seq<InspectionFileView>, lines: Seq<LineView>) -> Seq<InspectionView>
    decreases files.len(),
{
    if files.len() == 0 {
        Seq::empty()
    } else {
        let before = matched(files.drop_last(), lines);
        let at = first_known_as(lines, files.last().name);
        if at < lines.len() {
            before.push(InspectionView { asset: lines[at], file: files.last() })
        } else {
            before
        }
    }
}

/// The features of inspections, with their geometry and their properties.
pub open spec fn features_of(features: Seq<geojson::Feature>, inspections: Seq<InspectionView>) -> bool {
    features.len() == inspections.len() && forall|i: int|
        0 <= i < features.len() ==> feature_properties(#[trigger] features[i])
            == inspection_properties(inspections[i]) && feature_holds(features[i])
            == (FeatureHeld {
            geometry: Some(
                GeometryHeld {
                    value: shape_of(inspections[i].asset.geometry),
                    bbox: false,
                    foreign_members: false,
                },
            ),
            bbox: false,
            id: false,
            foreign_members: false,
        })
}

impl Inspections {
    /// The inspections that the reports belong to, in the order of the
    /// reports. A report for which no line is found is left out.
    pub fn from_files(files: &InspectionFiles, lines: &Lines) -> (r: Result<Self, Error>)
        ensures
            r is Ok,
            r->Ok_0@ == matched(files@, lines@),
    {
        let mut found: Vec<Inspection> = Vec::new();
        let mut i: usize = 0;
        while i < files.0.len()
            invariant
                i <= files.0.len(),
                Inspections(found)@ == matched(files@.take(i as int), lines@),
            decreases files.0.len() - i,
        {
            let ghost before = Inspections(found)@;
            assert(files@.take(i + 1).drop_last() =~= files@.take(i as int));
            match Inspection::from_file(&files.0[i], lines) {
                Ok(value) => {
                    found.push(value);
                    assert(Inspections(found)@ =~= before.push(value@));
                },
                Err(_) => {
                    assert(Inspections(found)@ =~= before);
                },
            }
            i = i + 1;
        }
        assert(files@.take(i as int) =~= files@);
        Ok(Inspections(found))
    }

    /// The GeoJSON features of the inspections, in their order.
    pub fn feature_collection(&self) -> (r: geojson::FeatureCollection)
        ensures
            features_of(collection_holds(r), self@),
    {
        let mut features: Vec<geojson::Feature> = Vec::new();
        let mut i: usize = 0;
        while i < self.0.len()
            invariant
                i <= self.0.len(),
                features_of(features@, self@.take(i as int)),
            decreases self.0.len() - i,
        {
            let feature = self.0[i].feature();
            features.push(feature);
            i = i + 1;
        }
        assert(self@.take(i as int) =~= self@);
        collect_features(features)
    }

    /// The inspections written as a GeoJSON text.
    pub fn geojson(&self) -> (r: String)
        ensures
            exists|collection: geojson::FeatureCollection|
                features_of(collection_holds(collection), self@) && r@ == collection_text(
                    collection,
                ),
    {
        let collection = self.feature_collection();
        write_collection(&collection)
    }
}

} // verus!
