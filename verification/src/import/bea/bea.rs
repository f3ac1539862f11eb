//! The tables of regional data of the Bureau of Economic Analysis.
use crate::error::{Error, ErrorView};
use crate::order::{
    contains_text, numbers_ascend, same_values, sorted_numbers, sorted_texts, texts, texts_ascend,
};
use crate::parse::{integer, lemma_run_bound, many1, parse_i64, run, starts_with, tag, Class};
use crate::text::{opt_text, same};
use vstd::prelude::*;

verus! {

/// One value of a table as the bureau hands it out: the value still a text.
#[derive(Debug, PartialEq)]
pub struct BeaDatumRaw {
    /// The line code.
    pub code: String,
    /// The code of the place.
    pub geo_fips: i32,
    /// The name of the place.
    pub geo_name: String,
    /// The year.
    pub time_period: i32,
    /// What the line tells.
    pub description: String,
    /// The unit of the value.
    pub cl_unit: String,
    /// The power of ten that the value is to be multiplied by.
    pub unit_mult: i32,
    /// The value, as it is written.
    pub data_value: String,
}

/// What a value as it is handed out holds.
pub struct BeaDatumRawView {
    pub code: Seq<char>,
    pub geo_fips: i32,
    pub geo_name: Seq<char>,
    pub time_period: i32,
    pub description: Seq<char>,
    pub cl_unit: Seq<char>,
    pub unit_mult: i32,
    pub data_value: Seq<char>,
}

impl View for BeaDatumRaw {
    type V = BeaDatumRawView;

    open spec fn view(&self) -> BeaDatumRawView {
        BeaDatumRawView {
            code: self.code@,
            geo_fips: self.geo_fips,
            geo_name: self.geo_name@,
            time_period: self.time_period,
            description: self.description@,
            cl_unit: self.cl_unit@,
            unit_mult: self.unit_mult,
            data_value: self.data_value@,
        }
    }
}

impl Clone for BeaDatumRaw {
    fn clone(&self) -> (r: Self)
        ensures
            r@ == self@,
    {
        BeaDatumRaw {
            code: self.code.clone(),
            geo_fips: self.geo_fips,
            geo_name: self.geo_name.clone(),
            time_period: self.time_period,
            description: self.description.clone(),
            cl_unit: self.cl_unit.clone(),
            unit_mult: self.unit_mult,
            data_value: self.data_value.clone(),
        }
    }
}

/// The values of a table as the bureau hands them out.
#[derive(Debug, PartialEq)]
pub struct BeaDataRaw(pub Vec<BeaDatumRaw>);

impl View for BeaDataRaw {
    type V = Seq<BeaDatumRawView>;

    open spec fn view(&self) -> Seq<BeaDatumRawView> {
        Seq::new(self.0@.len(), |i: int| self.0@[i]@)
    }
}

impl Clone for BeaDataRaw {
    fn clone(&self) -> (r: Self)
        ensures
            r@ == self@,
    {
        let mut items: Vec<BeaDatumRaw> = Vec::new();
        let mut i: usize = 0;
        while i < self.0.len()
            invariant
                i <= self.0.len(),
                items@.len() == i,
                forall|k: int| 0 <= k < i ==> (#[trigger] items@[k])@ == self.0@[k]@,
            decreases self.0.len() - i,
        {
            items.push(self.0[i].clone());
            i = i + 1;
        }
        let r = BeaDataRaw(items);
        assert(r@ =~= self@);
        r
    }
}

impl BeaDataRaw {
    /// The list of the given values.
    pub fn new(items: Vec<BeaDatumRaw>) -> (r: Self)
        ensures
            r.0 == items,
    {
        BeaDataRaw(items)
    }

    /// How many values there are.
    pub fn len(&self) -> (r: usize)
        ensures
            r == self@.len(),
    {
        self.0.len()
    }
}

/// One value of a table.
#[derive(Debug, PartialEq)]
pub struct BeaDatum {
    /// The line code.
    pub code: String,
    /// The code of the place.
    pub geo_fips: i32,
    /// The name of the place.
    pub geo_name: String,
    /// The year.
    pub time_period: i32,
    /// What the line tells.
    pub description: String,
    /// The unit of the value.
    pub cl_unit: String,
    /// The power of ten that the value is to be multiplied by.
    pub unit_mult: i32,
    /// The value.
    pub data_value: i64,
}

/// What a value of a table holds.
pub struct BeaDatumView {
    pub code: Seq<char>,
    pub geo_fips: i32,
    pub geo_name: Seq<char>,
    pub time_period: i32,
    pub description: Seq<char>,
    pub cl_unit: Seq<char>,
    pub unit_mult: i32,
    pub data_value: i64,
}

impl View for BeaDatum {
    type V = BeaDatumView;

    open spec fn view(&self) -> BeaDatumView {
        BeaDatumView {
            code: self.code@,
            geo_fips: self.geo_fips,
            geo_name: self.geo_name@,
            time_period: self.time_period,
            description: self.description@,
            cl_unit: self.cl_unit@,
            unit_mult: self.unit_mult,
            data_value: self.data_value,
        }
    }
}

impl Clone for BeaDatum {
    fn clone(&self) -> (r: Self)
        ensures
            r@ == self@,
    {
        BeaDatum {
            code: self.code.clone(),
            geo_fips: self.geo_fips,
            geo_name: self.geo_name.clone(),
            time_period: self.time_period,
            description: self.description.clone(),
            cl_unit: self.cl_unit.clone(),
            unit_mult: self.unit_mult,
            data_value: self.data_value,
        }
    }
}

/// The values of a table.
#[derive(Debug, PartialEq)]
pub struct BeaData(pub Vec<BeaDatum>);

impl View for BeaData {
    type V = Seq<BeaDatumView>;

    open spec fn view(&self) -> Seq<BeaDatumView> {
        Seq::new(self.0@.len(), |i: int| self.0@[i]@)
    }
}

impl Clone for BeaData {
    fn clone(&self) -> (r: Self)
        ensures
            r@ == self@,
    {
        let mut items: Vec<BeaDatum> = Vec::new();
        let mut i: usize = 0;
        while i < self.0.len()
            invariant
                i <= self.0.len(),
                items@.len() == i,
                forall|k: int| 0 <= k < i ==> (#[trigger] items@[k])@ == self.0@[k]@,
            decreases self.0.len() - i,
        {
            items.push(self.0[i].clone());
            i = i + 1;
        }
        let r = BeaData(items);
        assert(r@ =~= self@);
        r
    }
}

impl BeaData {
    /// The list of the given values.
    pub fn new(items: Vec<BeaDatum>) -> (r: Self)
        ensures
            r.0 == items,
    {
        BeaData(items)
    }

    /// How many values there are.
    pub fn len(&self) -> (r: usize)
        ensures
            r == self@.len(),
    {
        self.0.len()
    }
}

/// The columns of a table.
#[derive(Debug, Clone, Copy, PartialEq, Eq, Structural)]
pub enum BeaColumns {
    /// The line code.
    Code,
    /// The code of the place.
    GeoFips,
    /// The name of the place.
    GeoName,
    /// The year.
    TimePeriod,
    /// What the line tells.
    Description,
    /// The unit of the value.
    Unit,
    /// The value.
    Value,
}

/// How a whole number is written.
pub uninterp spec fn number_text(number: int) -> Seq<char>;

/// Calls `to_string` on an `i64`: the number, written.
#[verifier::external_body]
fn write_i64(number: i64) -> (r: String)
    ensures
        r@ == number_text(number as int),
{
    number.to_string()
}

/// The digits of a number that is written with commas between its
/// thousands. `so_far` holds the digits read before. There are none where
/// the text does not go on with a digit; a group of digits must be followed
/// by a comma, by a blank and an `E`, or by nothing, or the text cannot be
/// read.
pub open spec fn plain_number(value: Seq<char>, so_far: Seq<char>) -> Result<Option<Seq<char>>, ()>
    decreases value.len(),
{
    if value.len() == 0 || !(0x30 <= (value[0] as u32) % 256 <= 0x39) {
        Ok(None)
    } else {
        let n = run(value, Class::Digit) as int;
        let rest = value.skip(n);
        if n == 0 {
            Err(())
        } else if rest.len() == 0 {
            Ok(Some(so_far + value.take(n)))
        } else if starts_with(rest, ","@) && rest.len() - ","@.len() < value.len() {
            plain_number(rest.skip(","@.len() as int), so_far + value.take(n))
        } else if starts_with(rest, " E"@) && rest.len() - " E"@.len() < value.len() {
            plain_number(rest.skip(" E"@.len() as int), so_far + value.take(n))
        } else {
            Err(())
        }
    }
}

/// The number that a text writes with commas between its thousands: none
/// where the text holds no number, and an error where it cannot be read or
/// the number is too large.
pub open spec fn number_of(value: Seq<char>) -> Result<Option<i64>, ErrorView> {
    match plain_number(value, Seq::empty()) {
        Err(_) => Err(ErrorView::ParseError),
        Ok(None) => Ok(None),
        Ok(Some(digits)) => match integer(digits, i64::MIN as int, i64::MAX as int) {
            Some(number) => Ok(Some(number as i64)),
            None => Err(ErrorView::ParseError),
        },
    }
}

/// Takes the commas out of a number. `num` holds the digits read before.
fn remove_comma(value: &str, num: String) -> (r: Result<Option<String>, Error>)
    ensures
        match r {
            Ok(digits) => plain_number(value@, num@) == Ok::<Option<Seq<char>>, ()>(
                opt_text(digits),
            ),
            Err(e) => plain_number(value@, num@) is Err && e == Error::ParseError,
        },
    decreases value@.len(),
{
    if value.unicode_len() == 0 {
        return Ok(None);
    }
    let first = value.get_char(0);
    let low = (first as u32) % 256;
    if !(0x30 <= low && low <= 0x39) {
        return Ok(None);
    }
    let (rem, digits) = match many1(value, Class::Digit) {
        Some(found) => found,
        None => { return Err(Error::ParseError); },
    };
    proof {
        lemma_run_bound(value@, Class::Digit);
    }
    let mut res = num;
    res.append(digits);
    if rem.unicode_len() == 0 {
        return Ok(Some(res));
    }
    match tag(rem, ",") {
        Some(rem) => remove_comma(rem, res),
        None => match tag(rem, " E") {
            Some(rem) => remove_comma(rem, res),
            None => Err(Error::ParseError),
        },
    }
}

/// Reads a number that is written with commas between its thousands.
pub fn str_to_int(value: &str) -> (r: Result<Option<i64>, Error>)
    ensures
        match r {
            Ok(number) => number_of(value@) == Ok::<Option<i64>, ErrorView>(number),
            Err(e) => number_of(value@) == Err::<Option<i64>, ErrorView>(e@),
        },
{
    match remove_comma(value, String::new()) {
        Ok(Some(digits)) => match parse_i64(digits.as_str()) {
            Some(number) => Ok(Some(number)),
            None => Err(Error::ParseError),
        },
        Ok(None) => Ok(None),
        Err(e) => Err(e),
    }
}

/// The value that a value with its text stands for, if the text holds a
/// number.
pub open spec fn datum_of(raw: BeaDatumRawView, number: i64) -> BeaDatumView {
    BeaDatumView {
        code: raw.code,
        geo_fips: raw.geo_fips,
        geo_name: raw.geo_name,
        time_period: raw.time_period,
        description: raw.description,
        cl_unit: raw.cl_unit,
        unit_mult: raw.unit_mult,
        data_value: number,
    }
}

/// The values that the values with their texts stand for: those whose text
/// holds a number, in their order. One text that cannot be read spoils all.
pub open spec fn data_of(raw: Seq<BeaDatumRawView>) -> Result<Seq<BeaDatumView>, ErrorView>
    decreases raw.len(),
{
    if raw.len() == 0 {
        Ok(Seq::empty())
    } else {
        match data_of(raw.drop_last()) {
            Err(e) => Err(e),
            Ok(before) => match number_of(raw.last().data_value) {
                Err(e) => Err(e),
                Ok(Some(number)) => Ok(before.push(datum_of(raw.last(), number))),
                Ok(None) => Ok(before),
            },
        }
    }
}

/// What a value shows under a key: the year under `year`, the line code
/// under `code`, the code of the place under `fips`, its name under
/// `location`, and what the line tells under `description`. Another key
/// shows nothing.
pub open spec fn shown(datum: BeaDatumView, key: Seq<char>) -> Option<Seq<char>> {
    if key == "year"@ {
        Some(number_text(datum.time_period as int))
    } else if key == "code"@ {
        Some(datum.code)
    } else if key == "fips"@ {
        Some(number_text(datum.geo_fips as int))
    } else if key == "location"@ {
        Some(datum.geo_name)
    } else if key == "description"@ {
        Some(datum.description)
    } else {
        None
    }
}

/// The values that show one of the given texts under a key, in their order.
pub open spec fn filtered(data: Seq<BeaDatumView>, key: Seq<char>, tests: Seq<Seq<char>>) -> Seq<
    BeaDatumView,
>
    decreases data.len(),
{
    if data.len() == 0 {
        Seq::empty()
    } else {
        let before = filtered(data.drop_last(), key, tests);
        match shown(data.last(), key) {
            Some(text) => if tests.contains(text) {
                before.push(data.last())
            } else {
                before
            },
            None => before,
        }
    }
}

/// The line codes of the values, in their order.
pub open spec fn codes_of(data: Seq<BeaDatumView>) -> Seq<Seq<char>> {
    Seq::new(data.len(), |i: int| data[i].code)
}

/// The codes of the places of the values, in their order.
pub open spec fn fips_of(data: Seq<BeaDatumView>) -> Seq<i32> {
    Seq::new(data.len(), |i: int| data[i].geo_fips)
}

/// The years of the values, in their order.
pub open spec fn years_of(data: Seq<BeaDatumView>) -> Seq<i32> {
    Seq::new(data.len(), |i: int| data[i].time_period)
}

/// The place of the first value with the given line code, or the number of
/// values where none has it.
pub open spec fn first_with_code(data: Seq<BeaDatumView>, code: Seq<char>) -> int
    decreases data.len(),
{
    if data.len() == 0 {
        0
    } else if data.first().code == code {
        0
    } else {
        1 + first_with_code(data.drop_first(), code)
    }
}

/// The place of the first value with the given code of a place, or the
/// number of values where none has it.
pub open spec fn first_with_fips(data: Seq<BeaDatumView>, fips: i32) -> int
    decreases data.len(),
{
    if data.len() == 0 {
        0
    } else if data.first().geo_fips == fips {
        0
    } else {
        1 + first_with_fips(data.drop_first(), fips)
    }
}

/// Where no value before a place has the line code, the first that has it is
/// not before that place.
pub proof fn lemma_first_with_code(data: Seq<BeaDatumView>, code: Seq<char>, i: int)
    requires
        0 <= i <= data.len(),
        forall|k: int| 0 <= k < i ==> data[k].code != code,
    ensures
        0 <= first_with_code(data, code) <= data.len(),
        i < data.len() && data[i].code == code ==> first_with_code(data, code) == i,
        i == data.len() ==> first_with_code(data, code) == i,
    decreases data.len(),
{
    if data.len() > 0 {
        let rest = data.drop_first();
        if i > 0 {
            assert(data[0].code != code);
            assert forall|k: int| 0 <= k < i - 1 implies rest[k].code != code by {
                assert(rest[k] == data[k + 1]);
            }
            lemma_first_with_code(rest, code, i - 1);
            if i < data.len() {
                assert(rest[i - 1] == data[i]);
            }
        } else {
            lemma_first_with_code(rest, code, 0);
        }
    }
}

/// Where no value before a place has the code of a place, the first that has
/// it is not before that place.
pub proof fn lemma_first_with_fips(data: Seq<BeaDatumView>, fips: i32, i: int)
    requires
        0 <= i <= data.len(),
        forall|k: int| 0 <= k < i ==> data[k].geo_fips != fips,
    ensures
        0 <= first_with_fips(data, fips) <= data.len(),
        i < data.len() && data[i].geo_fips == fips ==> first_with_fips(data, fips) == i,
        i == data.len() ==> first_with_fips(data, fips) == i,
    decreases data.len(),
{
    if data.len() > 0 {
        let rest = data.drop_first();
        if i > 0 {
            assert(data[0].geo_fips != fips);
            assert forall|k: int| 0 <= k < i - 1 implies rest[k].geo_fips != fips by {
                assert(rest[k] == data[k + 1]);
            }
            lemma_first_with_fips(rest, fips, i - 1);
            if i < data.len() {
                assert(rest[i - 1] == data[i]);
            }
        } else {
            lemma_first_with_fips(rest, fips, 0);
        }
    }
}

impl BeaColumns {
    /// The title of the column.
    pub open spec fn label(self) -> Seq<char> {
        match self {
            BeaColumns::Code => "Code"@,
            BeaColumns::GeoFips => "Fips"@,
            BeaColumns::GeoName => "Name"@,
            BeaColumns::TimePeriod => "Year"@,
            BeaColumns::Description => "Description"@,
            BeaColumns::Unit => "Unit"@,
            BeaColumns::Value => "Value"@,
        }
    }

    /// The columns, in their order.
    pub open spec fn all() -> Seq<BeaColumns> {
        seq![
            BeaColumns::Code,
            BeaColumns::GeoFips,
            BeaColumns::GeoName,
            BeaColumns::TimePeriod,
            BeaColumns::Description,
            BeaColumns::Unit,
            BeaColumns::Value,
        ]
    }

    /// The title of the column.
    pub fn to_string(&self) -> (r: String)
        ensures
            r@ == self.label(),
    {
        match self {
            BeaColumns::Code => "Code".to_owned(),
            BeaColumns::GeoFips => "Fips".to_owned(),
            BeaColumns::GeoName => "Name".to_owned(),
            BeaColumns::TimePeriod => "Year".to_owned(),
            BeaColumns::Description => "Description".to_owned(),
            BeaColumns::Unit => "Unit".to_owned(),
            BeaColumns::Value => "Value".to_owned(),
        }
    }

    /// The columns, in their order.
    pub fn iter() -> (r: Vec<BeaColumns>)
        ensures
            r@ == BeaColumns::all(),
    {
        let mut r: Vec<BeaColumns> = Vec::new();
        r.push(BeaColumns::Code);
        r.push(BeaColumns::GeoFips);
        r.push(BeaColumns::GeoName);
        r.push(BeaColumns::TimePeriod);
        r.push(BeaColumns::Description);
        r.push(BeaColumns::Unit);
        r.push(BeaColumns::Value);
        assert(r@ =~= BeaColumns::all());
        r
    }

    /// The titles of the columns, in their order.
    pub fn names() -> (r: Vec<String>)
        ensures
            texts(r@) == Seq::new(7, |i: int| BeaColumns::all()[i].label()),
    {
        let columns = BeaColumns::iter();
        let mut r: Vec<String> = Vec::new();
        let mut i: usize = 0;
        while i < columns.len()
            invariant
                i <= columns.len(),
                columns@ == BeaColumns::all(),
                r@.len() == i,
                forall|k: int| 0 <= k < i ==> (#[trigger] r@[k])@ == BeaColumns::all()[k].label(),
            decreases columns.len() - i,
        {
            r.push(columns[i].to_string());
            i = i + 1;
        }
        assert(texts(r@) =~= Seq::new(7, |i: int| BeaColumns::all()[i].label()));
        r
    }
}

impl BeaDatum {
    /// What the value shows in a column.
    pub open spec fn cell(datum: BeaDatumView, column: BeaColumns) -> Seq<char> {
        match column {
            BeaColumns::Code => datum.code,
            BeaColumns::GeoFips => number_text(datum.geo_fips as int),
            BeaColumns::GeoName => datum.geo_name,
            BeaColumns::TimePeriod => number_text(datum.time_period as int),
            BeaColumns::Description => datum.description,
            BeaColumns::Unit => datum.cl_unit,
            BeaColumns::Value => number_text(datum.data_value as int),
        }
    }

    /// The line code.
    pub fn code(&self) -> (r: String)
        ensures
            r@ == self@.code,
    {
        self.code.clone()
    }

    /// The code of the place.
    pub fn geo_fips(&self) -> (r: i32)
        ensures
            r == self@.geo_fips,
    {
        self.geo_fips
    }

    /// The name of the place.
    pub fn geo_name(&self) -> (r: String)
        ensures
            r@ == self@.geo_name,
    {
        self.geo_name.clone()
    }

    /// The name of the place.
    pub fn geo_name_ref(&self) -> (r: &String)
        ensures
            r@ == self@.geo_name,
    {
        &self.geo_name
    }

    /// The year.
    pub fn time_period(&self) -> (r: i32)
        ensures
            r == self@.time_period,
    {
        self.time_period
    }

    /// What the line tells.
    pub fn description(&self) -> (r: String)
        ensures
            r@ == self@.description,
    {
        self.description.clone()
    }

    /// The value.
    pub fn data_value(&self) -> (r: i64)
        ensures
            r == self@.data_value,
    {
        self.data_value
    }

    /// The titles of the columns, in their order.
    pub fn names() -> (r: Vec<String>)
        ensures
            texts(r@) == Seq::new(7, |i: int| BeaColumns::all()[i].label()),
    {
        BeaColumns::names()
    }

    /// What the value shows in each column, in the order of the columns.
    pub fn columns(&self) -> (r: Vec<String>)
        ensures
            texts(r@) == Seq::new(7, |i: int| BeaDatum::cell(self@, BeaColumns::all()[i])),
    {
        let columns = BeaColumns::iter();
        let mut values: Vec<String> = Vec::new();
        let mut i: usize = 0;
        while i < columns.len()
            invariant
                i <= columns.len(),
                columns@ == BeaColumns::all(),
                values@.len() == i,
                forall|k: int|
                    0 <= k < i ==> (#[trigger] values@[k])@ == BeaDatum::cell(
                        self@,
                        BeaColumns::all()[k],
                    ),
            decreases columns.len() - i,
        {
            match columns[i] {
                BeaColumns::Code => values.push(self.code.clone()),
                BeaColumns::GeoFips => values.push(write_i64(self.geo_fips as i64)),
                BeaColumns::GeoName => values.push(self.geo_name.clone()),
                BeaColumns::TimePeriod => values.push(write_i64(self.time_period as i64)),
                BeaColumns::Description => values.push(self.description.clone()),
                BeaColumns::Unit => values.push(self.cl_unit.clone()),
                BeaColumns::Value => values.push(write_i64(self.data_value)),
            }
            i = i + 1;
        }
        assert(texts(values@) =~= Seq::new(
            7,
            |i: int| BeaDatum::cell(self@, BeaColumns::all()[i]),
        ));
        values
    }

    /// What the value shows under a key.
    pub fn shown(&self, key: &str) -> (r: Option<String>)
        ensures
            opt_text(r) == shown(self@, key@),
    {
        if same(key, "year") {
            Some(write_i64(self.time_period as i64))
        } else if same(key, "code") {
            Some(self.code.clone())
        } else if same(key, "fips") {
            Some(write_i64(self.geo_fips as i64))
        } else if same(key, "location") {
            Some(self.geo_name.clone())
        } else if same(key, "description") {
            Some(self.description.clone())
        } else {
            None
        }
    }
}

impl BeaDataRaw {
    /// A copy of the values of the list.
    pub fn records(&self) -> (r: Vec<BeaDatumRaw>)
        ensures
            BeaDataRaw(r)@ == self@,
    {
        self.clone().0
    }

    /// The values of the list.
    pub fn records_ref(&self) -> (r: &Vec<BeaDatumRaw>)
        ensures
            *r == self.0,
    {
        &self.0
    }

    /// The values of the list, to be changed.
    pub fn records_mut(&mut self) -> (r: &mut Vec<BeaDatumRaw>)
        ensures
            *r == old(self).0,
            final(self).0 == *final(r),
    {
        &mut self.0
    }
}

impl BeaData {
    /// A copy of the values of the list.
    pub fn records(&self) -> (r: Vec<BeaDatum>)
        ensures
            BeaData(r)@ == self@,
    {
        self.clone().0
    }

    /// The values of the list.
    pub fn records_ref(&self) -> (r: &Vec<BeaDatum>)
        ensures
            *r == self.0,
    {
        &self.0
    }

    /// The values of the list, to be changed.
    pub fn records_mut(&mut self) -> (r: &mut Vec<BeaDatum>)
        ensures
            *r == old(self).0,
            final(self).0 == *final(r),
    {
        &mut self.0
    }

    /// The values that a table of values with their texts stands for: those
    /// whose text holds a number, in their order.
    pub fn try_from(raw: &BeaDataRaw) -> (r: Result<Self, Error>)
        ensures
            match r {
                Ok(data) => data_of(raw@) == Ok::<Seq<BeaDatumView>, ErrorView>(data@),
                Err(e) => data_of(raw@) == Err::<Seq<BeaDatumView>, ErrorView>(e@),
            },
    {
        let mut res: Vec<BeaDatum> = Vec::new();
        let mut i: usize = 0;
        assert(BeaData(res)@ =~= Seq::<BeaDatumView>::empty());
        while i < raw.0.len()
            invariant
                i <= raw.0.len(),
                data_of(raw@.take(i as int)) == Ok::<Seq<BeaDatumView>, ErrorView>(BeaData(res)@),
            decreases raw.0.len() - i,
        {
            let ghost before = BeaData(res)@;
            assert(raw@.take(i + 1).drop_last() =~= raw@.take(i as int));
            let record = &raw.0[i];
            match str_to_int(record.data_value.as_str()) {
                Ok(Some(num)) => {
                    res.push(
                        BeaDatum {
                            code: record.code.clone(),
                            geo_fips: record.geo_fips,
                            geo_name: record.geo_name.clone(),
                            time_period: record.time_period,
                            description: record.description.clone(),
                            cl_unit: record.cl_unit.clone(),
                            unit_mult: record.unit_mult,
                            data_value: num,
                        },
                    );
                    assert(BeaData(res)@ =~= before.push(datum_of(raw@[i as int], num)));
                },
                Ok(None) => {
                    assert(BeaData(res)@ =~= before);
                },
                Err(e) => {
                    proof {
                        lemma_data_of_fails(raw@, i as int);
                    }
                    return Err(e);
                },
            }
            i = i + 1;
        }
        assert(raw@.take(i as int) =~= raw@);
        Ok(BeaData(res))
    }

    /// The line codes of the values, in ascending order and each once.
    pub fn linecode_keys(&self) -> (r: Vec<String>)
        ensures
            texts_ascend(texts(r@)),
            same_values(texts(r@), codes_of(self@)),
    {
        let mut keys: Vec<String> = Vec::new();
        let mut i: usize = 0;
        while i < self.0.len()
            invariant
                i <= self.0.len(),
                keys@.len() == i,
                forall|k: int| 0 <= k < i ==> (#[trigger] keys@[k])@ == self@[k].code,
            decreases self.0.len() - i,
        {
            keys.push(self.0[i].code());
            i = i + 1;
        }
        assert(texts(keys@) =~= codes_of(self@));
        sorted_texts(keys)
    }

    /// For each line code what the first value with that code tells: the
    /// codes in ascending order, each with that description.
    pub fn linecode_btree(&self) -> (r: Vec<(String, String)>)
        ensures
            texts_ascend(Seq::new(r@.len(), |i: int| r@[i].0@)),
            same_values(Seq::new(r@.len(), |i: int| r@[i].0@), codes_of(self@)),
            forall|i: int|
                0 <= i < r@.len() ==> first_with_code(self@, (#[trigger] r@[i]).0@) < self@.len()
                    && r@[i].1@ == self@[first_with_code(self@, r@[i].0@)].description,
    {
        let keys = self.linecode_keys();
        let mut tree: Vec<(String, String)> = Vec::new();
        let mut i: usize = 0;
        while i < keys.len()
            invariant
                i <= keys.len(),
                tree@.len() == i,
                same_values(texts(keys@), codes_of(self@)),
                forall|k: int| 0 <= k < i ==> (#[trigger] tree@[k]).0@ == keys@[k]@,
                forall|k: int|
                    0 <= k < i ==> first_with_code(self@, (#[trigger] tree@[k]).0@) < self@.len()
                        && tree@[k].1@ == self@[first_with_code(self@, tree@[k].0@)].description,
            decreases keys.len() - i,
        {
            let mut j: usize = 0;
            let mut description: Option<String> = None;
            while j < self.0.len() && description.is_none()
                invariant
                    j <= self.0.len(),
                    i < keys.len(),
                    forall|k: int|
                        0 <= k < j && description is None ==> self@[k].code != keys@[i as int]@,
                    description is Some ==> first_with_code(self@, keys@[i as int]@) < self@.len()
                        && description->Some_0@ == self@[first_with_code(
                        self@,
                        keys@[i as int]@,
                    )].description,
                decreases self.0.len() - j + (if description is None { 1int } else { 0int }),
            {
                if self.0[j].code == keys[i] {
                    proof {
                        lemma_first_with_code(self@, keys@[i as int]@, j as int);
                    }
                    description = Some(self.0[j].description());
                } else {
                    j = j + 1;
                }
            }
            match description {
                Some(text) => tree.push((keys[i].clone(), text)),
                None => {
                    proof {
                        assert(texts(keys@)[i as int] == keys@[i as int]@);
                        assert(codes_of(self@).contains(keys@[i as int]@));
                        let k = choose|k: int|
                            0 <= k < codes_of(self@).len() && codes_of(self@)[k] == keys@[i as int]@;
                        assert(self@[k].code == keys@[i as int]@);
                    }
                    tree.push((keys[i].clone(), String::new()));
                },
            }
            i = i + 1;
        }
        assert(Seq::new(tree@.len(), |i: int| tree@[i].0@) =~= texts(keys@));
        tree
    }

    /// For each line code what the first value with that code tells.
    pub fn linecode_hash(&self) -> (r: Vec<(String, String)>)
        ensures
            texts_ascend(Seq::new(r@.len(), |i: int| r@[i].0@)),
            same_values(Seq::new(r@.len(), |i: int| r@[i].0@), codes_of(self@)),
            forall|i: int|
                0 <= i < r@.len() ==> first_with_code(self@, (#[trigger] r@[i]).0@) < self@.len()
                    && r@[i].1@ == self@[first_with_code(self@, r@[i].0@)].description,
    {
        self.linecode_btree()
    }

    /// The codes of the places of the values, in ascending order and each
    /// once.
    pub fn geofips_keys(&self) -> (r: Vec<i32>)
        ensures
            numbers_ascend(r@),
            same_values(r@, fips_of(self@)),
    {
        let mut keys: Vec<i32> = Vec::new();
        let mut i: usize = 0;
        while i < self.0.len()
            invariant
                i <= self.0.len(),
                keys@.len() == i,
                forall|k: int| 0 <= k < i ==> #[trigger] keys@[k] == self@[k].geo_fips,
            decreases self.0.len() - i,
        {
            keys.push(self.0[i].geo_fips());
            i = i + 1;
        }
        assert(keys@ =~= fips_of(self@));
        sorted_numbers(keys)
    }

    /// For each code of a place the name that the first value with that code
    /// gives it: the codes in ascending order, each with that name.
    pub fn geofips_btree(&self) -> (r: Vec<(i32, String)>)
        ensures
            numbers_ascend(Seq::new(r@.len(), |i: int| r@[i].0)),
            same_values(Seq::new(r@.len(), |i: int| r@[i].0), fips_of(self@)),
            forall|i: int|
                0 <= i < r@.len() ==> first_with_fips(self@, (#[trigger] r@[i]).0) < self@.len()
                    && r@[i].1@ == self@[first_with_fips(self@, r@[i].0)].geo_name,
    {
        let keys = self.geofips_keys();
        let mut tree: Vec<(i32, String)> = Vec::new();
        let mut i: usize = 0;
        while i < keys.len()
            invariant
                i <= keys.len(),
                tree@.len() == i,
                same_values(keys@, fips_of(self@)),
                forall|k: int| 0 <= k < i ==> (#[trigger] tree@[k]).0 == keys@[k],
                forall|k: int|
                    0 <= k < i ==> first_with_fips(self@, (#[trigger] tree@[k]).0) < self@.len()
                        && tree@[k].1@ == self@[first_with_fips(self@, tree@[k].0)].geo_name,
            decreases keys.len() - i,
        {
            let mut j: usize = 0;
            let mut name: Option<String> = None;
            while j < self.0.len() && name.is_none()
                invariant
                    j <= self.0.len(),
                    i < keys.len(),
                    forall|k: int| 0 <= k < j && name is None ==> self@[k].geo_fips != keys@[i as int],
                    name is Some ==> first_with_fips(self@, keys@[i as int]) < self@.len()
                        && name->Some_0@ == self@[first_with_fips(self@, keys@[i as int])].geo_name,
                decreases self.0.len() - j + (if name is None { 1int } else { 0int }),
            {
                if self.0[j].geo_fips == keys[i] {
                    proof {
                        lemma_first_with_fips(self@, keys@[i as int], j as int);
                    }
                    name = Some(self.0[j].geo_name());
                } else {
                    j = j + 1;
                }
            }
            match name {
                Some(text) => tree.push((keys[i], text)),
                None => {
                    proof {
                        assert(keys@.contains(keys@[i as int]));
                        assert(fips_of(self@).contains(keys@[i as int]));
                        let k = choose|k: int|
                            0 <= k < fips_of(self@).len() && fips_of(self@)[k] == keys@[i as int];
                        assert(self@[k].geo_fips == keys@[i as int]);
                    }
                    tree.push((keys[i], String::new()));
                },
            }
            i = i + 1;
        }
        assert(Seq::new(tree@.len(), |i: int| tree@[i].0) =~= keys@);
        tree
    }

    /// For each code of a place the name that the first value with that code
    /// gives it.
    pub fn geofips_hash(&self) -> (r: Vec<(i32, String)>)
        ensures
            numbers_ascend(Seq::new(r@.len(), |i: int| r@[i].0)),
            same_values(Seq::new(r@.len(), |i: int| r@[i].0), fips_of(self@)),
            forall|i: int|
                0 <= i < r@.len() ==> first_with_fips(self@, (#[trigger] r@[i]).0) < self@.len()
                    && r@[i].1@ == self@[first_with_fips(self@, r@[i].0)].geo_name,
    {
        self.geofips_btree()
    }

    /// The years of the values, in ascending order and each once.
    pub fn time_period_keys(&self) -> (r: Vec<i32>)
        ensures
            numbers_ascend(r@),
            same_values(r@, years_of(self@)),
    {
        let mut keys: Vec<i32> = Vec::new();
        let mut i: usize = 0;
        while i < self.0.len()
            invariant
                i <= self.0.len(),
                keys@.len() == i,
                forall|k: int| 0 <= k < i ==> #[trigger] keys@[k] == self@[k].time_period,
            decreases self.0.len() - i,
        {
            keys.push(self.0[i].time_period());
            i = i + 1;
        }
        assert(keys@ =~= years_of(self@));
        sorted_numbers(keys)
    }

    /// The values that show the given text under a key, in their order:
    /// the year under `year`, the line code under `code`, the code of the
    /// place under `fips`, its name under `location`, and what the line tells
    /// under `description`. Under another key there are none.
    pub fn filter(&self, filter: &str, test: &str) -> (r: Self)
        ensures
            r@ == filtered(self@, filter@, seq![test@]),
    {
        let mut tests: Vec<String> = Vec::new();
        tests.push(test.to_owned());
        assert(texts(tests@) =~= seq![test@]);
        self.filter_many(filter, &tests)
    }

    /// The values that show one of the given texts under a key, in their
    /// order.
    pub fn filter_many(&self, filter: &str, test: &Vec<String>) -> (r: Self)
        ensures
            r@ == filtered(self@, filter@, texts(test@)),
    {
        let mut records: Vec<BeaDatum> = Vec::new();
        let mut i: usize = 0;
        while i < self.0.len()
            invariant
                i <= self.0.len(),
                BeaData(records)@ == filtered(self@.take(i as int), filter@, texts(test@)),
            decreases self.0.len() - i,
        {
            let ghost before = BeaData(records)@;
            assert(self@.take(i + 1).drop_last() =~= self@.take(i as int));
            let found = match self.0[i].shown(filter) {
                Some(text) => contains_text(test, &text),
                None => false,
            };
            if found {
                records.push(self.0[i].clone());
                assert(BeaData(records)@ =~= before.push(self@[i as int]));
            } else {
                assert(BeaData(records)@ =~= before);
            }
            i = i + 1;
        }
        assert(self@.take(i as int) =~= self@);
        BeaData(records)
    }

    /// The values of a year, a line code and a place.
    pub fn search(&self, year: &str, code: &str, fips: &str) -> (r: Self)
        ensures
            r@ == filtered(
                filtered(filtered(self@, "year"@, seq![year@]), "code"@, seq![code@]),
                "fips"@,
                seq![fips@],
            ),
    {
        self.filter("year", year).filter("code", code).filter("fips", fips)
    }

    /// The titles of the columns, in their order.
    pub fn names() -> (r: Vec<String>)
        ensures
            texts(r@) == Seq::new(7, |i: int| BeaColumns::all()[i].label()),
    {
        BeaColumns::names()
    }

    /// The table of the given values.
    pub fn from(records: Vec<BeaDatum>) -> (r: Self)
        ensures
            r.0 == records,
    {
        BeaData(records)
    }
}

/// Where a text cannot be read, the whole table cannot, with the same error.
pub proof fn lemma_data_of_fails(raw: Seq<BeaDatumRawView>, i: int)
    requires
        0 <= i < raw.len(),
        data_of(raw.take(i)) is Ok,
        number_of(raw[i].data_value) is Err,
    ensures
        data_of(raw) == Err::<Seq<BeaDatumView>, ErrorView>(number_of(raw[i].data_value)->Err_0),
    decreases raw.len() - i,
{
    assert(raw.take(i + 1).drop_last() =~= raw.take(i));
    assert(raw.take(i + 1).last() == raw[i]);
    lemma_data_of_stays_failed(raw, i + 1);
}

/// Once a part of a table cannot be read, no longer part can.
pub proof fn lemma_data_of_stays_failed(raw: Seq<BeaDatumRawView>, n: int)
    requires
        0 <= n <= raw.len(),
        data_of(raw.take(n)) is Err,
    ensures
        data_of(raw) == data_of(raw.take(n)),
    decreases raw.len() - n,
{
    if n < raw.len() {
        assert(raw.take(n + 1).drop_last() =~= raw.take(n));
        lemma_data_of_stays_failed(raw, n + 1);
    } else {
        assert(raw.take(n) =~= raw);
    }
}

} // verus!
