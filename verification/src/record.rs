//! The attributes that come with a shape: a record of named fields, as a
//! table of attributes holds one for each shape.
use vstd::prelude::*;

verus! {

/// The value of one field.
#[derive(Debug, Clone, PartialEq, Eq)]
pub enum FieldValue {
    /// A text, if the field holds one.
    Character(Option<String>),
    /// A number, if the field holds one: its whole part, cut off towards
    /// zero and held within the range of `i64`.
    Numeric(Option<i64>),
    /// A value of another kind.
    Other,
}

/// One field: its name and its value.
#[derive(Debug, Clone, PartialEq, Eq)]
pub struct Field {
    /// The name of the field.
    pub name: String,
    /// The value of the field.
    pub value: FieldValue,
}

/// A record: its fields. Of two fields with one name the first is found.
#[derive(Debug, Clone, PartialEq, Eq)]
pub struct Record {
    /// The fields of the record.
    pub fields: Vec<Field>,
}

/// The place of the first field with the given name, or the number of
/// fields where there is none.
pub open spec fn position_of(fields: Seq<Field>, name: Seq<char>) -> int
    decreases fields.len(),
{
    if fields.len() == 0 {
        0
    } else if fields.first().name@ == name {
        0
    } else {
        1 + position_of(fields.drop_first(), name)
    }
}

/// The value of the first field with the given name.
pub open spec fn value_of(fields: Seq<Field>, name: Seq<char>) -> Option<FieldValue> {
    if 0 <= position_of(fields, name) < fields.len() {
        Some(fields[position_of(fields, name)].value)
    } else {
        None
    }
}

/// The text under the given name: there is one where the record has a field
/// of that name which holds a text.
pub open spec fn text_of(fields: Seq<Field>, name: Seq<char>) -> Option<Seq<char>> {
    match value_of(fields, name) {
        Some(FieldValue::Character(Some(text))) => Some(text@),
        _ => None,
    }
}

/// The number under the given name: there is one where the record has a
/// field of that name which holds a number.
pub open spec fn number_of(fields: Seq<Field>, name: Seq<char>) -> Option<i64> {
    match value_of(fields, name) {
        Some(FieldValue::Numeric(Some(number))) => Some(number),
        _ => None,
    }
}

/// The number, held within the range of `i8`.
pub open spec fn within_i8(number: i64) -> i8 {
    if number < -128 {
        -128i8
    } else if number > 127 {
        127i8
    } else {
        number as i8
    }
}

/// The number, held within the range of `i16`.
pub open spec fn within_i16(number: i64) -> i16 {
    if number < -32768 {
        -32768i16
    } else if number > 32767 {
        32767i16
    } else {
        number as i16
    }
}

/// The number, held within the range of `i8`.
pub fn to_i8(number: i64) -> (r: i8)
    ensures
        r == within_i8(number),
{
    if number < -128 {
        -128
    } else if number > 127 {
        127
    } else {
        number as i8
    }
}

/// The number, held within the range of `i16`.
pub fn to_i16(number: i64) -> (r: i16)
    ensures
        r == within_i16(number),
{
    if number < -32768 {
        -32768
    } else if number > 32767 {
        32767
    } else {
        number as i16
    }
}

/// The first position is in range exactly when a field has the name, and no
/// field before it has.
pub proof fn lemma_position_of(fields: Seq<Field>, name: Seq<char>)
    ensures
        0 <= position_of(fields, name) <= fields.len(),
        position_of(fields, name) < fields.len() ==> fields[position_of(fields, name)].name@
            == name,
        forall|i: int| 0 <= i < position_of(fields, name) ==> fields[i].name@ != name,
    decreases fields.len(),
{
    if fields.len() > 0 && fields.first().name@ != name {
        let rest = fields.drop_first();
        lemma_position_of(rest, name);
        assert forall|i: int| 0 <= i < position_of(fields, name) implies fields[i].name@
            != name by {
            if i > 0 {
                assert(fields[i] == rest[i - 1]);
            }
        }
    }
}

impl Record {
    /// The record with the given fields.
    pub fn new(fields: Vec<Field>) -> (r: Self)
        ensures
            r.fields@ == fields@,
    {
        Record { fields }
    }

    /// The value of the first field with the given name.
    pub fn get(&self, name: &str) -> (r: Option<&FieldValue>)
        ensures
            match r {
                Some(value) => value_of(self.fields@, name@) == Some(*value),
                None => value_of(self.fields@, name@) is None,
            },
    {
        let wanted = name.to_owned();
        let mut i: usize = 0;
        while i < self.fields.len()
            invariant
                i <= self.fields.len(),
                wanted@ == name@,
                forall|k: int| 0 <= k < i ==> self.fields@[k].name@ != name@,
            decreases self.fields.len() - i,
        {
            if self.fields[i].name == wanted {
                proof {
                    lemma_position_of(self.fields@, name@);
                }
                return Some(&self.fields[i].value);
            }
            i = i + 1;
        }
        proof {
            lemma_position_of(self.fields@, name@);
        }
        None
    }
}

} // verus!
