//! Decoding what the server sends: from a typed server value and the type
//! name that the server reports for its column, to a dynamic value.
//!
//! Decoding never fails. A value that does not fit the class of its column, a
//! SQL null, and a moment in time that cannot be written down all decode to
//! `Null`, so that one exotic column never hides the rest of a row.

use vstd::prelude::*;
use crate::db::formats::{
    format_date, format_time, format_timestamp, format_timestamptz, format_uuid, naive_date_text,
    naive_datetime_text, naive_time_text, rfc3339_utc, uuid_text,
};
use crate::text::{owned, same_text, text_of};
use crate::types::value::{finite_bits, Dynamic, DynamicValue};

verus! {

/// A value as the driver hands it over, before it is decoded.
#[derive(Debug)]
#[allow(inconsistent_fields)]
pub enum ServerValue {
    /// SQL null, or a value that the driver could not read.
    Null,
    SmallInt(i16),
    Int(i32),
    BigInt(i64),
    /// A floating-point or decimal number, as the bits of a double.
    Float(u64),
    Bool(bool),
    Text(String),
    /// A moment in time: seconds since 1970-01-01T00:00:00Z and the
    /// nanoseconds into that second.
    TimestampTz { secs: i64, nanos: u32 },
    /// A date and time of day without a zone, counted like a moment in UTC.
    Timestamp { secs: i64, nanos: u32 },
    /// A calendar date: days since 0000-12-31 of the proleptic Gregorian
    /// calendar, so that day 1 is 0001-01-01.
    Date { days: i32 },
    /// A time of day: seconds since midnight and nanoseconds into the second.
    Time { secs: u32, nanos: u32 },
    /// A UUID as one 128-bit number, most significant byte first.
    Uuid(u128),
    /// A JSON document, already in its own structure.
    Json(DynamicValue),
}

/// One column of one row.
#[derive(Debug)]
pub struct ServerCell {
    pub name: String,
    /// The server's own name for the column's type, such as `INT4`.
    pub type_tag: String,
    pub value: ServerValue,
}

/// One row of a result, its cells in column order.
#[derive(Debug)]
pub struct ServerRow {
    pub cells: Vec<ServerCell>,
}

/// The classes of server types that are decoded alike.
#[derive(Debug, Clone, Copy, PartialEq, Eq, Structural)]
pub enum TypeClass {
    Integer,
    Float,
    Bool,
    Text,
    TimestampTz,
    Timestamp,
    Date,
    Time,
    Uuid,
    Json,
    /// Any type that is not listed: read as text if it can be.
    Other,
}

/// The class of each type name. This table is the whole mapping policy.
pub open spec fn type_class(tag: Seq<char>) -> TypeClass {
    if tag == "INT2"@ || tag == "INT4"@ || tag == "INT8"@ {
        TypeClass::Integer
    } else if tag == "FLOAT4"@ || tag == "FLOAT8"@ || tag == "NUMERIC"@ {
        TypeClass::Float
    } else if tag == "BOOL"@ {
        TypeClass::Bool
    } else if tag == "TEXT"@ || tag == "VARCHAR"@ || tag == "CHAR"@ || tag == "NAME"@ {
        TypeClass::Text
    } else if tag == "TIMESTAMPTZ"@ {
        TypeClass::TimestampTz
    } else if tag == "TIMESTAMP"@ {
        TypeClass::Timestamp
    } else if tag == "DATE"@ {
        TypeClass::Date
    } else if tag == "TIME"@ {
        TypeClass::Time
    } else if tag == "UUID"@ {
        TypeClass::Uuid
    } else if tag == "JSON"@ || tag == "JSONB"@ {
        TypeClass::Json
    } else {
        TypeClass::Other
    }
}

/// Finds the class of a type name.
pub fn classify_type(type_tag: &str) -> (class: TypeClass)
    ensures
        class == type_class(type_tag@),
{
    if same_text(type_tag, "INT2") || same_text(type_tag, "INT4") || same_text(
        type_tag,
        "INT8",
    ) {
        TypeClass::Integer
    } else if same_text(type_tag, "FLOAT4") || same_text(type_tag, "FLOAT8") || same_text(
        type_tag,
        "NUMERIC",
    ) {
        TypeClass::Float
    } else if same_text(type_tag, "BOOL") {
        TypeClass::Bool
    } else if same_text(type_tag, "TEXT") || same_text(type_tag, "VARCHAR") || same_text(
        type_tag,
        "CHAR",
    ) || same_text(type_tag, "NAME") {
        TypeClass::Text
    } else if same_text(type_tag, "TIMESTAMPTZ") {
        TypeClass::TimestampTz
    } else if same_text(type_tag, "TIMESTAMP") {
        TypeClass::Timestamp
    } else if same_text(type_tag, "DATE") {
        TypeClass::Date
    } else if same_text(type_tag, "TIME") {
        TypeClass::Time
    } else if same_text(type_tag, "UUID") {
        TypeClass::Uuid
    } else if same_text(type_tag, "JSON") || same_text(type_tag, "JSONB") {
        TypeClass::Json
    } else {
        TypeClass::Other
    }
}

/// The kind of value to ask the driver for, for a column of a given type.
#[derive(Debug, Clone, Copy, PartialEq, Eq, Structural)]
pub enum ReadAs {
    SmallInt,
    Int,
    BigInt,
    /// A single-precision number, to be widened to a double.
    Single,
    Double,
    Bool,
    Text,
    TimestampTz,
    Timestamp,
    Date,
    Time,
    Uuid,
    Json,
}

/// The kind of value that is read for each type name: the kind that the
/// type's class decodes, in the width that the type has.
pub open spec fn read_kind(tag: Seq<char>) -> ReadAs {
    match type_class(tag) {
        TypeClass::Integer => if tag == "INT2"@ {
            ReadAs::SmallInt
        } else if tag == "INT4"@ {
            ReadAs::Int
        } else {
            ReadAs::BigInt
        },
        TypeClass::Float => if tag == "FLOAT4"@ {
            ReadAs::Single
        } else {
            ReadAs::Double
        },
        TypeClass::Bool => ReadAs::Bool,
        TypeClass::Text => ReadAs::Text,
        TypeClass::Other => ReadAs::Text,
        TypeClass::TimestampTz => ReadAs::TimestampTz,
        TypeClass::Timestamp => ReadAs::Timestamp,
        TypeClass::Date => ReadAs::Date,
        TypeClass::Time => ReadAs::Time,
        TypeClass::Uuid => ReadAs::Uuid,
        TypeClass::Json => ReadAs::Json,
    }
}

/// Says what to ask the driver for, for a column of a given type.
pub fn read_as(type_tag: &str) -> (kind: ReadAs)
    ensures
        kind == read_kind(type_tag@),
{
    match classify_type(type_tag) {
        TypeClass::Integer => if same_text(type_tag, "INT2") {
            ReadAs::SmallInt
        } else if same_text(type_tag, "INT4") {
            ReadAs::Int
        } else {
            ReadAs::BigInt
        },
        TypeClass::Float => if same_text(type_tag, "FLOAT4") {
            ReadAs::Single
        } else {
            ReadAs::Double
        },
        TypeClass::Bool => ReadAs::Bool,
        TypeClass::Text => ReadAs::Text,
        TypeClass::Other => ReadAs::Text,
        TypeClass::TimestampTz => ReadAs::TimestampTz,
        TypeClass::Timestamp => ReadAs::Timestamp,
        TypeClass::Date => ReadAs::Date,
        TypeClass::Time => ReadAs::Time,
        TypeClass::Uuid => ReadAs::Uuid,
        TypeClass::Json => ReadAs::Json,
    }
}

/// A text that may be missing, as a dynamic value.
pub open spec fn text_or_null(text: Option<Seq<char>>) -> Dynamic {
    match text {
        Some(t) => Dynamic::Text(t),
        None => Dynamic::Null,
    }
}

/// What a server value decodes to under a type name.
pub open spec fn decoded(value: ServerValue, tag: Seq<char>) -> Dynamic {
    match type_class(tag) {
        TypeClass::Integer => match value {
            ServerValue::SmallInt(i) => Dynamic::Integer(i as int),
            ServerValue::Int(i) => Dynamic::Integer(i as int),
            ServerValue::BigInt(i) => Dynamic::Integer(i as int),
            _ => Dynamic::Null,
        },
        TypeClass::Float => match value {
            ServerValue::Float(bits) => if finite_bits(bits) {
                Dynamic::Float(bits)
            } else {
                Dynamic::Null
            },
            _ => Dynamic::Null,
        },
        TypeClass::Bool => match value {
            ServerValue::Bool(b) => Dynamic::Bool(b),
            _ => Dynamic::Null,
        },
        TypeClass::Text | TypeClass::Other => match value {
            ServerValue::Text(s) => Dynamic::Text(s@),
            _ => Dynamic::Null,
        },
        TypeClass::TimestampTz => match value {
            ServerValue::TimestampTz { secs, nanos } => text_or_null(rfc3339_utc(secs, nanos)),
            _ => Dynamic::Null,
        },
        TypeClass::Timestamp => match value {
            ServerValue::Timestamp { secs, nanos } => text_or_null(
                naive_datetime_text(secs, nanos),
            ),
            _ => Dynamic::Null,
        },
        TypeClass::Date => match value {
            ServerValue::Date { days } => text_or_null(naive_date_text(days)),
            _ => Dynamic::Null,
        },
        TypeClass::Time => match value {
            ServerValue::Time { secs, nanos } => text_or_null(naive_time_text(secs, nanos)),
            _ => Dynamic::Null,
        },
        TypeClass::Uuid => match value {
            ServerValue::Uuid(v) => Dynamic::Text(uuid_text(v)),
            _ => Dynamic::Null,
        },
        TypeClass::Json => match value {
            ServerValue::Json(v) => v@,
            _ => Dynamic::Null,
        },
    }
}

/// What a moment, a date or a time decodes to, from the text that was
/// written for it: the text, or `Null` where there is none because the value
/// is out of the range that can be written.
pub fn text_value(text: Option<String>) -> (v: DynamicValue)
    ensures
        v@ == text_or_null(text_of(text)),
{
    match text {
        Some(t) => DynamicValue::Text(t),
        None => DynamicValue::Null,
    }
}

/// Whether the bits of a double are a finite number.
pub fn is_finite_bits(bits: u64) -> (finite: bool)
    ensures
        finite == finite_bits(bits),
{
    (bits >> 52) & 0x7ff != 0x7ff
}

/// Decodes one server value under the type name of its column.
pub fn decode_value(value: &ServerValue, type_tag: &str) -> (v: DynamicValue)
    ensures
        v@ == decoded(*value, type_tag@),
{
    match classify_type(type_tag) {
        TypeClass::Integer => match value {
            ServerValue::SmallInt(i) => DynamicValue::Integer(*i as i64),
            ServerValue::Int(i) => DynamicValue::Integer(*i as i64),
            ServerValue::BigInt(i) => DynamicValue::Integer(*i),
            _ => DynamicValue::Null,
        },
        TypeClass::Float => match value {
            ServerValue::Float(bits) => if is_finite_bits(*bits) {
                DynamicValue::Float(*bits)
            } else {
                DynamicValue::Null
            },
            _ => DynamicValue::Null,
        },
        TypeClass::Bool => match value {
            ServerValue::Bool(b) => DynamicValue::Bool(*b),
            _ => DynamicValue::Null,
        },
        TypeClass::Text | TypeClass::Other => match value {
            ServerValue::Text(s) => DynamicValue::Text(owned(s.as_str())),
            _ => DynamicValue::Null,
        },
        TypeClass::TimestampTz => match value {
            ServerValue::TimestampTz { secs, nanos } => text_value(format_timestamptz(*secs, *nanos)),
            _ => DynamicValue::Null,
        },
        TypeClass::Timestamp => match value {
            ServerValue::Timestamp { secs, nanos } => text_value(format_timestamp(*secs, *nanos)),
            _ => DynamicValue::Null,
        },
        TypeClass::Date => match value {
            ServerValue::Date { days } => text_value(format_date(*days)),
            _ => DynamicValue::Null,
        },
        TypeClass::Time => match value {
            ServerValue::Time { secs, nanos } => text_value(format_time(*secs, *nanos)),
            _ => DynamicValue::Null,
        },
        TypeClass::Uuid => match value {
            ServerValue::Uuid(v) => DynamicValue::Text(format_uuid(*v)),
            _ => DynamicValue::Null,
        },
        TypeClass::Json => match value {
            ServerValue::Json(v) => v.duplicate(),
            _ => DynamicValue::Null,
        },
    }
}

/// The value of the column at `idx`, decoded under `type_tag`. A place
/// beyond the end of the row gives `Null`.
pub fn get_column_value(row: &ServerRow, idx: usize, type_tag: &str) -> (v: DynamicValue)
    ensures
        v@ == (if idx < row.cells@.len() {
            decoded(row.cells@[idx as int].value, type_tag@)
        } else {
            Dynamic::Null
        }),
{
    if idx < row.cells.len() {
        decode_value(&row.cells[idx].value, type_tag)
    } else {
        DynamicValue::Null
    }
}

/// The decoded values of a row, in column order.
pub open spec fn row_values(row: ServerRow) -> Seq<Dynamic> {
    Seq::new(
        row.cells@.len(),
        |i: int| decoded(row.cells@[i].value, row.cells@[i].type_tag@),
    )
}

/// Decodes every column of a row under the column's own type name. The
/// values come in column order, one for each column.
pub fn row_to_values(row: &ServerRow) -> (values: Vec<DynamicValue>)
    ensures
        values@.len() == row.cells@.len(),
        forall|i: int| 0 <= i < values@.len() ==> (#[trigger] values@[i])@ == row_values(*row)[i],
{
    let mut values: Vec<DynamicValue> = Vec::new();
    let mut i: usize = 0;
    while i < row.cells.len()
        invariant
            0 <= i <= row.cells@.len(),
            values@.len() == i,
            forall|j: int| 0 <= j < i ==> (#[trigger] values@[j])@ == row_values(*row)[j],
        decreases row.cells@.len() - i,
    {
        let v = get_column_value(row, i, row.cells[i].type_tag.as_str());
        values.push(v);
        i += 1;
    }
    values
}

} // verus!
