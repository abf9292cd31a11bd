//! The encode direction of the codec: from a dynamic value to the parameter
//! that it is bound as.

use vstd::prelude::*;
use vstd::string::*;
use crate::db::formats::{is_time_of_day, padded, time_text, uuid_text};
use crate::db::row_utils::{decoded, type_class, ServerValue, TypeClass};
use crate::text::owned;
use crate::types::value::{finite_bits, Dynamic, DynamicValue};

verus! {

/// A parameter of a statement, in the kind in which it is handed to the
/// server.
#[derive(Debug)]
pub enum BindValue {
    /// An untyped SQL null.
    Null,
    Bool(bool),
    Integer(i64),
    /// A double, as its bits.
    Float(u64),
    Text(String),
    /// An array or an object, to be handed over as a text parameter that holds
    /// its canonical JSON text.
    Json(DynamicValue),
}

/// A parameter as a mathematical value.
pub enum Bound {
    Null,
    Bool(bool),
    Integer(int),
    Float(u64),
    Text(Seq<char>),
    Json(Dynamic),
}

impl View for BindValue {
    type V = Bound;

    open spec fn view(&self) -> Bound {
        match self {
            BindValue::Null => Bound::Null,
            BindValue::Bool(b) => Bound::Bool(*b),
            BindValue::Integer(i) => Bound::Integer(*i as int),
            BindValue::Float(bits) => Bound::Float(*bits),
            BindValue::Text(s) => Bound::Text(s@),
            BindValue::Json(v) => Bound::Json(v@),
        }
    }
}

/// The views of a list of parameters.
pub open spec fn bounds(params: Seq<BindValue>) -> Seq<Bound> {
    Seq::new(params.len(), |i: int| params[i]@)
}

/// The word `null`, in any mixture of upper and lower case.
pub open spec fn null_word(s: Seq<char>) -> bool {
    &&& s.len() == 4
    &&& (s[0] == 'n' || s[0] == 'N')
    &&& (s[1] == 'u' || s[1] == 'U')
    &&& (s[2] == 'l' || s[2] == 'L')
    &&& (s[3] == 'l' || s[3] == 'L')
}

/// A text of more than two characters that starts and ends with an
/// apostrophe.
pub open spec fn apostrophe_wrapped(s: Seq<char>) -> bool {
    s.len() > 2 && s[0] == '\'' && s[s.len() - 1] == '\''
}

/// The parameter that a text is bound as. The word `null` means a SQL null;
/// a text between apostrophes stands for the text inside them, which is how
/// the literal word `null` is written; any other text is itself.
pub open spec fn bound_text(s: Seq<char>) -> Bound {
    if null_word(s) {
        Bound::Null
    } else if apostrophe_wrapped(s) {
        Bound::Text(s.subrange(1, s.len() - 1))
    } else {
        Bound::Text(s)
    }
}

/// The parameter that a dynamic value is bound as.
pub open spec fn bound(v: Dynamic) -> Bound {
    match v {
        Dynamic::Null => Bound::Null,
        Dynamic::Bool(b) => Bound::Bool(b),
        Dynamic::Integer(i) => Bound::Integer(i),
        Dynamic::Float(bits) => Bound::Float(bits),
        Dynamic::Text(s) => bound_text(s),
        Dynamic::Array(_) => Bound::Json(v),
        Dynamic::Object(_) => Bound::Json(v),
    }
}

fn is_null_word(s: &str, len: usize) -> (yes: bool)
    requires
        len == s@.len(),
    ensures
        yes == null_word(s@),
{
    if len != 4 {
        return false;
    }
    let a = s.get_char(0);
    let b = s.get_char(1);
    let c = s.get_char(2);
    let d = s.get_char(3);
    (a == 'n' || a == 'N') && (b == 'u' || b == 'U') && (c == 'l' || c == 'L') && (d == 'l' || d
        == 'L')
}

fn bind_text(s: &str) -> (p: BindValue)
    ensures
        p@ == bound_text(s@),
{
    let len = s.unicode_len();
    if is_null_word(s, len) {
        BindValue::Null
    } else if len > 2 && s.get_char(0) == '\'' && s.get_char(len - 1) == '\'' {
        BindValue::Text(owned(s.substring_char(1, len - 1)))
    } else {
        BindValue::Text(owned(s))
    }
}

/// Turns a dynamic value into the parameter it is bound as.
pub fn bind_json_value(value: &DynamicValue) -> (p: BindValue)
    ensures
        p@ == bound(value@),
{
    match value {
        DynamicValue::Null => BindValue::Null,
        DynamicValue::Bool(b) => BindValue::Bool(*b),
        DynamicValue::Integer(i) => BindValue::Integer(*i),
        DynamicValue::Float(bits) => BindValue::Float(*bits),
        DynamicValue::Text(s) => bind_text(s.as_str()),
        DynamicValue::Array(_) => BindValue::Json(value.duplicate()),
        DynamicValue::Object(_) => BindValue::Json(value.duplicate()),
    }
}

/// A scalar that is decoded and then bound is bound as itself. An integer of
/// any width under an integer type, a flag under the boolean type and a
/// finite double under a floating-point type come back as a parameter of
/// their own kind with their own value; so does a text under a text type or
/// an unlisted type, unless it is the word `null` or stands between
/// apostrophes, which the bind path reads as a null and as the text inside.
pub proof fn lemma_scalars_are_bound_as_decoded(value: ServerValue, tag: Seq<char>)
    ensures
        type_class(tag) == TypeClass::Integer ==> {
            &&& value matches ServerValue::SmallInt(i) ==> bound(decoded(value, tag))
                == Bound::Integer(i as int)
            &&& value matches ServerValue::Int(i) ==> bound(decoded(value, tag)) == Bound::Integer(
                i as int,
            )
            &&& value matches ServerValue::BigInt(i) ==> bound(decoded(value, tag))
                == Bound::Integer(i as int)
        },
        type_class(tag) == TypeClass::Bool ==> (value matches ServerValue::Bool(b) ==> bound(
            decoded(value, tag),
        ) == Bound::Bool(b)),
        type_class(tag) == TypeClass::Float ==> (value matches ServerValue::Float(bits)
            ==> finite_bits(bits) ==> bound(decoded(value, tag)) == Bound::Float(bits)),
        type_class(tag) == TypeClass::Text || type_class(tag) == TypeClass::Other ==> (
        value matches ServerValue::Text(s) ==> !null_word(s@) && !apostrophe_wrapped(s@) ==> bound(
            decoded(value, tag),
        ) == Bound::Text(s@)),
{
}

/// A UUID and a time of day that are decoded and then bound are bound as
/// their text: neither text is the word `null`, and neither stands between
/// apostrophes.
pub proof fn lemma_times_and_uuids_are_bound_as_their_text(value: ServerValue, tag: Seq<char>)
    ensures
        type_class(tag) == TypeClass::Uuid ==> (value matches ServerValue::Uuid(v) ==> bound(
            decoded(value, tag),
        ) == Bound::Text(uuid_text(v))),
        type_class(tag) == TypeClass::Time ==> (value matches ServerValue::Time { secs, nanos }
            ==> is_time_of_day(secs, nanos) ==> bound(decoded(value, tag)) == Bound::Text(
            time_text(secs, nanos),
        )),
{
    if let ServerValue::Uuid(v) = value {
        let text = uuid_text(v);
        assert(text.len() == 36);
        assert(text[0] != '\'');
    }
    if let ServerValue::Time { secs, nanos } = value {
        if is_time_of_day(secs, nanos) {
            reveal_with_fuel(padded, 3);
            let text = time_text(secs, nanos);
            let hour = padded((secs / 3600) as nat, 2);
            assert(hour.len() == 2);
            assert(text.len() >= 8);
            assert(text[0] == hour[0]);
            assert(text[0] != '\'');
        }
    }
}

} // verus!
