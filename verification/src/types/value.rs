//! The dynamic value: the one representation of row data that crosses the
//! engine's boundary.

use vstd::prelude::*;

verus! {

broadcast use vstd::std_specs::vec::axiom_vec_index_decreases;

/// A value of any column, whatever its server-side type.
///
/// A floating-point number is carried as the 64 bits of its IEEE 754 double
/// representation.
/// An object keeps its members in the order in which they were given.
#[derive(Debug)]
pub enum DynamicValue {
    Null,
    Bool(bool),
    Integer(i64),
    Float(u64),
    Text(String),
    Array(Vec<DynamicValue>),
    Object(Vec<(String, DynamicValue)>),
}

/// A dynamic value as a mathematical value.
pub enum Dynamic {
    Null,
    Bool(bool),
    Integer(int),
    Float(u64),
    Text(Seq<char>),
    Array(Seq<Dynamic>),
    Object(Seq<(Seq<char>, Dynamic)>),
}

/// Whether 64 bits, read as an IEEE 754 double, are a finite number: the
/// eleven exponent bits are not all ones.
pub open spec fn finite_bits(bits: u64) -> bool {
    (bits >> 52) & 0x7ff != 0x7ff
}

impl DynamicValue {
    /// This value as a mathematical value.
    pub open spec fn model(&self) -> Dynamic
        decreases self,
    {
        match self {
            DynamicValue::Null => Dynamic::Null,
            DynamicValue::Bool(b) => Dynamic::Bool(*b),
            DynamicValue::Integer(i) => Dynamic::Integer(*i as int),
            DynamicValue::Float(bits) => Dynamic::Float(*bits),
            DynamicValue::Text(s) => Dynamic::Text(s@),
            DynamicValue::Array(items) => Dynamic::Array(
                Seq::new(
                    items@.len(),
                    |i: int|
                        if 0 <= i < items@.len() {
                            items@[i].model()
                        } else {
                            Dynamic::Null
                        },
                ),
            ),
            DynamicValue::Object(members) => Dynamic::Object(
                Seq::new(
                    members@.len(),
                    |i: int|
                        if 0 <= i < members@.len() {
                            (members@[i].0@, members@[i].1.model())
                        } else {
                            (Seq::empty(), Dynamic::Null)
                        },
                ),
            ),
        }
    }
}

impl View for DynamicValue {
    type V = Dynamic;

    open spec fn view(&self) -> Dynamic {
        self.model()
    }
}

/// The views of a list of values, in order.
pub open spec fn views(items: Seq<DynamicValue>) -> Seq<Dynamic> {
    Seq::new(items.len(), |i: int| items[i]@)
}

/// The views of a list of named values, in order.
pub open spec fn member_views(members: Seq<(String, DynamicValue)>) -> Seq<(Seq<char>, Dynamic)> {
    Seq::new(members.len(), |i: int| (members[i].0@, members[i].1@))
}

/// An array's view is the list of its items' views.
pub proof fn lemma_array_view(items: Vec<DynamicValue>)
    ensures
        DynamicValue::Array(items)@ == Dynamic::Array(views(items@)),
{
    let v = DynamicValue::Array(items);
    assert forall|i: int| 0 <= i < items@.len() implies v@->Array_0[i] == views(items@)[i] by {
        vstd::std_specs::vec::axiom_vec_index_decreases(items, i);
        assert(decreases_to!(v => items[i]));
    }
    assert(v@->Array_0 =~= views(items@));
}

/// An object's view is the list of its members' names and views.
pub proof fn lemma_object_view(members: Vec<(String, DynamicValue)>)
    ensures
        DynamicValue::Object(members)@ == Dynamic::Object(member_views(members@)),
{
    let v = DynamicValue::Object(members);
    assert(v@->Object_0 =~= member_views(members@));
}

impl DynamicValue {
    /// A copy of this value, equal to it in every part.
    pub fn duplicate(&self) -> (copy: DynamicValue)
        ensures
            copy@ == self@,
        decreases self,
    {
        match self {
            DynamicValue::Null => DynamicValue::Null,
            DynamicValue::Bool(b) => DynamicValue::Bool(*b),
            DynamicValue::Integer(i) => DynamicValue::Integer(*i),
            DynamicValue::Float(bits) => DynamicValue::Float(*bits),
            DynamicValue::Text(s) => DynamicValue::Text(s.clone()),
            DynamicValue::Array(items) => {
                let mut out: Vec<DynamicValue> = Vec::new();
                let mut i: usize = 0;
                assert forall|j: int| 0 <= j < items@.len() implies decreases_to!(self => items@[j]) by {
                    vstd::std_specs::vec::axiom_vec_index_decreases(*items, j);
                    assert(decreases_to!(*items => items[j]));
                }
                while i < items.len()
                    invariant
                        forall|j: int| 0 <= j < items@.len() ==> decreases_to!(self => #[trigger] items@[j]),
                        0 <= i <= items@.len(),
                        out@.len() == i,
                        self == DynamicValue::Array(*items),
                        forall|j: int| 0 <= j < i ==> (#[trigger] out@[j])@ == items@[j]@,
                    decreases items@.len() - i,
                {
                    out.push(items[i].duplicate());
                    i += 1;
                }
                proof {
                    lemma_array_view(out);
                    lemma_array_view(*items);
                    assert(views(out@) =~= views(items@));
                }
                DynamicValue::Array(out)
            },
            DynamicValue::Object(members) => {
                let mut out: Vec<(String, DynamicValue)> = Vec::new();
                let mut i: usize = 0;
                assert forall|j: int| 0 <= j < members@.len() implies decreases_to!(self => members@[j].1) by {
                    vstd::std_specs::vec::axiom_vec_index_decreases(*members, j);
                    assert(decreases_to!(*members => members[j]));
                }
                while i < members.len()
                    invariant
                        forall|j: int| 0 <= j < members@.len() ==> decreases_to!(self => (#[trigger] members@[j]).1),
                        0 <= i <= members@.len(),
                        out@.len() == i,
                        self == DynamicValue::Object(*members),
                        forall|j: int| 0 <= j < i ==> (#[trigger] out@[j]).0@ == members@[j].0@,
                        forall|j: int| 0 <= j < i ==> (#[trigger] out@[j]).1@ == members@[j].1@,
                    decreases members@.len() - i,
                {
                    let name = members[i].0.clone();
                    let value = members[i].1.duplicate();
                    out.push((name, value));
                    i += 1;
                }
                proof {
                    lemma_object_view(out);
                    lemma_object_view(*members);
                    assert(member_views(out@) =~= member_views(members@));
                }
                DynamicValue::Object(out)
            },
        }
    }
}

} // verus!
