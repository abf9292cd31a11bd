//! The identity of a row: the mapping from primary-key column names to the
//! row's values, which a row id is the text of, and what is bound from it.
//!
//! The text itself is JSON and is rendered and read by the caller; what goes
//! into it and what is taken out of it is decided here.

use vstd::prelude::*;
use crate::db::bind::{bind_json_value, bound, bounds, BindValue, Bound};
use crate::db::row_utils::{decode_value, row_values, ServerRow};
use crate::text::{owned, text_or_empty, texts};
use crate::types::value::{member_views, Dynamic, DynamicValue};

verus! {

/// The names of a list of named values.
pub open spec fn member_names(members: Seq<(String, DynamicValue)>) -> Seq<Seq<char>> {
    Seq::new(members.len(), |i: int| members[i].0@)
}

/// The place of the first name of a list that equals a given name.
pub open spec fn position_of(names: Seq<Seq<char>>, name: Seq<char>) -> Option<int>
    decreases names.len(),
{
    if names.len() == 0 {
        None
    } else if names[0] == name {
        Some(0)
    } else {
        match position_of(names.drop_first(), name) {
            Some(k) => Some(k + 1),
            None => None,
        }
    }
}

/// What `position_of` means.
pub proof fn lemma_position_of(names: Seq<Seq<char>>, name: Seq<char>)
    ensures
        match position_of(names, name) {
            Some(k) => 0 <= k < names.len() && names[k] == name && forall|j: int|
                0 <= j < k ==> #[trigger] names[j] != name,
            None => forall|j: int| 0 <= j < names.len() ==> #[trigger] names[j] != name,
        },
    decreases names.len(),
{
    if names.len() > 0 && names[0] != name {
        let rest = names.drop_first();
        lemma_position_of(rest, name);
        match position_of(rest, name) {
            Some(k) => {
                assert(names[k + 1] == rest[k]);
                assert forall|j: int| 0 <= j < k + 1 implies #[trigger] names[j] != name by {
                    if j > 0 {
                        assert(names[j] == rest[j - 1]);
                    }
                }
            },
            None => {
                assert forall|j: int| 0 <= j < names.len() implies #[trigger] names[j]
                    != name by {
                    if j > 0 {
                        assert(names[j] == rest[j - 1]);
                    }
                }
            },
        }
    }
}

/// The first place that holds a name is its position, and a name that no
/// place holds has none.
pub proof fn lemma_position_is(names: Seq<Seq<char>>, name: Seq<char>, k: int)
    requires
        0 <= k <= names.len(),
        forall|j: int| 0 <= j < k ==> #[trigger] names[j] != name,
        k < names.len() ==> names[k] == name,
    ensures
        position_of(names, name) == (if k < names.len() {
            Some(k)
        } else {
            None
        }),
{
    lemma_position_of(names, name);
    match position_of(names, name) {
        Some(p) => {
            if p < k {
                assert(names[p] != name);
            } else if p > k {
                assert(names[k] != name);
            }
        },
        None => {
            if k < names.len() {
                assert(names[k] != name);
            }
        },
    }
}

/// The place of the first entry of a row key under a name.
pub fn find_member(members: &Vec<(String, DynamicValue)>, name: &str) -> (found: Option<usize>)
    ensures
        match found {
            Some(k) => position_of(member_names(members@), name@) == Some(k as int),
            None => position_of(member_names(members@), name@) is None,
        },
{
    let wanted = owned(name);
    let mut i: usize = 0;
    while i < members.len()
        invariant
            0 <= i <= members@.len(),
            wanted@ == name@,
            forall|j: int| 0 <= j < i ==> #[trigger] member_names(members@)[j] != name@,
        decreases members@.len() - i,
    {
        assert(member_names(members@)[i as int] == members@[i as int].0@);
        if members[i].0 == wanted {
            proof {
                lemma_position_is(member_names(members@), name@, i as int);
            }
            return Some(i);
        }
        i += 1;
    }
    proof {
        lemma_position_is(member_names(members@), name@, i as int);
    }
    None
}

/// The parameters for the primary key of a row: for each primary-key column
/// in order, the value that the row key holds under that name. A column that
/// the key does not hold contributes nothing.
pub open spec fn key_bounds(pks: Seq<Seq<char>>, key: Seq<(String, DynamicValue)>) -> Seq<Bound>
    decreases pks.len(),
{
    if pks.len() == 0 {
        Seq::empty()
    } else {
        let before = key_bounds(pks.drop_last(), key);
        match position_of(member_names(key), pks.last()) {
            Some(k) => before.push(bound(key[k].1@)),
            None => before,
        }
    }
}

pub(crate) fn push_key_params(
    params: &mut Vec<BindValue>,
    primary_keys: &Vec<String>,
    key: &Vec<(String, DynamicValue)>,
)
    ensures
        bounds(final(params)@) == bounds(old(params)@) + key_bounds(texts(primary_keys@), key@),
{
    let ghost start = bounds(params@);
    let mut i: usize = 0;
    assert(texts(primary_keys@).take(0) =~= Seq::<Seq<char>>::empty());
    assert(bounds(params@) =~= start + key_bounds(texts(primary_keys@).take(0), key@));
    while i < primary_keys.len()
        invariant
            0 <= i <= primary_keys@.len(),
            bounds(params@) == start + key_bounds(texts(primary_keys@).take(i as int), key@),
        decreases primary_keys@.len() - i,
    {
        let ghost before = texts(primary_keys@).take(i as int);
        let ghost after = texts(primary_keys@).take(i + 1);
        assert(after.drop_last() =~= before);
        assert(after.last() == primary_keys@[i as int]@);
        let ghost old_params = params@;
        match find_member(key, primary_keys[i].as_str()) {
            Some(k) => {
                proof {
                    lemma_position_of(member_names(key@), primary_keys@[i as int]@);
                }
                let p = bind_json_value(&key[k].1);
                params.push(p);
                assert(bounds(params@) =~= bounds(old_params).push(bound(key@[k as int].1@)));
                assert(bounds(params@) =~= start + key_bounds(after, key@));
            },
            None => {
                assert(bounds(params@) =~= start + key_bounds(after, key@));
            },
        }
        i += 1;
    }
    assert(texts(primary_keys@).take(primary_keys@.len() as int) =~= texts(primary_keys@));
}

/// The names of the columns of a row, in column order.
pub open spec fn cell_names(row: ServerRow) -> Seq<Seq<char>> {
    Seq::new(row.cells@.len(), |i: int| row.cells@[i].name@)
}

/// The place of the first column of a row that bears a name.
pub fn find_cell(row: &ServerRow, name: &str) -> (found: Option<usize>)
    ensures
        match found {
            Some(k) => position_of(cell_names(*row), name@) == Some(k as int),
            None => position_of(cell_names(*row), name@) is None,
        },
{
    let wanted = owned(name);
    let mut i: usize = 0;
    while i < row.cells.len()
        invariant
            0 <= i <= row.cells@.len(),
            wanted@ == name@,
            forall|j: int| 0 <= j < i ==> #[trigger] cell_names(*row)[j] != name@,
        decreases row.cells@.len() - i,
    {
        assert(cell_names(*row)[i as int] == row.cells@[i as int].name@);
        if row.cells[i].name == wanted {
            proof {
                lemma_position_is(cell_names(*row), name@, i as int);
            }
            return Some(i);
        }
        i += 1;
    }
    proof {
        lemma_position_is(cell_names(*row), name@, i as int);
    }
    None
}

/// What identifies a row: for each primary-key column in order, its name and
/// the row's decoded value in the first column of that name. A primary-key
/// column that the row does not have contributes nothing.
pub open spec fn key_entries(row: ServerRow, pks: Seq<Seq<char>>) -> Seq<(Seq<char>, Dynamic)>
    decreases pks.len(),
{
    if pks.len() == 0 {
        Seq::empty()
    } else {
        let before = key_entries(row, pks.drop_last());
        match position_of(cell_names(row), pks.last()) {
            Some(k) => before.push((pks.last(), row_values(row)[k])),
            None => before,
        }
    }
}

/// Builds the key of a row: the mapping from primary-key column names to the
/// row's decoded values that a row id is the text of. For a table without a
/// primary key it is empty.
pub fn row_key(row: &ServerRow, primary_keys: &Vec<String>) -> (key: Vec<(String, DynamicValue)>)
    ensures
        member_views(key@) == key_entries(*row, texts(primary_keys@)),
{
    let mut key: Vec<(String, DynamicValue)> = Vec::new();
    let mut i: usize = 0;
    assert(texts(primary_keys@).take(0) =~= Seq::<Seq<char>>::empty());
    assert(member_views(key@) =~= key_entries(*row, texts(primary_keys@).take(0)));
    while i < primary_keys.len()
        invariant
            0 <= i <= primary_keys@.len(),
            member_views(key@) == key_entries(*row, texts(primary_keys@).take(i as int)),
        decreases primary_keys@.len() - i,
    {
        let ghost before = texts(primary_keys@).take(i as int);
        let ghost after = texts(primary_keys@).take(i + 1);
        assert(after.drop_last() =~= before);
        assert(after.last() == primary_keys@[i as int]@);
        let ghost earlier = key@;
        match find_cell(row, primary_keys[i].as_str()) {
            Some(k) => {
                proof {
                    lemma_position_of(cell_names(*row), primary_keys@[i as int]@);
                }
                let value = decode_value(&row.cells[k].value, row.cells[k].type_tag.as_str());
                let name = primary_keys[i].clone();
                key.push((name, value));
                assert(member_views(key@) =~= member_views(earlier).push(
                    (primary_keys@[i as int]@, row_values(*row)[k as int]),
                ));
            },
            None => {},
        }
        i += 1;
    }
    assert(texts(primary_keys@).take(primary_keys@.len() as int) =~= texts(primary_keys@));
    key
}

/// The id of a row, from the text that its key was rendered to. A table
/// without a primary key gives every row the empty id; so does a key that
/// could not be rendered.
pub open spec fn row_id_of(has_primary_key: bool, key_text: Option<String>) -> Seq<char> {
    if has_primary_key {
        text_or_empty(key_text)
    } else {
        Seq::empty()
    }
}

/// The id of a row: the text of its key, an opaque token for callers.
/// `key_text` is the compact JSON text of the mapping that [`row_key`]
/// returned, with its names in sorted order, or nothing if it could not be
/// rendered.
pub fn encode_row_id(has_primary_key: bool, key_text: Option<String>) -> (id: String)
    ensures
        id@ == row_id_of(has_primary_key, key_text),
{
    if has_primary_key {
        match key_text {
            Some(text) => text,
            None => String::new(),
        }
    } else {
        String::new()
    }
}

/// What a row id decodes to. `parsed` is what reading the id as a JSON object
/// gave: its members, or nothing if the id is no such text. A token that
/// cannot be read, and the empty token, decode to the empty mapping, which
/// names no row.
pub fn decode_row_id(parsed: Option<Vec<(String, DynamicValue)>>) -> (key: Vec<
    (String, DynamicValue),
>)
    ensures
        parsed matches Some(members) ==> key@ == members@,
        parsed is None ==> key@.len() == 0,
{
    match parsed {
        Some(members) => members,
        None => Vec::new(),
    }
}

/// The decoded value of a row under a column name: that of the first column
/// of that name.
pub open spec fn value_under(row: ServerRow, name: Seq<char>) -> Dynamic {
    row_values(row)[position_of(cell_names(row), name)->0]
}

/// Whether a row has a column for each name of a list.
pub open spec fn has_columns(row: ServerRow, names: Seq<Seq<char>>) -> bool {
    forall|i: int| 0 <= i < names.len() ==> position_of(cell_names(row), #[trigger] names[i]) is Some
}

/// When the row has every primary-key column, its key has one entry for each
/// of them, in order: the column's name and the row's value under it.
pub proof fn lemma_key_entries(row: ServerRow, pks: Seq<Seq<char>>)
    requires
        has_columns(row, pks),
    ensures
        key_entries(row, pks).len() == pks.len(),
        forall|i: int|
            0 <= i < pks.len() ==> #[trigger] key_entries(row, pks)[i] == (
                pks[i],
                value_under(row, pks[i]),
            ),
    decreases pks.len(),
{
    if pks.len() > 0 {
        let rest = pks.drop_last();
        assert forall|i: int| 0 <= i < rest.len() implies position_of(
            cell_names(row),
            #[trigger] rest[i],
        ) is Some by {
            assert(rest[i] == pks[i]);
        }
        lemma_key_entries(row, rest);
        assert(position_of(cell_names(row), pks[pks.len() - 1]) is Some);
        assert forall|i: int| 0 <= i < pks.len() implies #[trigger] key_entries(row, pks)[i] == (
            pks[i],
            value_under(row, pks[i]),
        ) by {
            if i < rest.len() {
                assert(key_entries(row, pks)[i] == key_entries(row, rest)[i]);
                assert(rest[i] == pks[i]);
            }
        }
    }
}

/// Looking the first `m` primary-key columns up in a key that holds them in
/// order gives the key's first `m` values, bound.
proof fn lemma_key_bounds_prefix(pks: Seq<Seq<char>>, key: Seq<(String, DynamicValue)>, m: int)
    requires
        0 <= m <= pks.len(),
        key.len() == pks.len(),
        forall|i: int| 0 <= i < pks.len() ==> position_of(member_names(key), #[trigger] pks[i]) == Some(i),
    ensures
        key_bounds(pks.take(m), key) == Seq::new(m as nat, |i: int| bound(key[i].1@)),
    decreases m,
{
    if m == 0 {
        assert(key_bounds(pks.take(0), key) =~= Seq::new(0, |i: int| bound(key[i].1@)));
    } else {
        lemma_key_bounds_prefix(pks, key, m - 1);
        assert(pks.take(m).drop_last() =~= pks.take(m - 1));
        assert(pks.take(m).last() == pks[m - 1]);
        assert(key_bounds(pks.take(m), key) =~= Seq::new(m as nat, |i: int| bound(key[i].1@)));
    }
}

/// A row's key gives back the row's primary-key values. For a primary key of
/// distinct columns that the row has, the key built from the row holds
/// exactly the primary-key columns with the row's values, in order; looking
/// each column up in the key finds that value again; and the parameters
/// bound from the key are those values, bound, in primary-key order.
pub proof fn lemma_row_key_gives_back_primary_key(
    row: ServerRow,
    pks: Seq<Seq<char>>,
    key: Seq<(String, DynamicValue)>,
)
    requires
        pks.len() > 0,
        pks.no_duplicates(),
        has_columns(row, pks),
        member_views(key) == key_entries(row, pks),
    ensures
        key.len() == pks.len(),
        forall|i: int|
            0 <= i < pks.len() ==> (#[trigger] key[i]).0@ == pks[i] && key[i].1@ == value_under(
                row,
                pks[i],
            ),
        forall|i: int|
            0 <= i < pks.len() ==> position_of(member_names(key), #[trigger] pks[i]) == Some(i),
        key_bounds(pks, key) == Seq::new(pks.len(), |i: int| bound(value_under(row, pks[i]))),
{
    lemma_key_entries(row, pks);
    assert(member_views(key).len() == key.len());
    assert forall|i: int| 0 <= i < pks.len() implies (#[trigger] key[i]).0@ == pks[i] && key[i].1@
        == value_under(row, pks[i]) by {
        assert(member_views(key)[i] == (key[i].0@, key[i].1@));
        assert(key_entries(row, pks)[i] == (pks[i], value_under(row, pks[i])));
    }
    assert forall|i: int| 0 <= i < pks.len() implies position_of(
        member_names(key),
        #[trigger] pks[i],
    ) == Some(i) by {
        assert forall|j: int| 0 <= j < i implies #[trigger] member_names(key)[j] != pks[i] by {
            assert(member_names(key)[j] == key[j].0@);
            assert(key[j].0@ == pks[j]);
        }
        assert(member_names(key)[i] == key[i].0@);
        lemma_position_is(member_names(key), pks[i], i);
    }
    lemma_key_bounds_prefix(pks, key, pks.len() as int);
    assert(pks.take(pks.len() as int) =~= pks);
    assert(key_bounds(pks, key) =~= Seq::new(pks.len(), |i: int| bound(value_under(row, pks[i]))));
}

} // verus!
