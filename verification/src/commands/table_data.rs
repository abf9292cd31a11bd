//! Reading pages of a table and writing rows in batches: which statements a
//! request comes to, and what its answers add up to.

use vstd::prelude::*;
use vstd::string::*;
use crate::commands::schema::{says_yes, CatalogColumn};
use crate::db::row_id::{encode_row_id, row_id_of};
use crate::db::row_utils::{row_to_values, row_values, ServerRow};
use crate::db::statements::{
    delete_outcome, delete_statement, insert_outcome, insert_statement, update_outcome,
    update_statement, Statement, StatementView,
};
use crate::error::{AppError, ErrorView};
use crate::text::{
    copy_text, flag_or_false, or_empty, or_false, same_text, text_of, text_or_empty, texts,
};
use crate::types::table_data::{
    RowDelete, RowInsert, RowUpdate, TableColumnInfo, TableData, TableRow,
};
use crate::types::value::DynamicValue;

verus! {

/// The views of a list of statements.
pub open spec fn statement_views(statements: Seq<Statement>) -> Seq<StatementView> {
    Seq::new(statements.len(), |i: int| statements[i]@)
}

/// What a run of single outcomes comes to: the statements of those that gave
/// one, in order, unless one of them is an error; then the first error.
pub open spec fn gathered(outcomes: Seq<Result<Option<StatementView>, ErrorView>>) -> Result<
    Seq<StatementView>,
    ErrorView,
>
    decreases outcomes.len(),
{
    if outcomes.len() == 0 {
        Ok(Seq::empty())
    } else {
        match gathered(outcomes.drop_last()) {
            Err(e) => Err(e),
            Ok(done) => match outcomes.last() {
                Err(e) => Err(e),
                Ok(None) => Ok(done),
                Ok(Some(st)) => Ok(done.push(st)),
            },
        }
    }
}

/// The view of a plan: its statements, or its error.
pub open spec fn plan_view(res: Result<Vec<Statement>, AppError>) -> Result<
    Seq<StatementView>,
    ErrorView,
> {
    match res {
        Ok(statements) => Ok(statement_views(statements@)),
        Err(e) => Err(e@),
    }
}

/// The outcome of each row of a batch of inserts.
pub open spec fn insert_outcomes(schema: Seq<char>, table: Seq<char>, rows: Seq<RowInsert>) -> Seq<
    Result<Option<StatementView>, ErrorView>,
> {
    Seq::new(rows.len(), |i: int| insert_outcome(schema, table, rows[i]))
}

/// The statements that insert a batch of rows: one statement for each row
/// that has values, in the order of the rows. Rows without values are passed
/// over. The number of statements is the number of rows that will have been
/// inserted once each has run.
pub fn insert_rows(schema: &str, table: &str, rows: &Vec<RowInsert>) -> (res: Result<
    Vec<Statement>,
    AppError,
>)
    ensures
        plan_view(res) == gathered(insert_outcomes(schema@, table@, rows@)),
{
    let ghost all = insert_outcomes(schema@, table@, rows@);
    let mut out: Vec<Statement> = Vec::new();
    let mut i: usize = 0;
    assert(all.take(0) =~= Seq::empty());
    assert(statement_views(out@) =~= Seq::empty());
    while i < rows.len()
        invariant
            0 <= i <= rows@.len(),
            all == insert_outcomes(schema@, table@, rows@),
            gathered(all.take(i as int)) == Ok::<Seq<StatementView>, ErrorView>(
                statement_views(out@),
            ),
        decreases rows@.len() - i,
    {
        assert(all.take(i + 1).drop_last() =~= all.take(i as int));
        assert(all.take(i + 1).last() == insert_outcome(schema@, table@, rows@[i as int]));
        let ghost before = out@;
        match insert_statement(schema, table, &rows[i]) {
            Ok(Some(st)) => {
                out.push(st);
                assert(statement_views(out@) =~= statement_views(before).push(st@));
            },
            Ok(None) => {},
            Err(e) => {
                proof {
                    lemma_gathered_error(all, i as int);
                }
                return Err(e);
            },
        }
        i += 1;
    }
    assert(all.take(rows@.len() as int) =~= all);
    Ok(out)
}

/// Once a run of outcomes has come to an error, more outcomes do not change
/// it.
pub proof fn lemma_gathered_error(
    outcomes: Seq<Result<Option<StatementView>, ErrorView>>,
    k: int,
)
    requires
        0 <= k < outcomes.len(),
        gathered(outcomes.take(k)) is Ok,
        outcomes[k] is Err,
    ensures
        gathered(outcomes) == Err::<Seq<StatementView>, ErrorView>(outcomes[k]->Err_0),
    decreases outcomes.len() - k,
{
    assert(outcomes.take(k + 1).drop_last() =~= outcomes.take(k));
    assert(outcomes.take(k + 1).last() == outcomes[k]);
    lemma_gathered_error_stays(outcomes, k + 1);
}

/// The same, from the place after the error onwards.
pub proof fn lemma_gathered_error_stays(
    outcomes: Seq<Result<Option<StatementView>, ErrorView>>,
    n: int,
)
    requires
        0 <= n <= outcomes.len(),
        gathered(outcomes.take(n)) is Err,
    ensures
        gathered(outcomes) == gathered(outcomes.take(n)),
    decreases outcomes.len() - n,
{
    if n == outcomes.len() {
        assert(outcomes.take(n) =~= outcomes);
    } else {
        assert(outcomes.take(n + 1).drop_last() =~= outcomes.take(n));
        lemma_gathered_error_stays(outcomes, n + 1);
    }
}

/// The key of the `i`-th request of a batch: what its row id decoded to. A
/// request without a key is treated like one whose row id decoded to nothing.
pub open spec fn key_at(keys: Seq<Vec<(String, DynamicValue)>>, i: int) -> Seq<
    (String, DynamicValue),
> {
    if 0 <= i < keys.len() {
        keys[i]@
    } else {
        Seq::empty()
    }
}

/// The outcome of each edit of a batch.
pub open spec fn update_outcomes(
    schema: Seq<char>,
    table: Seq<char>,
    pks: Seq<Seq<char>>,
    updates: Seq<RowUpdate>,
    keys: Seq<Vec<(String, DynamicValue)>>,
) -> Seq<Result<Option<StatementView>, ErrorView>> {
    Seq::new(
        updates.len(),
        |i: int| update_outcome(schema, table, pks, updates[i], key_at(keys, i)),
    )
}

/// The outcome of each deletion of a batch.
pub open spec fn delete_outcomes(
    schema: Seq<char>,
    table: Seq<char>,
    pks: Seq<Seq<char>>,
    deletes: Seq<RowDelete>,
    keys: Seq<Vec<(String, DynamicValue)>>,
) -> Seq<Result<Option<StatementView>, ErrorView>> {
    Seq::new(deletes.len(), |i: int| delete_outcome(schema, table, pks, key_at(keys, i)))
}

/// What a batch of edits comes to. A table without a primary key refuses the
/// whole batch, even an empty one.
pub open spec fn update_plan(
    schema: Seq<char>,
    table: Seq<char>,
    pks: Seq<Seq<char>>,
    updates: Seq<RowUpdate>,
    keys: Seq<Vec<(String, DynamicValue)>>,
) -> Result<Seq<StatementView>, ErrorView> {
    if pks.len() == 0 {
        Err(ErrorView::InvalidConfig("Cannot update table without primary key"@))
    } else {
        gathered(update_outcomes(schema, table, pks, updates, keys))
    }
}

/// What a batch of deletions comes to.
pub open spec fn delete_plan(
    schema: Seq<char>,
    table: Seq<char>,
    pks: Seq<Seq<char>>,
    deletes: Seq<RowDelete>,
    keys: Seq<Vec<(String, DynamicValue)>>,
) -> Result<Seq<StatementView>, ErrorView> {
    if pks.len() == 0 {
        Err(ErrorView::InvalidConfig("Cannot delete from table without primary key"@))
    } else {
        gathered(delete_outcomes(schema, table, pks, deletes, keys))
    }
}

/// The statements for a batch of edits, one for each edit whose row id
/// decoded to something, in order. `keys[i]` is what the row id of
/// `updates[i]` decoded to. The rows affected by each statement, summed, are
/// the result of the batch; an edit whose row is gone affects none and is no
/// error.
pub fn update_rows(
    schema: &str,
    table: &str,
    primary_keys: &Vec<String>,
    updates: &Vec<RowUpdate>,
    keys: &Vec<Vec<(String, DynamicValue)>>,
) -> (res: Result<Vec<Statement>, AppError>)
    ensures
        plan_view(res) == update_plan(schema@, table@, texts(primary_keys@), updates@, keys@),
{
    if primary_keys.len() == 0 {
        return Err(
            AppError::InvalidConfig(String::from_str("Cannot update table without primary key")),
        );
    }
    let ghost all = update_outcomes(schema@, table@, texts(primary_keys@), updates@, keys@);
    let nothing: Vec<(String, DynamicValue)> = Vec::new();
    let mut out: Vec<Statement> = Vec::new();
    let mut i: usize = 0;
    assert(all.take(0) =~= Seq::empty());
    assert(statement_views(out@) =~= Seq::empty());
    while i < updates.len()
        invariant
            0 <= i <= updates@.len(),
            nothing@.len() == 0,
            all == update_outcomes(schema@, table@, texts(primary_keys@), updates@, keys@),
            gathered(all.take(i as int)) == Ok::<Seq<StatementView>, ErrorView>(
                statement_views(out@),
            ),
        decreases updates@.len() - i,
    {
        assert(all.take(i + 1).drop_last() =~= all.take(i as int));
        assert(all.take(i + 1).last() == all[i as int]);
        let key = if i < keys.len() {
            &keys[i]
        } else {
            &nothing
        };
        assert(key@ =~= key_at(keys@, i as int));
        let ghost before = out@;
        match update_statement(schema, table, primary_keys, &updates[i], key) {
            Ok(Some(st)) => {
                out.push(st);
                assert(statement_views(out@) =~= statement_views(before).push(st@));
            },
            Ok(None) => {},
            Err(e) => {
                proof {
                    lemma_gathered_error(all, i as int);
                }
                return Err(e);
            },
        }
        i += 1;
    }
    assert(all.take(updates@.len() as int) =~= all);
    Ok(out)
}

/// The statements for a batch of deletions, one for each request whose row
/// id decoded to something, in order. `keys[i]` is what the row id of
/// `deletes[i]` decoded to.
pub fn delete_rows(
    schema: &str,
    table: &str,
    primary_keys: &Vec<String>,
    deletes: &Vec<RowDelete>,
    keys: &Vec<Vec<(String, DynamicValue)>>,
) -> (res: Result<Vec<Statement>, AppError>)
    ensures
        plan_view(res) == delete_plan(schema@, table@, texts(primary_keys@), deletes@, keys@),
{
    if primary_keys.len() == 0 {
        return Err(
            AppError::InvalidConfig(
                String::from_str("Cannot delete from table without primary key"),
            ),
        );
    }
    let ghost all = delete_outcomes(schema@, table@, texts(primary_keys@), deletes@, keys@);
    let nothing: Vec<(String, DynamicValue)> = Vec::new();
    let mut out: Vec<Statement> = Vec::new();
    let mut i: usize = 0;
    assert(all.take(0) =~= Seq::empty());
    assert(statement_views(out@) =~= Seq::empty());
    while i < deletes.len()
        invariant
            0 <= i <= deletes@.len(),
            nothing@.len() == 0,
            all == delete_outcomes(schema@, table@, texts(primary_keys@), deletes@, keys@),
            gathered(all.take(i as int)) == Ok::<Seq<StatementView>, ErrorView>(
                statement_views(out@),
            ),
        decreases deletes@.len() - i,
    {
        assert(all.take(i + 1).drop_last() =~= all.take(i as int));
        assert(all.take(i + 1).last() == all[i as int]);
        let key = if i < keys.len() {
            &keys[i]
        } else {
            &nothing
        };
        assert(key@ =~= key_at(keys@, i as int));
        let ghost before = out@;
        match delete_statement(schema, table, primary_keys, key) {
            Ok(Some(st)) => {
                out.push(st);
                assert(statement_views(out@) =~= statement_views(before).push(st@));
            },
            Ok(None) => {},
            Err(e) => {
                proof {
                    lemma_gathered_error(all, i as int);
                }
                return Err(e);
            },
        }
        i += 1;
    }
    assert(all.take(deletes@.len() as int) =~= all);
    Ok(out)
}

/// Whether a column record of a table page says what a catalog row says.
pub open spec fn table_column_of(info: TableColumnInfo, raw: CatalogColumn) -> bool {
    &&& info.name@ == text_or_empty(raw.column_name)
    &&& info.data_type@ == text_or_empty(raw.data_type)
    &&& info.is_nullable == says_yes(raw.is_nullable)
    &&& info.is_primary_key == flag_or_false(raw.is_primary_key)
    &&& info.is_auto_generated == flag_or_false(raw.is_auto_generated)
    &&& text_of(info.default_value) == text_of(raw.column_default)
}

/// The columns of a table as a page of it shows them: one record for each
/// row of the column catalog, in ordinal position.
pub fn get_column_info(rows: &Vec<CatalogColumn>) -> (out: Vec<TableColumnInfo>)
    ensures
        out@.len() == rows@.len(),
        forall|i: int| 0 <= i < rows@.len() ==> table_column_of(#[trigger] out@[i], rows@[i]),
{
    let mut out: Vec<TableColumnInfo> = Vec::new();
    let mut i: usize = 0;
    while i < rows.len()
        invariant
            0 <= i <= rows@.len(),
            out@.len() == i,
            forall|j: int| 0 <= j < i ==> table_column_of(#[trigger] out@[j], rows@[j]),
        decreases rows@.len() - i,
    {
        let raw = &rows[i];
        let word = or_empty(&raw.is_nullable);
        out.push(
            TableColumnInfo {
                name: or_empty(&raw.column_name),
                data_type: or_empty(&raw.data_type),
                is_nullable: same_text(word.as_str(), "YES"),
                is_primary_key: or_false(&raw.is_primary_key),
                is_auto_generated: or_false(&raw.is_auto_generated),
                default_value: copy_text(&raw.column_default),
            },
        );
        i += 1;
    }
    out
}

/// The names of the primary-key columns among the columns of a table, in
/// column order.
pub open spec fn key_columns(columns: Seq<TableColumnInfo>) -> Seq<Seq<char>>
    decreases columns.len(),
{
    if columns.len() == 0 {
        Seq::empty()
    } else if columns.last().is_primary_key {
        key_columns(columns.drop_last()).push(columns.last().name@)
    } else {
        key_columns(columns.drop_last())
    }
}

/// A table has a primary key exactly if one of its columns belongs to it.
pub proof fn lemma_key_columns(columns: Seq<TableColumnInfo>)
    ensures
        key_columns(columns).len() > 0 <==> exists|i: int|
            0 <= i < columns.len() && (#[trigger] columns[i]).is_primary_key,
        key_columns(columns).len() <= columns.len(),
    decreases columns.len(),
{
    if columns.len() > 0 {
        let rest = columns.drop_last();
        lemma_key_columns(rest);
        if columns.last().is_primary_key {
            assert(columns[columns.len() - 1].is_primary_key);
        } else if key_columns(rest).len() > 0 {
            let i = choose|i: int| 0 <= i < rest.len() && (#[trigger] rest[i]).is_primary_key;
            assert(columns[i] == rest[i]);
        } else {
            assert forall|i: int| 0 <= i < columns.len() implies !(#[trigger] columns[i]).is_primary_key by {
                if i < rest.len() {
                    assert(columns[i] == rest[i]);
                }
            }
        }
    }
}

/// The primary key of a table: the names of its primary-key columns, in
/// column order. It is empty for a table without a primary key.
pub fn primary_keys(columns: &Vec<TableColumnInfo>) -> (out: Vec<String>)
    ensures
        texts(out@) == key_columns(columns@),
{
    let mut out: Vec<String> = Vec::new();
    let mut i: usize = 0;
    assert(columns@.take(0) =~= Seq::empty());
    assert(texts(out@) =~= key_columns(columns@.take(0)));
    while i < columns.len()
        invariant
            0 <= i <= columns@.len(),
            texts(out@) == key_columns(columns@.take(i as int)),
        decreases columns@.len() - i,
    {
        assert(columns@.take(i + 1).drop_last() =~= columns@.take(i as int));
        assert(columns@.take(i + 1).last() == columns@[i as int]);
        let ghost before = out@;
        if columns[i].is_primary_key {
            out.push(columns[i].name.clone());
            assert(texts(out@) =~= texts(before).push(columns@[i as int].name@));
        }
        i += 1;
    }
    assert(columns@.take(columns@.len() as int) =~= columns@);
    out
}

/// One row of a page: its id and its values, decoded in column order.
/// `key_text` is as for [`encode_row_id`].
pub fn table_row(row: &ServerRow, has_primary_key: bool, key_text: Option<String>) -> (out: TableRow)
    ensures
        out.id@ == row_id_of(has_primary_key, key_text),
        out.values@.len() == row.cells@.len(),
        forall|i: int|
            0 <= i < out.values@.len() ==> (#[trigger] out.values@[i])@ == row_values(*row)[i],
{
    TableRow { id: encode_row_id(has_primary_key, key_text), values: row_to_values(row) }
}

/// A count that the server reports, as a size: a negative count is none, and
/// one beyond the largest size is the largest size.
pub open spec fn count_of(count: i64) -> usize {
    if count < 0 {
        0
    } else if count > usize::MAX {
        usize::MAX
    } else {
        count as usize
    }
}

/// The number of rows of a table, from what the count statement returned.
pub fn get_table_row_count(count: i64) -> (n: usize)
    ensures
        n == count_of(count),
{
    if count < 0 {
        0
    } else if count as u64 > usize::MAX as u64 {
        usize::MAX
    } else {
        count as usize
    }
}

/// One page of a table: its columns, its primary key, whether it has one,
/// the rows of the page and the number of rows of the whole table.
pub fn get_table_data(columns: Vec<TableColumnInfo>, rows: Vec<TableRow>, total_count: i64) -> (data:
    TableData)
    ensures
        data.columns@ == columns@,
        data.rows@ == rows@,
        data.total_count == count_of(total_count),
        texts(data.primary_keys@) == key_columns(columns@),
        data.has_primary_key == (key_columns(columns@).len() > 0),
{
    let keys = primary_keys(&columns);
    let has_primary_key = keys.len() > 0;
    assert(texts(keys@).len() == keys@.len());
    TableData {
        columns,
        rows,
        total_count: get_table_row_count(total_count),
        primary_keys: keys,
        has_primary_key,
    }
}

/// The sum of a list of counts.
pub open spec fn sum(counts: Seq<u64>) -> nat
    decreases counts.len(),
{
    if counts.len() == 0 {
        0
    } else {
        sum(counts.drop_last()) + counts.last() as nat
    }
}

/// The rows affected by a batch: the sum of the rows affected by each of its
/// statements, or the largest size if the sum is beyond it.
pub fn total_affected(counts: &Vec<u64>) -> (total: usize)
    ensures
        total == (if sum(counts@) > usize::MAX {
            usize::MAX as nat
        } else {
            sum(counts@)
        }),
{
    let mut total: u64 = 0;
    let mut i: usize = 0;
    assert(counts@.take(0) =~= Seq::<u64>::empty());
    while i < counts.len()
        invariant
            0 <= i <= counts@.len(),
            total == (if sum(counts@.take(i as int)) > u64::MAX {
                u64::MAX as nat
            } else {
                sum(counts@.take(i as int))
            }),
        decreases counts@.len() - i,
    {
        assert(counts@.take(i + 1).drop_last() =~= counts@.take(i as int));
        assert(counts@.take(i + 1).last() == counts@[i as int]);
        total = total.saturating_add(counts[i]);
        i += 1;
    }
    assert(counts@.take(counts@.len() as int) =~= counts@);
    if total > usize::MAX as u64 {
        usize::MAX
    } else {
        total as usize
    }
}

/// A table without a primary key cannot be written to: every batch of edits
/// and every batch of deletions is refused as a configuration error, whatever
/// it holds.
pub proof fn lemma_no_primary_key_no_writes(
    schema: Seq<char>,
    table: Seq<char>,
    columns: Seq<TableColumnInfo>,
    updates: Seq<RowUpdate>,
    deletes: Seq<RowDelete>,
    keys: Seq<Vec<(String, DynamicValue)>>,
)
    requires
        key_columns(columns).len() == 0,
    ensures
        update_plan(schema, table, key_columns(columns), updates, keys) matches Err(e)
            && e is InvalidConfig,
        delete_plan(schema, table, key_columns(columns), deletes, keys) matches Err(e)
            && e is InvalidConfig,
        forall|update: RowUpdate, key: Seq<(String, DynamicValue)>|
            (#[trigger] update_outcome(schema, table, key_columns(columns), update, key)) matches Err(
                e,
            ) && e is InvalidConfig,
        forall|key: Seq<(String, DynamicValue)>|
            (#[trigger] delete_outcome(schema, table, key_columns(columns), key)) matches Err(e)
                && e is InvalidConfig,
{
}

} // verus!
