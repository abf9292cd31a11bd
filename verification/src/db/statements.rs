//! The statements of the engine: their text, and their parameters in the
//! order of their placeholders.
//!
//! Every schema, table and column name enters a statement through
//! [`crate::db::sql_utils`]; values travel as parameters only.

use vstd::prelude::*;
use vstd::string::*;
use crate::db::bind::{bind_json_value, bound, bounds, BindValue, Bound};
use crate::db::row_id::{key_bounds, member_names, push_key_params};
use crate::db::sql_utils::{
    all_valid, lemma_first_refused_concat, lemma_table_refusal, quoted, quoted_each, refusal,
    safe_identifiers, safe_table_ref, table_ref, table_refusal, valid_identifier,
};
use crate::error::{AppError, ErrorView};
use crate::text::{decimal_text, join, joined, push_decimal, texts};
use crate::types::table_data::{RowInsert, RowUpdate};
use crate::types::value::DynamicValue;

verus! {

/// A statement ready to be sent: its text and its parameters in the order of
/// their placeholders.
#[derive(Debug)]
pub struct Statement {
    pub sql: String,
    pub params: Vec<BindValue>,
}

/// A statement as a mathematical value.
pub struct StatementView {
    pub sql: Seq<char>,
    pub params: Seq<Bound>,
}

impl View for Statement {
    type V = StatementView;

    open spec fn view(&self) -> StatementView {
        StatementView { sql: self.sql@, params: bounds(self.params@) }
    }
}

/// The text that counts the rows of a table.
pub open spec fn count_sql(schema: Seq<char>, table: Seq<char>) -> Seq<char> {
    "SELECT COUNT(*) FROM "@ + table_ref(schema, table)
}

/// The text that reads one page of a table.
pub open spec fn scan_sql(schema: Seq<char>, table: Seq<char>, limit: nat, offset: nat) -> Seq<
    char,
> {
    "SELECT * FROM "@ + table_ref(schema, table) + " LIMIT "@ + decimal_text(limit) + " OFFSET "@
        + decimal_text(offset)
}

/// The statement that counts the rows of a table. It has no parameters.
pub fn count_query(schema: &str, table: &str) -> (res: Result<String, AppError>)
    ensures
        res is Ok <==> valid_identifier(schema@) && valid_identifier(table@),
        res matches Ok(sql) ==> sql@ == count_sql(schema@, table@),
        res matches Err(e) ==> e@ == table_refusal(schema@, table@),
{
    match safe_table_ref(schema, table) {
        Ok(reference) => {
            let mut sql = String::from_str("SELECT COUNT(*) FROM ");
            sql.append(reference.as_str());
            Ok(sql)
        },
        Err(e) => Err(e),
    }
}

/// The statement that reads `limit` rows of a table after skipping `offset`.
/// The two numbers are written into the text in decimal; they are numbers
/// already and cannot carry anything else.
pub fn scan_query(schema: &str, table: &str, limit: usize, offset: usize) -> (res: Result<
    String,
    AppError,
>)
    ensures
        res is Ok <==> valid_identifier(schema@) && valid_identifier(table@),
        res matches Ok(sql) ==> sql@ == scan_sql(schema@, table@, limit as nat, offset as nat),
        res matches Err(e) ==> e@ == table_refusal(schema@, table@),
{
    match safe_table_ref(schema, table) {
        Ok(reference) => {
            let mut sql = String::from_str("SELECT * FROM ");
            sql.append(reference.as_str());
            sql.append(" LIMIT ");
            push_decimal(&mut sql, limit as u128);
            sql.append(" OFFSET ");
            push_decimal(&mut sql, offset as u128);
            Ok(sql)
        },
        Err(e) => Err(e),
    }
}

/// The placeholders `$first`, `$first+1`, ... for `n` parameters.
pub open spec fn placeholders(n: nat, first: nat) -> Seq<Seq<char>> {
    Seq::new(n, |i: int| "$"@ + decimal_text((first + i) as nat))
}

fn placeholder_list(n: usize, first: usize) -> (out: Vec<String>)
    ensures
        texts(out@) == placeholders(n as nat, first as nat),
{
    let mut out: Vec<String> = Vec::new();
    let mut i: usize = 0;
    while i < n
        invariant
            0 <= i <= n,
            out@.len() == i,
            forall|j: int|
                0 <= j < i ==> (#[trigger] out@[j])@ == "$"@ + decimal_text((first + j) as nat),
        decreases n - i,
    {
        let mut p = String::from_str("$");
        push_decimal(&mut p, first as u128 + i as u128);
        out.push(p);
        i += 1;
    }
    proof {
        assert(texts(out@) =~= placeholders(n as nat, first as nat));
    }
    out
}

/// The parameters that the values of a list of named values are bound as.
pub open spec fn member_bounds(members: Seq<(String, DynamicValue)>) -> Seq<Bound> {
    Seq::new(members.len(), |i: int| bound(members[i].1@))
}

fn names_of(members: &Vec<(String, DynamicValue)>) -> (out: Vec<String>)
    ensures
        texts(out@) == member_names(members@),
{
    let mut out: Vec<String> = Vec::new();
    let mut i: usize = 0;
    while i < members.len()
        invariant
            0 <= i <= members@.len(),
            out@.len() == i,
            forall|j: int| 0 <= j < i ==> (#[trigger] out@[j])@ == members@[j].0@,
        decreases members@.len() - i,
    {
        out.push(members[i].0.clone());
        i += 1;
    }
    proof {
        assert(texts(out@) =~= member_names(members@));
    }
    out
}

fn bind_members(members: &Vec<(String, DynamicValue)>) -> (out: Vec<BindValue>)
    ensures
        bounds(out@) == member_bounds(members@),
{
    let mut out: Vec<BindValue> = Vec::new();
    let mut i: usize = 0;
    while i < members.len()
        invariant
            0 <= i <= members@.len(),
            out@.len() == i,
            forall|j: int| 0 <= j < i ==> (#[trigger] out@[j])@ == bound(members@[j].1@),
        decreases members@.len() - i,
    {
        out.push(bind_json_value(&members[i].1));
        i += 1;
    }
    proof {
        assert(bounds(out@) =~= member_bounds(members@));
    }
    out
}

/// The text that inserts one row with the given columns.
pub open spec fn insert_sql(schema: Seq<char>, table: Seq<char>, columns: Seq<Seq<char>>) -> Seq<
    char,
> {
    "INSERT INTO "@ + table_ref(schema, table) + " ("@ + joined(quoted_each(columns), ", "@)
        + ") VALUES ("@ + joined(placeholders(columns.len(), 1), ", "@) + ")"@
}

/// Every name that an insert of a row writes into its text: schema, table,
/// then the columns in the row's order.
pub open spec fn insert_names(schema: Seq<char>, table: Seq<char>, row: RowInsert) -> Seq<
    Seq<char>,
> {
    seq![schema, table] + member_names(row.values@)
}

/// What inserting one row comes to: nothing for a row without values, else
/// one statement, or the refusal of the first bad name.
pub open spec fn insert_outcome(schema: Seq<char>, table: Seq<char>, row: RowInsert) -> Result<
    Option<StatementView>,
    ErrorView,
> {
    if row.values@.len() == 0 {
        Ok(None)
    } else if all_valid(insert_names(schema, table, row)) {
        Ok(
            Some(
                StatementView {
                    sql: insert_sql(schema, table, member_names(row.values@)),
                    params: member_bounds(row.values@),
                },
            ),
        )
    } else {
        Err(refusal(insert_names(schema, table, row)))
    }
}

/// The view of what a statement builder returns.
pub open spec fn outcome_view(res: Result<Option<Statement>, AppError>) -> Result<
    Option<StatementView>,
    ErrorView,
> {
    match res {
        Ok(Some(st)) => Ok(Some(st@)),
        Ok(None) => Ok(None),
        Err(e) => Err(e@),
    }
}

/// The statement that inserts one row. The columns are listed in the order
/// of the row's values, each with a placeholder of its own, and each value is
/// bound in that order. A row without values gives no statement.
pub fn insert_statement(schema: &str, table: &str, row: &RowInsert) -> (res: Result<
    Option<Statement>,
    AppError,
>)
    ensures
        outcome_view(res) == insert_outcome(schema@, table@, *row),
{
    if row.values.len() == 0 {
        return Ok(None);
    }
    proof {
        lemma_table_refusal(schema@, table@);
        lemma_first_refused_concat(seq![schema@, table@], member_names(row.values@));
    }
    let reference = match safe_table_ref(schema, table) {
        Ok(r) => r,
        Err(e) => { return Err(e); },
    };
    let names = names_of(&row.values);
    let columns = match safe_identifiers(&names) {
        Ok(c) => c,
        Err(e) => { return Err(e); },
    };
    let marks = placeholder_list(names.len(), 1);
    let mut sql = String::from_str("INSERT INTO ");
    sql.append(reference.as_str());
    sql.append(" (");
    sql.append(join(&columns, ", ").as_str());
    sql.append(") VALUES (");
    sql.append(join(&marks, ", ").as_str());
    sql.append(")");
    let params = bind_members(&row.values);
    Ok(Some(Statement { sql, params }))
}

/// The conditions `"pk" = $first`, `"pk" = $first+1`, ... that pick one row.
pub open spec fn conditions(pks: Seq<Seq<char>>, first: nat) -> Seq<Seq<char>> {
    Seq::new(pks.len(), |i: int| quoted(pks[i]) + " = $"@ + decimal_text((first + i) as nat))
}

/// Builds the conditions from names that are quoted already; the first
/// `skip` of them are passed over.
fn condition_list(quoted_names: &Vec<String>, skip: usize, first: usize) -> (out: Vec<String>)
    requires
        skip <= quoted_names@.len(),
    ensures
        out@.len() == quoted_names@.len() - skip,
        forall|j: int|
            0 <= j < out@.len() ==> (#[trigger] out@[j])@ == quoted_names@[skip + j]@ + " = $"@
                + decimal_text((first + j) as nat),
{
    let total = quoted_names.len();
    let n = total - skip;
    let mut out: Vec<String> = Vec::new();
    let mut i: usize = 0;
    while i < n
        invariant
            total == quoted_names@.len(),
            skip <= total,
            n == total - skip,
            0 <= i <= n,
            out@.len() == i,
            forall|j: int|
                0 <= j < i ==> (#[trigger] out@[j])@ == quoted_names@[skip + j]@ + " = $"@
                    + decimal_text((first + j) as nat),
        decreases n - i,
    {
        let mut c = quoted_names[skip + i].clone();
        c.append(" = $");
        push_decimal(&mut c, first as u128 + i as u128);
        out.push(c);
        i += 1;
    }
    out
}

fn copy_names(names: &Vec<String>, out: &mut Vec<String>)
    ensures
        texts(final(out)@) == texts(old(out)@) + texts(names@),
{
    let ghost start = texts(out@);
    let mut i: usize = 0;
    assert(texts(out@) =~= start + texts(names@).take(0));
    while i < names.len()
        invariant
            0 <= i <= names@.len(),
            texts(out@) == start + texts(names@).take(i as int),
        decreases names@.len() - i,
    {
        let ghost before = out@;
        out.push(names[i].clone());
        assert(texts(out@) =~= texts(before).push(names@[i as int]@));
        assert(texts(names@).take(i + 1) =~= texts(names@).take(i as int).push(
            names@[i as int]@,
        ));
        assert(texts(out@) =~= start + texts(names@).take(i + 1));
        i += 1;
    }
    assert(texts(names@).take(names@.len() as int) =~= texts(names@));
}

/// The text that gives one column of one row a new value.
pub open spec fn update_sql(
    schema: Seq<char>,
    table: Seq<char>,
    column: Seq<char>,
    pks: Seq<Seq<char>>,
) -> Seq<char> {
    "UPDATE "@ + table_ref(schema, table) + " SET "@ + quoted(column) + " = $1 WHERE "@ + joined(
        conditions(pks, 2),
        " AND "@,
    )
}

/// The text that deletes one row.
pub open spec fn delete_sql(schema: Seq<char>, table: Seq<char>, pks: Seq<Seq<char>>) -> Seq<
    char,
> {
    "DELETE FROM "@ + table_ref(schema, table) + " WHERE "@ + joined(conditions(pks, 1), " AND "@)
}

/// Every name that an update writes into its text: schema, table, the column
/// to change, then the primary-key columns in order.
pub open spec fn update_names(
    schema: Seq<char>,
    table: Seq<char>,
    column: Seq<char>,
    pks: Seq<Seq<char>>,
) -> Seq<Seq<char>> {
    seq![schema, table] + (seq![column] + pks)
}

/// Every name that a delete writes into its text: schema, table, then the
/// primary-key columns in order.
pub open spec fn delete_names(schema: Seq<char>, table: Seq<char>, pks: Seq<Seq<char>>) -> Seq<
    Seq<char>,
> {
    seq![schema, table] + pks
}

/// What one edit comes to. A table without a primary key cannot be written
/// to; a row key that holds nothing names no row, so nothing is to be done;
/// otherwise one statement, or the refusal of the first bad name. The new
/// value is the first parameter, the key values follow.
pub open spec fn update_outcome(
    schema: Seq<char>,
    table: Seq<char>,
    pks: Seq<Seq<char>>,
    update: RowUpdate,
    key: Seq<(String, DynamicValue)>,
) -> Result<Option<StatementView>, ErrorView> {
    if pks.len() == 0 {
        Err(ErrorView::InvalidConfig("Cannot update table without primary key"@))
    } else if key.len() == 0 {
        Ok(None)
    } else if all_valid(update_names(schema, table, update.column@, pks)) {
        Ok(
            Some(
                StatementView {
                    sql: update_sql(schema, table, update.column@, pks),
                    params: seq![bound(update.new_value@)] + key_bounds(pks, key),
                },
            ),
        )
    } else {
        Err(refusal(update_names(schema, table, update.column@, pks)))
    }
}

/// What one deletion comes to; as for an edit, with the key values as the
/// only parameters.
pub open spec fn delete_outcome(
    schema: Seq<char>,
    table: Seq<char>,
    pks: Seq<Seq<char>>,
    key: Seq<(String, DynamicValue)>,
) -> Result<Option<StatementView>, ErrorView> {
    if pks.len() == 0 {
        Err(ErrorView::InvalidConfig("Cannot delete from table without primary key"@))
    } else if key.len() == 0 {
        Ok(None)
    } else if all_valid(delete_names(schema, table, pks)) {
        Ok(
            Some(
                StatementView {
                    sql: delete_sql(schema, table, pks),
                    params: key_bounds(pks, key),
                },
            ),
        )
    } else {
        Err(refusal(delete_names(schema, table, pks)))
    }
}

/// The statement for one edit of one row. `key` is what the edit's row id
/// decodes to: primary-key column names with their values.
pub fn update_statement(
    schema: &str,
    table: &str,
    primary_keys: &Vec<String>,
    update: &RowUpdate,
    key: &Vec<(String, DynamicValue)>,
) -> (res: Result<Option<Statement>, AppError>)
    ensures
        outcome_view(res) == update_outcome(schema@, table@, texts(primary_keys@), *update, key@),
{
    if primary_keys.len() == 0 {
        return Err(
            AppError::InvalidConfig(String::from_str("Cannot update table without primary key")),
        );
    }
    if key.len() == 0 {
        return Ok(None);
    }
    let ghost pks = texts(primary_keys@);
    proof {
        lemma_table_refusal(schema@, table@);
        lemma_first_refused_concat(seq![schema@, table@], seq![update.column@] + pks);
    }
    let reference = match safe_table_ref(schema, table) {
        Ok(r) => r,
        Err(e) => { return Err(e); },
    };
    let mut names: Vec<String> = Vec::new();
    names.push(update.column.clone());
    assert(texts(names@) =~= seq![update.column@]);
    copy_names(primary_keys, &mut names);
    let quoted_names = match safe_identifiers(&names) {
        Ok(q) => q,
        Err(e) => { return Err(e); },
    };
    proof {
        assert(texts(names@).len() == 1 + pks.len());
        assert(texts(quoted_names@).len() == texts(names@).len());
        assert(quoted_names@.len() == 1 + pks.len());
    }
    let checks = condition_list(&quoted_names, 1, 2);
    proof {
        assert(texts(quoted_names@)[0] == quoted(texts(names@)[0]));
        assert(texts(names@)[0] == update.column@);
        assert forall|j: int| 0 <= j < pks.len() implies #[trigger] texts(checks@)[j]
            == conditions(pks, 2)[j] by {
            assert(texts(checks@)[j] == checks@[j]@);
            assert(texts(quoted_names@)[1 + j] == quoted_names@[1 + j]@);
            assert(texts(quoted_names@)[1 + j] == quoted(texts(names@)[1 + j]));
            assert(texts(names@)[1 + j] == pks[j]);
        }
        assert(texts(checks@) =~= conditions(pks, 2));
    }
    let mut sql = String::from_str("UPDATE ");
    sql.append(reference.as_str());
    sql.append(" SET ");
    sql.append(quoted_names[0].as_str());
    sql.append(" = $1 WHERE ");
    sql.append(join(&checks, " AND ").as_str());
    let mut params: Vec<BindValue> = Vec::new();
    params.push(bind_json_value(&update.new_value));
    assert(bounds(params@) =~= seq![bound(update.new_value@)]);
    push_key_params(&mut params, primary_keys, key);
    Ok(Some(Statement { sql, params }))
}

/// The statement that deletes one row. `key` is what the row id decodes to.
pub fn delete_statement(
    schema: &str,
    table: &str,
    primary_keys: &Vec<String>,
    key: &Vec<(String, DynamicValue)>,
) -> (res: Result<Option<Statement>, AppError>)
    ensures
        outcome_view(res) == delete_outcome(schema@, table@, texts(primary_keys@), key@),
{
    if primary_keys.len() == 0 {
        return Err(
            AppError::InvalidConfig(
                String::from_str("Cannot delete from table without primary key"),
            ),
        );
    }
    if key.len() == 0 {
        return Ok(None);
    }
    let ghost pks = texts(primary_keys@);
    proof {
        lemma_table_refusal(schema@, table@);
        lemma_first_refused_concat(seq![schema@, table@], pks);
    }
    let reference = match safe_table_ref(schema, table) {
        Ok(r) => r,
        Err(e) => { return Err(e); },
    };
    let quoted_names = match safe_identifiers(primary_keys) {
        Ok(q) => q,
        Err(e) => { return Err(e); },
    };
    proof {
        assert(texts(quoted_names@).len() == pks.len());
        assert(quoted_names@.len() == pks.len());
    }
    let checks = condition_list(&quoted_names, 0, 1);
    proof {
        assert forall|j: int| 0 <= j < pks.len() implies #[trigger] texts(checks@)[j]
            == conditions(pks, 1)[j] by {
            assert(texts(checks@)[j] == checks@[j]@);
            assert(texts(quoted_names@)[j] == quoted_names@[0 + j]@);
            assert(texts(quoted_names@)[j] == quoted(pks[j]));
        }
        assert(texts(checks@) =~= conditions(pks, 1));
    }
    let mut sql = String::from_str("DELETE FROM ");
    sql.append(reference.as_str());
    sql.append(" WHERE ");
    sql.append(join(&checks, " AND ").as_str());
    let mut params: Vec<BindValue> = Vec::new();
    assert(bounds(params@) =~= Seq::<Bound>::empty());
    push_key_params(&mut params, primary_keys, key);
    assert(bounds(params@) =~= key_bounds(pks, key@));
    Ok(Some(Statement { sql, params }))
}

/// No name enters a statement unchecked: wherever a statement is built,
/// every schema, table and column name in its text is a valid identifier.
pub proof fn lemma_statements_hold_checked_names_only(
    schema: Seq<char>,
    table: Seq<char>,
    pks: Seq<Seq<char>>,
    row: RowInsert,
    update: RowUpdate,
    key: Seq<(String, DynamicValue)>,
)
    ensures
        insert_outcome(schema, table, row) matches Ok(Some(_)) ==> all_valid(
            insert_names(schema, table, row),
        ),
        update_outcome(schema, table, pks, update, key) matches Ok(Some(_)) ==> all_valid(
            update_names(schema, table, update.column@, pks),
        ),
        delete_outcome(schema, table, pks, key) matches Ok(Some(_)) ==> all_valid(
            delete_names(schema, table, pks),
        ),
{
}

} // verus!
