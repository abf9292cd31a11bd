//! The result of a statement that the caller wrote: the engine sends it as it
//! is and decodes what comes back.

use vstd::prelude::*;
use crate::db::row_utils::{row_to_values, row_values, ServerRow};
use crate::types::query::{ColumnMetadata, QueryResult};
use crate::types::value::DynamicValue;

verus! {

/// Whether a column description is that of a cell of a row.
pub open spec fn describes(column: ColumnMetadata, row: ServerRow, i: int) -> bool {
    column.name@ == row.cells@[i].name@ && column.data_type@ == row.cells@[i].type_tag@
}

/// Whether a list of values is a row, decoded.
pub open spec fn decoded_row(values: Seq<DynamicValue>, row: ServerRow) -> bool {
    &&& values.len() == row.cells@.len()
    &&& forall|i: int| 0 <= i < values.len() ==> (#[trigger] values[i])@ == row_values(row)[i]
}

fn describe_columns(row: &ServerRow) -> (out: Vec<ColumnMetadata>)
    ensures
        out@.len() == row.cells@.len(),
        forall|i: int| 0 <= i < out@.len() ==> describes(#[trigger] out@[i], *row, i),
{
    let mut out: Vec<ColumnMetadata> = Vec::new();
    let mut i: usize = 0;
    while i < row.cells.len()
        invariant
            0 <= i <= row.cells@.len(),
            out@.len() == i,
            forall|j: int| 0 <= j < i ==> describes(#[trigger] out@[j], *row, j),
        decreases row.cells@.len() - i,
    {
        out.push(
            ColumnMetadata {
                name: row.cells[i].name.clone(),
                data_type: row.cells[i].type_tag.clone(),
            },
        );
        i += 1;
    }
    out
}

/// The result of a statement, from the rows that came back and the time it
/// took. The columns are described after the first row; a result without
/// rows has no columns. Every row is decoded under its own columns' types.
pub fn execute_query(rows: &Vec<ServerRow>, execution_time_ms: u64) -> (result: QueryResult)
    ensures
        result.row_count == rows@.len(),
        result.execution_time_ms == execution_time_ms,
        rows@.len() == 0 ==> result.columns@.len() == 0,
        rows@.len() > 0 ==> result.columns@.len() == rows@[0].cells@.len() && forall|i: int|
            0 <= i < result.columns@.len() ==> describes(#[trigger] result.columns@[i], rows@[0], i),
        result.rows@.len() == rows@.len(),
        forall|r: int|
            0 <= r < rows@.len() ==> decoded_row((#[trigger] result.rows@[r])@, rows@[r]),
{
    let columns = if rows.len() == 0 {
        Vec::new()
    } else {
        describe_columns(&rows[0])
    };
    let mut decoded: Vec<Vec<DynamicValue>> = Vec::new();
    let mut r: usize = 0;
    while r < rows.len()
        invariant
            0 <= r <= rows@.len(),
            decoded@.len() == r,
            forall|k: int| 0 <= k < r ==> decoded_row((#[trigger] decoded@[k])@, rows@[k]),
        decreases rows@.len() - r,
    {
        decoded.push(row_to_values(&rows[r]));
        r += 1;
    }
    QueryResult { columns, rows: decoded, row_count: rows.len(), execution_time_ms }
}

} // verus!
