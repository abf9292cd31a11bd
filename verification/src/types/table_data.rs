//! Browsing and editing the rows of a table.

use vstd::prelude::*;
use crate::types::value::DynamicValue;

verus! {

/// One page of a table: `limit` rows after skipping `offset`.
#[derive(Debug, Clone, PartialEq)]
pub struct TableDataRequest {
    pub schema: String,
    pub table: String,
    pub limit: usize,
    pub offset: usize,
}

#[derive(Debug, Clone, PartialEq)]
pub struct TableColumnInfo {
    pub name: String,
    pub data_type: String,
    pub is_nullable: bool,
    pub is_primary_key: bool,
    /// Filled by the server: a sequence default, a generated column or an
    /// identity column.
    pub is_auto_generated: bool,
    pub default_value: Option<String>,
}

/// One row: its values in column order, and the token that names it. The
/// token is empty when the table has no primary key.
#[derive(Debug)]
pub struct TableRow {
    pub id: String,
    pub values: Vec<DynamicValue>,
}

#[derive(Debug)]
pub struct TableData {
    pub columns: Vec<TableColumnInfo>,
    pub rows: Vec<TableRow>,
    pub total_count: usize,
    pub primary_keys: Vec<String>,
    pub has_primary_key: bool,
}

/// One edit: a new value for one column of the row that `row_id` names.
#[derive(Debug)]
pub struct RowUpdate {
    pub row_id: String,
    pub column: String,
    pub new_value: DynamicValue,
}

/// A row to insert: column names and their values, in the order in which
/// they are to be listed.
#[derive(Debug)]
pub struct RowInsert {
    pub values: Vec<(String, DynamicValue)>,
}

#[derive(Debug, Clone, PartialEq)]
pub struct RowDelete {
    pub row_id: String,
}

} // verus!
