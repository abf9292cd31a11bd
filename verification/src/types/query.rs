//! The result of a statement that the caller wrote.

use vstd::prelude::*;
use crate::types::value::DynamicValue;

verus! {

#[derive(Debug, Clone, PartialEq)]
pub struct ColumnMetadata {
    pub name: String,
    pub data_type: String,
}

#[derive(Debug)]
pub struct QueryResult {
    pub columns: Vec<ColumnMetadata>,
    pub rows: Vec<Vec<DynamicValue>>,
    pub row_count: usize,
    pub execution_time_ms: u64,
}

#[derive(Debug, Clone, PartialEq)]
pub struct QueryHistoryItem {
    pub id: String,
    pub query: String,
    pub executed_at: String,
    pub row_count: Option<usize>,
    pub execution_time_ms: Option<u64>,
    pub error: Option<String>,
}

} // verus!
