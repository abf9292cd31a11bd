//! The data that the engine exchanges with its callers.

pub mod ai;
pub mod connection;
pub mod query;
pub mod schema;
pub mod table_data;
pub mod value;

pub use ai::{AiProvider, GenerateSqlRequest};
pub use connection::{ConnectionConfig, SaveConnectionInput, SavedConnection, SslMode};
pub use query::{ColumnMetadata, QueryHistoryItem, QueryResult};
pub use schema::{
    ColumnInfo, ConstraintInfo, ForeignKeyInfo, IndexInfo, SchemaInfo, TableDetailInfo, TableInfo,
};
pub use table_data::{
    RowDelete, RowInsert, RowUpdate, TableColumnInfo, TableData, TableDataRequest, TableRow,
};
pub use value::{Dynamic, DynamicValue};
