//! Reading the catalog: from the rows that the metadata queries return to the
//! records of [`crate::types::schema`].
//!
//! A field that the driver could not read is taken as absent: a missing name
//! is the empty string, a missing flag is false. Column order is the order of
//! the rows, which the queries sort by ordinal position.

use vstd::prelude::*;
use vstd::string::*;
use crate::text::{
    copy_text, copy_texts, flag_or_false, or_empty, or_false, same_text, text_of, text_or_empty,
    texts,
};
use crate::text::{join, joined};
use crate::types::schema::{
    ColumnInfo, ConstraintInfo, ForeignKeyInfo, IndexInfo, SchemaInfo, TableDetailInfo, TableInfo,
};

verus! {

/// One row of the column catalog; each field as far as it could be read.
#[derive(Debug, Clone, PartialEq)]
pub struct CatalogColumn {
    pub column_name: Option<String>,
    pub data_type: Option<String>,
    /// `YES` or `NO`, as the catalog writes it.
    pub is_nullable: Option<String>,
    pub column_default: Option<String>,
    pub is_primary_key: Option<bool>,
    /// Whether the server fills the column: a sequence default, a column that
    /// is always generated, or an identity column. Any one of the three makes
    /// it true.
    pub is_auto_generated: Option<bool>,
}

/// One row of the index catalog.
#[derive(Debug, Clone, PartialEq)]
pub struct CatalogIndex {
    pub index_name: Option<String>,
    pub columns: Option<Vec<String>>,
    pub is_unique: Option<bool>,
    pub is_primary: Option<bool>,
}

/// One row of the constraint catalog. A constraint over no column, such as a
/// check, reports one absent column name.
#[derive(Debug, Clone, PartialEq)]
pub struct CatalogConstraint {
    pub constraint_name: Option<String>,
    pub constraint_type: Option<String>,
    pub columns: Option<Vec<Option<String>>>,
    pub definition: Option<String>,
}

/// One row of the foreign-key catalog: one column pair of one relationship.
#[derive(Debug, Clone, PartialEq)]
pub struct CatalogForeignKey {
    pub constraint_name: Option<String>,
    pub source_schema: Option<String>,
    pub source_table: Option<String>,
    pub source_column: Option<String>,
    pub target_schema: Option<String>,
    pub target_table: Option<String>,
    pub target_column: Option<String>,
}

/// Whether the catalog's word for nullability says yes.
pub open spec fn says_yes(word: Option<String>) -> bool {
    text_or_empty(word) == "YES"@
}

/// Whether a column record says what a catalog row says.
pub open spec fn column_of(info: ColumnInfo, raw: CatalogColumn) -> bool {
    &&& info.name@ == text_or_empty(raw.column_name)
    &&& info.data_type@ == text_or_empty(raw.data_type)
    &&& info.is_nullable == says_yes(raw.is_nullable)
    &&& info.is_primary_key == flag_or_false(raw.is_primary_key)
    &&& text_of(info.default_value) == text_of(raw.column_default)
}

/// The column record of one catalog row.
pub fn column_info(raw: &CatalogColumn) -> (info: ColumnInfo)
    ensures
        column_of(info, *raw),
{
    let word = or_empty(&raw.is_nullable);
    ColumnInfo {
        name: or_empty(&raw.column_name),
        data_type: or_empty(&raw.data_type),
        is_nullable: same_text(word.as_str(), "YES"),
        is_primary_key: or_false(&raw.is_primary_key),
        default_value: copy_text(&raw.column_default),
    }
}

/// The column records of the rows of the column catalog, in their order.
pub fn column_infos(rows: &Vec<CatalogColumn>) -> (out: Vec<ColumnInfo>)
    ensures
        out@.len() == rows@.len(),
        forall|i: int| 0 <= i < rows@.len() ==> column_of(#[trigger] out@[i], rows@[i]),
{
    let mut out: Vec<ColumnInfo> = Vec::new();
    let mut i: usize = 0;
    while i < rows.len()
        invariant
            0 <= i <= rows@.len(),
            out@.len() == i,
            forall|j: int| 0 <= j < i ==> column_of(#[trigger] out@[j], rows@[j]),
        decreases rows@.len() - i,
    {
        out.push(column_info(&rows[i]));
        i += 1;
    }
    out
}

/// The names of a list of columns that may be absent, or no names if the
/// list itself is.
pub open spec fn texts_or_none(names: Option<Vec<String>>) -> Seq<Seq<char>> {
    match names {
        Some(names) => texts(names@),
        None => Seq::empty(),
    }
}

/// Whether an index record says what a catalog row says.
pub open spec fn index_of(info: IndexInfo, raw: CatalogIndex) -> bool {
    &&& info.name@ == text_or_empty(raw.index_name)
    &&& texts(info.columns@) == texts_or_none(raw.columns)
    &&& info.is_unique == flag_or_false(raw.is_unique)
    &&& info.is_primary == flag_or_false(raw.is_primary)
}

/// The index record of one catalog row. Its columns keep the order in which
/// the catalog reports them.
pub fn index_info(raw: &CatalogIndex) -> (info: IndexInfo)
    ensures
        index_of(info, *raw),
{
    let columns = match &raw.columns {
        Some(names) => copy_texts(names),
        None => {
            let none: Vec<String> = Vec::new();
            assert(texts(none@) =~= Seq::<Seq<char>>::empty());
            none
        },
    };
    IndexInfo {
        name: or_empty(&raw.index_name),
        columns,
        is_unique: or_false(&raw.is_unique),
        is_primary: or_false(&raw.is_primary),
    }
}

/// The names that are present in a list, in order.
pub open spec fn present(names: Seq<Option<String>>) -> Seq<Seq<char>>
    decreases names.len(),
{
    if names.len() == 0 {
        Seq::empty()
    } else {
        match names.last() {
            Some(name) => present(names.drop_last()).push(name@),
            None => present(names.drop_last()),
        }
    }
}

/// The names that are present in a list that may itself be absent.
pub open spec fn present_or_none(names: Option<Vec<Option<String>>>) -> Seq<Seq<char>> {
    match names {
        Some(names) => present(names@),
        None => Seq::empty(),
    }
}

fn present_names(names: &Vec<Option<String>>) -> (out: Vec<String>)
    ensures
        texts(out@) == present(names@),
{
    let mut out: Vec<String> = Vec::new();
    let mut i: usize = 0;
    assert(names@.take(0) =~= Seq::empty());
    assert(texts(out@) =~= present(names@.take(0)));
    while i < names.len()
        invariant
            0 <= i <= names@.len(),
            texts(out@) == present(names@.take(i as int)),
        decreases names@.len() - i,
    {
        assert(names@.take(i + 1).drop_last() =~= names@.take(i as int));
        assert(names@.take(i + 1).last() == names@[i as int]);
        let ghost before = out@;
        match &names[i] {
            Some(name) => {
                out.push(name.clone());
                assert(texts(out@) =~= texts(before).push(name@));
            },
            None => {},
        }
        i += 1;
    }
    assert(names@.take(names@.len() as int) =~= names@);
    out
}

/// Whether a constraint record says what a catalog row says.
pub open spec fn constraint_of(info: ConstraintInfo, raw: CatalogConstraint) -> bool {
    &&& info.name@ == text_or_empty(raw.constraint_name)
    &&& info.constraint_type@ == text_or_empty(raw.constraint_type)
    &&& texts(info.columns@) == present_or_none(raw.columns)
    &&& text_of(info.definition) == text_of(raw.definition)
}

/// The constraint record of one catalog row. Absent column names are left
/// out; the others keep their order.
pub fn constraint_info(raw: &CatalogConstraint) -> (info: ConstraintInfo)
    ensures
        constraint_of(info, *raw),
{
    let columns = match &raw.columns {
        Some(names) => present_names(names),
        None => {
            let none: Vec<String> = Vec::new();
            assert(texts(none@) =~= Seq::<Seq<char>>::empty());
            none
        },
    };
    ConstraintInfo {
        name: or_empty(&raw.constraint_name),
        constraint_type: or_empty(&raw.constraint_type),
        columns,
        definition: copy_text(&raw.definition),
    }
}

/// Whether a foreign-key record says what a catalog row says.
pub open spec fn foreign_key_of(info: ForeignKeyInfo, raw: CatalogForeignKey) -> bool {
    &&& info.constraint_name@ == text_or_empty(raw.constraint_name)
    &&& info.source_schema@ == text_or_empty(raw.source_schema)
    &&& info.source_table@ == text_or_empty(raw.source_table)
    &&& info.source_column@ == text_or_empty(raw.source_column)
    &&& info.target_schema@ == text_or_empty(raw.target_schema)
    &&& info.target_table@ == text_or_empty(raw.target_table)
    &&& info.target_column@ == text_or_empty(raw.target_column)
}

/// The foreign-key record of one catalog row.
pub fn foreign_key_info(raw: &CatalogForeignKey) -> (info: ForeignKeyInfo)
    ensures
        foreign_key_of(info, *raw),
{
    ForeignKeyInfo {
        constraint_name: or_empty(&raw.constraint_name),
        source_schema: or_empty(&raw.source_schema),
        source_table: or_empty(&raw.source_table),
        source_column: or_empty(&raw.source_column),
        target_schema: or_empty(&raw.target_schema),
        target_table: or_empty(&raw.target_table),
        target_column: or_empty(&raw.target_column),
    }
}

/// The foreign keys of a schema or of a table: one record for each row of the
/// foreign-key catalog, in the order of the rows.
pub fn get_foreign_keys(rows: &Vec<CatalogForeignKey>) -> (out: Vec<ForeignKeyInfo>)
    ensures
        out@.len() == rows@.len(),
        forall|i: int| 0 <= i < rows@.len() ==> foreign_key_of(#[trigger] out@[i], rows@[i]),
{
    let mut out: Vec<ForeignKeyInfo> = Vec::new();
    let mut i: usize = 0;
    while i < rows.len()
        invariant
            0 <= i <= rows@.len(),
            out@.len() == i,
            forall|j: int| 0 <= j < i ==> foreign_key_of(#[trigger] out@[j], rows@[j]),
        decreases rows@.len() - i,
    {
        out.push(foreign_key_info(&rows[i]));
        i += 1;
    }
    out
}

/// The index records of the rows of the index catalog, in their order.
pub fn index_infos(rows: &Vec<CatalogIndex>) -> (out: Vec<IndexInfo>)
    ensures
        out@.len() == rows@.len(),
        forall|i: int| 0 <= i < rows@.len() ==> index_of(#[trigger] out@[i], rows@[i]),
{
    let mut out: Vec<IndexInfo> = Vec::new();
    let mut i: usize = 0;
    while i < rows.len()
        invariant
            0 <= i <= rows@.len(),
            out@.len() == i,
            forall|j: int| 0 <= j < i ==> index_of(#[trigger] out@[j], rows@[j]),
        decreases rows@.len() - i,
    {
        out.push(index_info(&rows[i]));
        i += 1;
    }
    out
}

/// The constraint records of the rows of the constraint catalog, in their
/// order.
pub fn constraint_infos(rows: &Vec<CatalogConstraint>) -> (out: Vec<ConstraintInfo>)
    ensures
        out@.len() == rows@.len(),
        forall|i: int| 0 <= i < rows@.len() ==> constraint_of(#[trigger] out@[i], rows@[i]),
{
    let mut out: Vec<ConstraintInfo> = Vec::new();
    let mut i: usize = 0;
    while i < rows.len()
        invariant
            0 <= i <= rows@.len(),
            out@.len() == i,
            forall|j: int| 0 <= j < i ==> constraint_of(#[trigger] out@[j], rows@[j]),
        decreases rows@.len() - i,
    {
        out.push(constraint_info(&rows[i]));
        i += 1;
    }
    out
}

/// Everything about one table, from the rows of the four catalogs. Each list
/// of the result has one record for each row of its catalog, in the order of
/// the rows.
pub fn get_table_detail(
    schema_name: String,
    table_name: String,
    column_rows: &Vec<CatalogColumn>,
    index_rows: &Vec<CatalogIndex>,
    constraint_rows: &Vec<CatalogConstraint>,
    foreign_key_rows: &Vec<CatalogForeignKey>,
) -> (detail: TableDetailInfo)
    ensures
        detail.schema@ == schema_name@,
        detail.name@ == table_name@,
        detail.columns@.len() == column_rows@.len(),
        forall|i: int|
            0 <= i < column_rows@.len() ==> column_of(
                #[trigger] detail.columns@[i],
                column_rows@[i],
            ),
        detail.indexes@.len() == index_rows@.len(),
        forall|i: int|
            0 <= i < index_rows@.len() ==> index_of(#[trigger] detail.indexes@[i], index_rows@[i]),
        detail.constraints@.len() == constraint_rows@.len(),
        forall|i: int|
            0 <= i < constraint_rows@.len() ==> constraint_of(
                #[trigger] detail.constraints@[i],
                constraint_rows@[i],
            ),
        detail.foreign_keys@.len() == foreign_key_rows@.len(),
        forall|i: int|
            0 <= i < foreign_key_rows@.len() ==> foreign_key_of(
                #[trigger] detail.foreign_keys@[i],
                foreign_key_rows@[i],
            ),
{
    TableDetailInfo {
        schema: schema_name,
        name: table_name,
        columns: column_infos(column_rows),
        indexes: index_infos(index_rows),
        constraints: constraint_infos(constraint_rows),
        foreign_keys: get_foreign_keys(foreign_key_rows),
    }
}

/// A column as text: its name, a space, its type.
pub open spec fn column_text(column: ColumnInfo) -> Seq<char> {
    column.name@ + " "@ + column.data_type@
}

/// The columns of a table as texts, in order.
pub open spec fn column_texts(columns: Seq<ColumnInfo>) -> Seq<Seq<char>> {
    Seq::new(columns.len(), |i: int| column_text(columns[i]))
}

/// A table as text: `schema.table(column type, column type, ...)`.
pub open spec fn table_text(table: TableInfo) -> Seq<char> {
    table.schema@ + "."@ + table.name@ + "("@ + joined(column_texts(table.columns@), ", "@)
        + ")"@
}

/// The tables of a graph as texts: schema by schema, table by table.
pub open spec fn table_texts(graph: Seq<SchemaInfo>) -> Seq<Seq<char>>
    decreases graph.len(),
{
    if graph.len() == 0 {
        Seq::empty()
    } else {
        table_texts(graph.drop_last()) + Seq::new(
            graph.last().tables@.len(),
            |i: int| table_text(graph.last().tables@[i]),
        )
    }
}

fn render_table(table: &TableInfo) -> (out: String)
    ensures
        out@ == table_text(*table),
{
    let mut columns: Vec<String> = Vec::new();
    let mut i: usize = 0;
    while i < table.columns.len()
        invariant
            0 <= i <= table.columns@.len(),
            columns@.len() == i,
            forall|j: int| 0 <= j < i ==> (#[trigger] columns@[j])@ == column_text(table.columns@[j]),
        decreases table.columns@.len() - i,
    {
        let mut text = table.columns[i].name.clone();
        text.append(" ");
        text.append(table.columns[i].data_type.as_str());
        columns.push(text);
        i += 1;
    }
    proof {
        assert(texts(columns@) =~= column_texts(table.columns@));
    }
    let mut out = table.schema.clone();
    out.append(".");
    out.append(table.name.as_str());
    out.append("(");
    out.append(join(&columns, ", ").as_str());
    out.append(")");
    out
}

/// The graph as text, to tell a language model what the database holds: one
/// line for each table, `schema.table(column type, ...)`, in the order of the
/// graph.
pub fn schema_context(graph: &Vec<SchemaInfo>) -> (out: String)
    ensures
        out@ == joined(table_texts(graph@), "\n"@),
{
    let mut lines: Vec<String> = Vec::new();
    let mut s: usize = 0;
    assert(graph@.take(0) =~= Seq::empty());
    assert(texts(lines@) =~= table_texts(graph@.take(0)));
    while s < graph.len()
        invariant
            0 <= s <= graph@.len(),
            texts(lines@) == table_texts(graph@.take(s as int)),
        decreases graph@.len() - s,
    {
        assert(graph@.take(s + 1).drop_last() =~= graph@.take(s as int));
        assert(graph@.take(s + 1).last() == graph@[s as int]);
        let ghost before = texts(lines@);
        let tables = &graph[s].tables;
        let mut t: usize = 0;
        while t < tables.len()
            invariant
                0 <= t <= tables@.len(),
                texts(lines@) == before + Seq::new(t as nat, |i: int| table_text(tables@[i])),
            decreases tables@.len() - t,
        {
            let ghost earlier = lines@;
            lines.push(render_table(&tables[t]));
            assert(texts(lines@) =~= texts(earlier).push(table_text(tables@[t as int])));
            assert(texts(lines@) =~= before + Seq::new(
                (t + 1) as nat,
                |i: int| table_text(tables@[i]),
            ));
            t += 1;
        }
        s += 1;
    }
    assert(graph@.take(graph@.len() as int) =~= graph@);
    join(&lines, "\n")
}

} // verus!
