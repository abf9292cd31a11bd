//! Walking the catalog: which question to ask the server next, and what the
//! answers add up to.
//!
//! The walk asks for the schemas, then for the tables of each schema in turn,
//! then for the columns of each table in turn. The caller sends each question
//! and hands back the answer; the first failure ends the walk, and nothing
//! partial is returned.

use vstd::prelude::*;
use vstd::string::*;
use crate::commands::schema::{column_infos, column_of, CatalogColumn};
use crate::error::{AppError, ErrorView};
use crate::text::texts;
use crate::types::schema::{SchemaInfo, TableInfo};

verus! {

/// What the walk wants next.
#[derive(Debug)]
pub enum CatalogAction {
    /// Ask for the names of the schemas, system schemas left out.
    ListSchemas,
    /// Ask for the names of the base tables of a schema.
    ListTables { schema: String },
    /// Ask for the columns of a table, by ordinal position.
    ListColumns { schema: String, table: String },
    /// The walk is over: here is the graph.
    Done(Vec<SchemaInfo>),
    /// The walk is over: it failed.
    Fail(AppError),
}

/// What the server answered.
#[derive(Debug)]
pub enum CatalogEvent {
    /// The names asked for, in the server's order.
    Names(Vec<String>),
    /// The columns asked for, in the server's order.
    Columns(Vec<CatalogColumn>),
    /// The question failed; the text is the server's report.
    Failed(String),
}

/// Where a walk stands.
#[derive(Debug, Clone, Copy, PartialEq, Eq, Structural)]
pub enum WalkStage {
    /// The schemas were asked for.
    Schemas,
    /// The tables of the schema at `next_schema` were asked for.
    Tables,
    /// The columns of the table at `next_table` were asked for.
    Columns,
    /// Nothing more is asked.
    Over,
}

/// A walk over the catalog.
#[derive(Debug)]
pub struct SchemaWalk {
    stage: WalkStage,
    /// The schema names, once known.
    schemas: Vec<String>,
    next_schema: usize,
    /// The table names of the schema being walked.
    tables: Vec<String>,
    next_table: usize,
    /// The schemas that are complete.
    finished: Vec<SchemaInfo>,
    /// The complete tables of the schema being walked.
    current: Vec<TableInfo>,
}

/// Whether a table record bears a name and belongs to a schema.
pub open spec fn table_named(info: TableInfo, schema: Seq<char>, table: Seq<char>) -> bool {
    info.schema@ == schema && info.name@ == table
}

/// Whether the finished schemas are the first schemas listed, name by name.
pub open spec fn schemas_in_order(finished: Seq<SchemaInfo>, names: Seq<Seq<char>>) -> bool {
    &&& finished.len() <= names.len()
    &&& forall|i: int| 0 <= i < finished.len() ==> (#[trigger] finished[i]).name@ == names[i]
}

/// Whether the finished tables are the first tables listed of a schema, name
/// by name.
pub open spec fn tables_in_order(
    current: Seq<TableInfo>,
    schema: Seq<char>,
    names: Seq<Seq<char>>,
) -> bool {
    &&& current.len() <= names.len()
    &&& forall|i: int| 0 <= i < current.len() ==> table_named(#[trigger] current[i], schema, names[i])
}

/// Names that the server lists once each give schemas that are named once
/// each: no two complete schemas bear the same name.
pub proof fn lemma_schemas_named_once(finished: Seq<SchemaInfo>, names: Seq<Seq<char>>)
    requires
        schemas_in_order(finished, names),
        names.no_duplicates(),
    ensures
        forall|i: int, j: int|
            0 <= i < j < finished.len() ==> (#[trigger] finished[i]).name@ != (
            #[trigger] finished[j]).name@,
{
}

/// Table names that the server lists once each give tables that are named
/// once each within their schema.
pub proof fn lemma_tables_named_once(
    current: Seq<TableInfo>,
    schema: Seq<char>,
    names: Seq<Seq<char>>,
)
    requires
        tables_in_order(current, schema, names),
        names.no_duplicates(),
    ensures
        forall|i: int, j: int|
            0 <= i < j < current.len() ==> (#[trigger] current[i]).name@ != (
            #[trigger] current[j]).name@,
{
}

/// The last table of a list has the given columns.
pub open spec fn last_table_has(current: Seq<TableInfo>, rows: Seq<CatalogColumn>) -> bool {
    &&& current.len() > 0
    &&& current.last().columns@.len() == rows.len()
    &&& forall|i: int|
        0 <= i < rows.len() ==> column_of(#[trigger] current.last().columns@[i], rows[i])
}

impl SchemaWalk {
    /// Where the walk stands.
    pub closed spec fn stage(&self) -> WalkStage {
        self.stage
    }

    /// The names of the schemas, as the server listed them.
    pub closed spec fn schema_names(&self) -> Seq<Seq<char>> {
        texts(self.schemas@)
    }

    /// The place, among the schemas, of the one being walked.
    pub closed spec fn schema_index(&self) -> int {
        self.next_schema as int
    }

    /// The names of the tables of the schema being walked.
    pub closed spec fn table_names(&self) -> Seq<Seq<char>> {
        texts(self.tables@)
    }

    /// The place, among those tables, of the one whose columns were asked
    /// for.
    pub closed spec fn table_index(&self) -> int {
        self.next_table as int
    }

    /// The schemas that are complete.
    pub closed spec fn finished(&self) -> Seq<SchemaInfo> {
        self.finished@
    }

    /// The complete tables of the schema being walked.
    pub closed spec fn current(&self) -> Seq<TableInfo> {
        self.current@
    }

    /// What holds of a walk between any two steps: the complete schemas are
    /// the first ones listed, in order, and the complete tables of the schema
    /// being walked are its first ones listed, in order.
    pub closed spec fn well_formed(&self) -> bool {
        match self.stage {
            WalkStage::Schemas => self.finished@.len() == 0 && self.current@.len() == 0,
            WalkStage::Tables => {
                &&& self.next_schema < self.schemas@.len()
                &&& self.finished@.len() == self.next_schema
                &&& schemas_in_order(self.finished@, texts(self.schemas@))
                &&& self.current@.len() == 0
            },
            WalkStage::Columns => {
                &&& self.next_schema < self.schemas@.len()
                &&& self.finished@.len() == self.next_schema
                &&& schemas_in_order(self.finished@, texts(self.schemas@))
                &&& self.next_table < self.tables@.len()
                &&& self.current@.len() == self.next_table
                &&& tables_in_order(
                    self.current@,
                    self.schemas@[self.next_schema as int]@,
                    texts(self.tables@),
                )
            },
            WalkStage::Over => true,
        }
    }

    /// Starts a walk. Its first question is for the schemas.
    pub fn begin() -> (start: (SchemaWalk, CatalogAction))
        ensures
            start.0.well_formed(),
            start.0.stage() == WalkStage::Schemas,
            start.1 is ListSchemas,
    {
        (
            SchemaWalk {
                stage: WalkStage::Schemas,
                schemas: Vec::new(),
                next_schema: 0,
                tables: Vec::new(),
                next_table: 0,
                finished: Vec::new(),
                current: Vec::new(),
            },
            CatalogAction::ListSchemas,
        )
    }
}

/// The complete schemas after the schema being walked was closed: they are
/// kept by the walk while schemas remain, and handed over after the last.
pub open spec fn closed_graph(before: SchemaWalk, after: SchemaWalk, action: CatalogAction) -> Seq<
    SchemaInfo,
> {
    if before.schema_index() + 1 < before.schema_names().len() {
        after.finished()
    } else {
        action->Done_0@
    }
}

/// What closing the schema being walked comes to: the schema joins the
/// complete ones with the given tables, which bear the names listed for it in
/// order; then the tables of the next schema are asked for, or, after the
/// last schema, the graph is handed over. The graph then holds one schema for
/// each name listed, in order.
pub open spec fn schema_closed(
    before: SchemaWalk,
    tables: Seq<TableInfo>,
    after: SchemaWalk,
    action: CatalogAction,
) -> bool {
    let names = before.schema_names();
    let at = before.schema_index();
    let done = closed_graph(before, after, action);
    &&& if at + 1 < names.len() {
        &&& after.stage() == WalkStage::Tables
        &&& after.schema_names() == names
        &&& after.schema_index() == at + 1
        &&& action matches CatalogAction::ListTables { schema }
        &&& schema@ == names[at + 1]
    } else {
        &&& after.stage() == WalkStage::Over
        &&& action is Done
        &&& done.len() == names.len()
        &&& forall|i: int| 0 <= i < done.len() ==> (#[trigger] done[i]).name@ == names[i]
    }
    &&& done.len() == at + 1
    &&& done.drop_last() == before.finished()
    &&& done.last().name@ == names[at]
    &&& done.last().tables@ == tables
}

/// The error of a reply that answers no question that was asked.
pub open spec fn out_of_turn(after: SchemaWalk, action: CatalogAction) -> bool {
    &&& after.stage() == WalkStage::Over
    &&& action matches CatalogAction::Fail(e)
    &&& e@ == ErrorView::Database("unexpected reply from the catalog"@)
}

/// How a walk moves on one reply.
pub open spec fn stepped(
    before: SchemaWalk,
    event: CatalogEvent,
    after: SchemaWalk,
    action: CatalogAction,
) -> bool {
    match event {
        CatalogEvent::Failed(report) => {
            &&& after.stage() == WalkStage::Over
            &&& action matches CatalogAction::Fail(e)
            &&& e@ == ErrorView::Database(report@)
        },
        CatalogEvent::Names(names) => match before.stage() {
            WalkStage::Schemas => if names@.len() == 0 {
                &&& after.stage() == WalkStage::Over
                &&& action matches CatalogAction::Done(graph)
                &&& graph@.len() == 0
            } else {
                &&& after.stage() == WalkStage::Tables
                &&& after.schema_names() == texts(names@)
                &&& after.schema_index() == 0
                &&& after.finished().len() == 0
                &&& action matches CatalogAction::ListTables { schema }
                &&& schema@ == names@[0]@
            },
            WalkStage::Tables => if names@.len() == 0 {
                schema_closed(before, Seq::empty(), after, action)
            } else {
                &&& after.stage() == WalkStage::Columns
                &&& after.schema_names() == before.schema_names()
                &&& after.schema_index() == before.schema_index()
                &&& after.finished() == before.finished()
                &&& after.table_names() == texts(names@)
                &&& after.table_index() == 0
                &&& after.current().len() == 0
                &&& action matches CatalogAction::ListColumns { schema, table }
                &&& schema@ == before.schema_names()[before.schema_index()]
                &&& table@ == names@[0]@
            },
            _ => out_of_turn(after, action),
        },
        CatalogEvent::Columns(rows) => match before.stage() {
            WalkStage::Columns => {
                let schema_name = before.schema_names()[before.schema_index()];
                let table_name = before.table_names()[before.table_index()];
                if before.table_index() + 1 < before.table_names().len() {
                    &&& after.stage() == WalkStage::Columns
                    &&& after.schema_names() == before.schema_names()
                    &&& after.schema_index() == before.schema_index()
                    &&& after.finished() == before.finished()
                    &&& after.table_names() == before.table_names()
                    &&& after.table_index() == before.table_index() + 1
                    &&& after.current().len() == before.current().len() + 1
                    &&& after.current().drop_last() == before.current()
                    &&& table_named(after.current().last(), schema_name, table_name)
                    &&& last_table_has(after.current(), rows@)
                    &&& action matches CatalogAction::ListColumns { schema, table }
                    &&& schema@ == schema_name
                    &&& table@ == before.table_names()[before.table_index() + 1]
                } else {
                    let tables = closed_graph(before, after, action).last().tables@;
                    &&& schema_closed(before, tables, after, action)
                    &&& tables.len() == before.table_names().len()
                    &&& tables.drop_last() == before.current()
                    &&& tables_in_order(tables, schema_name, before.table_names())
                    &&& last_table_has(tables, rows@)
                }
            },
            _ => out_of_turn(after, action),
        },
    }
}

impl SchemaWalk {
    fn over() -> (walk: SchemaWalk)
        ensures
            walk.well_formed(),
            walk.stage() == WalkStage::Over,
    {
        SchemaWalk {
            stage: WalkStage::Over,
            schemas: Vec::new(),
            next_schema: 0,
            tables: Vec::new(),
            next_table: 0,
            finished: Vec::new(),
            current: Vec::new(),
        }
    }

    fn close_schema(self, tables: Vec<TableInfo>) -> (next: (SchemaWalk, CatalogAction))
        requires
            self.stage == WalkStage::Tables || self.stage == WalkStage::Columns,
            self.next_schema < self.schemas@.len(),
            self.finished@.len() == self.next_schema,
            schemas_in_order(self.finished@, texts(self.schemas@)),
        ensures
            next.0.well_formed(),
            schema_closed(self, tables@, next.0, next.1),
    {
        let SchemaWalk { stage: _, schemas, next_schema, tables: _, next_table: _, finished, current: _ } = self;
        let mut finished = finished;
        let ghost before = finished@;
        let name = schemas[next_schema].clone();
        finished.push(SchemaInfo { name, tables });
        assert(finished@.drop_last() =~= before);
        assert(texts(schemas@)[next_schema as int] == schemas@[next_schema as int]@);
        assert(schemas_in_order(finished@, texts(schemas@))) by {
            assert forall|i: int| 0 <= i < finished@.len() implies (#[trigger] finished@[i]).name@
                == texts(schemas@)[i] by {
                if i < before.len() {
                    assert(finished@[i] == before[i]);
                }
            }
        }
        let count = schemas.len();
        if next_schema + 1 < count {
            let schema = schemas[next_schema + 1].clone();
            assert(texts(schemas@)[next_schema + 1] == schemas@[next_schema + 1]@);
            let walk = SchemaWalk {
                stage: WalkStage::Tables,
                schemas,
                next_schema: next_schema + 1,
                tables: Vec::new(),
                next_table: 0,
                finished,
                current: Vec::new(),
            };
            (walk, CatalogAction::ListTables { schema })
        } else {
            let walk = SchemaWalk::over();
            (walk, CatalogAction::Done(finished))
        }
    }
}

impl SchemaWalk {
    fn fail(report: String) -> (next: (SchemaWalk, CatalogAction))
        ensures
            next.0.well_formed(),
            next.0.stage() == WalkStage::Over,
            next.1 matches CatalogAction::Fail(e) && e@ == ErrorView::Database(report@),
    {
        (SchemaWalk::over(), CatalogAction::Fail(AppError::Database(report)))
    }

    fn out_of_turn() -> (next: (SchemaWalk, CatalogAction))
        ensures
            next.0.well_formed(),
            out_of_turn(next.0, next.1),
    {
        SchemaWalk::fail(String::from_str("unexpected reply from the catalog"))
    }

    /// Takes the server's answer to the last question and says what to do
    /// next. A failure ends the walk with the server's report as a database
    /// error, whatever was being asked.
    pub fn step(self, event: CatalogEvent) -> (next: (SchemaWalk, CatalogAction))
        requires
            self.well_formed(),
        ensures
            next.0.well_formed(),
            stepped(self, event, next.0, next.1),
    {
        match event {
            CatalogEvent::Failed(report) => SchemaWalk::fail(report),
            CatalogEvent::Names(names) => match self.stage {
                WalkStage::Schemas => {
                    if names.len() == 0 {
                        (SchemaWalk::over(), CatalogAction::Done(Vec::new()))
                    } else {
                        let schema = names[0].clone();
                        let walk = SchemaWalk {
                            stage: WalkStage::Tables,
                            schemas: names,
                            next_schema: 0,
                            tables: Vec::new(),
                            next_table: 0,
                            finished: Vec::new(),
                            current: Vec::new(),
                        };
                        (walk, CatalogAction::ListTables { schema })
                    }
                },
                WalkStage::Tables => {
                    if names.len() == 0 {
                        self.close_schema(Vec::new())
                    } else {
                        let schema = self.schemas[self.next_schema].clone();
                        let table = names[0].clone();
                        assert(texts(self.schemas@)[self.next_schema as int]
                            == self.schemas@[self.next_schema as int]@);
                        let walk = SchemaWalk {
                            stage: WalkStage::Columns,
                            schemas: self.schemas,
                            next_schema: self.next_schema,
                            tables: names,
                            next_table: 0,
                            finished: self.finished,
                            current: Vec::new(),
                        };
                        (walk, CatalogAction::ListColumns { schema, table })
                    }
                },
                _ => SchemaWalk::out_of_turn(),
            },
            CatalogEvent::Columns(rows) => match self.stage {
                WalkStage::Columns => {
                    let ghost before = self;
                    let ghost schema_name = texts(self.schemas@)[self.next_schema as int];
                    let ghost table_name = texts(self.tables@)[self.next_table as int];
                    let schema = self.schemas[self.next_schema].clone();
                    let name = self.tables[self.next_table].clone();
                    let info = TableInfo {
                        schema: self.schemas[self.next_schema].clone(),
                        name,
                        columns: column_infos(&rows),
                    };
                    let total = self.tables.len();
                    let mut current = self.current;
                    let ghost earlier = current@;
                    current.push(info);
                    assert(current@.drop_last() =~= earlier);
                    assert(tables_in_order(current@, schema_name, texts(self.tables@))) by {
                        assert forall|i: int| 0 <= i < current@.len() implies table_named(
                            #[trigger] current@[i],
                            schema_name,
                            texts(self.tables@)[i],
                        ) by {
                            if i < earlier.len() {
                                assert(current@[i] == earlier[i]);
                            }
                        }
                    }
                    if self.next_table + 1 < total {
                        let table = self.tables[self.next_table + 1].clone();
                        assert(texts(self.tables@)[self.next_table + 1]
                            == self.tables@[self.next_table + 1]@);
                        let walk = SchemaWalk {
                            stage: WalkStage::Columns,
                            schemas: self.schemas,
                            next_schema: self.next_schema,
                            tables: self.tables,
                            next_table: self.next_table + 1,
                            finished: self.finished,
                            current,
                        };
                        (walk, CatalogAction::ListColumns { schema, table })
                    } else {
                        let ghost tables = current@;
                        let closing = SchemaWalk {
                            stage: WalkStage::Columns,
                            schemas: self.schemas,
                            next_schema: self.next_schema,
                            tables: self.tables,
                            next_table: self.next_table,
                            finished: self.finished,
                            current: Vec::new(),
                        };
                        let next = closing.close_schema(current);
                        proof {
                            assert(closing.schema_names() == before.schema_names());
                            assert(closing.schema_index() == before.schema_index());
                            assert(closing.finished() == before.finished());
                            assert(closed_graph(before, next.0, next.1) == closed_graph(
                                closing,
                                next.0,
                                next.1,
                            ));
                            assert(schema_closed(before, tables, next.0, next.1));
                        }
                        next
                    }
                },
                _ => SchemaWalk::out_of_turn(),
            },
        }
    }
}

} // verus!
