use dbpilot::commands::schema::CatalogColumn;
use dbpilot::commands::table_data::{
    delete_rows, get_column_info, get_table_data, get_table_row_count, insert_rows, primary_keys,
    table_row, total_affected, update_rows,
};
use dbpilot::db::bind::{bind_json_value, BindValue};
use dbpilot::db::row_id::{decode_row_id, encode_row_id, find_cell, find_member, row_key};
use dbpilot::db::sql_utils::safe_identifiers;
use dbpilot::db::statements::{
    count_query, delete_statement, insert_statement, scan_query, update_statement, Statement,
};
use dbpilot::text::join;
use dbpilot::db::row_utils::{decode_value, ServerCell, ServerRow, ServerValue};
use dbpilot::error::AppError;
use dbpilot::types::table_data::{RowDelete, RowInsert, RowUpdate, TableColumnInfo, TableRow};
use dbpilot::types::value::DynamicValue;

fn text(s: &str) -> DynamicValue {
    DynamicValue::Text(s.to_string())
}

fn shown_params(statement: &Statement) -> String {
    format!("{:?}", statement.params)
}

fn names(list: &[&str]) -> Vec<String> {
    list.iter().map(|s| s.to_string()).collect()
}

fn key(entries: Vec<(&str, DynamicValue)>) -> Vec<(String, DynamicValue)> {
    entries.into_iter().map(|(k, v)| (k.to_string(), v)).collect()
}

fn refusal<T: std::fmt::Debug>(res: Result<T, AppError>) -> String {
    match res {
        Err(AppError::InvalidConfig(text)) => text,
        other => panic!("expected a configuration error, got {:?}", other),
    }
}

#[test]
fn scalars_are_bound_as_their_own_kind() {
    assert_eq!(format!("{:?}", bind_json_value(&DynamicValue::Null)), "Null");
    assert_eq!(format!("{:?}", bind_json_value(&DynamicValue::Bool(true))), "Bool(true)");
    assert_eq!(format!("{:?}", bind_json_value(&DynamicValue::Integer(-3))), "Integer(-3)");
    match bind_json_value(&DynamicValue::Float(0.25f64.to_bits())) {
        BindValue::Float(bits) => assert_eq!(f64::from_bits(bits), 0.25),
        other => panic!("{:?}", other),
    }
    assert_eq!(format!("{:?}", bind_json_value(&text("hello"))), "Text(\"hello\")");
}

#[test]
fn the_word_null_is_a_sql_null() {
    for word in ["null", "NULL", "Null", "nuLL", "nULl"] {
        assert_eq!(format!("{:?}", bind_json_value(&text(word))), "Null", "{}", word);
    }
    for other in ["nul", "nulls", " null", "null ", "n\u{fc}ll", "", "none"] {
        assert_eq!(
            format!("{:?}", bind_json_value(&text(other))),
            format!("Text({:?})", other),
            "{:?}",
            other
        );
    }
}

#[test]
fn apostrophes_force_a_literal_text() {
    assert_eq!(format!("{:?}", bind_json_value(&text("'null'"))), "Text(\"null\")");
    assert_eq!(format!("{:?}", bind_json_value(&text("'NULL'"))), "Text(\"NULL\")");
    assert_eq!(format!("{:?}", bind_json_value(&text("'a'"))), "Text(\"a\")");
    assert_eq!(format!("{:?}", bind_json_value(&text("'it''s'"))), "Text(\"it''s\")");
    assert_eq!(format!("{:?}", bind_json_value(&text("'\u{e9}'"))), "Text(\"\u{e9}\")");
    // Too short to hold anything, or not wrapped on both sides: bound as it is.
    assert_eq!(format!("{:?}", bind_json_value(&text("''"))), "Text(\"''\")");
    assert_eq!(format!("{:?}", bind_json_value(&text("'"))), "Text(\"'\")");
    assert_eq!(format!("{:?}", bind_json_value(&text("'abc"))), "Text(\"'abc\")");
    assert_eq!(format!("{:?}", bind_json_value(&text("abc'"))), "Text(\"abc'\")");
}

#[test]
fn arrays_and_objects_are_bound_whole() {
    let list = DynamicValue::Array(vec![DynamicValue::Integer(1), text("x")]);
    assert_eq!(
        format!("{:?}", bind_json_value(&list)),
        "Json(Array([Integer(1), Text(\"x\")]))"
    );
    let object = DynamicValue::Object(vec![("k".to_string(), DynamicValue::Null)]);
    assert_eq!(format!("{:?}", bind_json_value(&object)), "Json(Object([(\"k\", Null)]))");
}

#[test]
fn joining_puts_the_separator_between() {
    assert_eq!(join(&names(&[]), ", "), "");
    assert_eq!(join(&names(&["a"]), ", "), "a");
    assert_eq!(join(&names(&["a", "b", "c"]), " AND "), "a AND b AND c");
    assert_eq!(join(&names(&["", ""]), "-"), "-");
}

#[test]
fn lists_of_names_are_quoted_one_by_one() {
    assert_eq!(safe_identifiers(&names(&["a", "b_2"])).unwrap(), names(&["\"a\"", "\"b_2\""]));
    assert!(safe_identifiers(&names(&[])).unwrap().is_empty());
    assert_eq!(
        refusal(safe_identifiers(&names(&["ok", "1bad", "also bad"]))),
        "Invalid identifier '1bad': must start with a letter or underscore"
    );
}

#[test]
fn count_and_scan_texts() {
    assert_eq!(count_query("public", "users").unwrap(), "SELECT COUNT(*) FROM \"public\".\"users\"");
    assert_eq!(
        scan_query("public", "users", 50, 100).unwrap(),
        "SELECT * FROM \"public\".\"users\" LIMIT 50 OFFSET 100"
    );
    assert_eq!(
        scan_query("s", "t", 0, 0).unwrap(),
        "SELECT * FROM \"s\".\"t\" LIMIT 0 OFFSET 0"
    );
    assert_eq!(
        scan_query("s", "t", 1_000_000_007, 9).unwrap(),
        "SELECT * FROM \"s\".\"t\" LIMIT 1000000007 OFFSET 9"
    );
    assert_eq!(
        scan_query("s", "t", usize::MAX, 10).unwrap(),
        format!("SELECT * FROM \"s\".\"t\" LIMIT {} OFFSET 10", usize::MAX)
    );
}

#[test]
fn count_and_scan_refuse_bad_names() {
    assert_eq!(
        refusal(count_query("public\"; DROP TABLE users; --", "users")),
        "Invalid identifier 'public\"; DROP TABLE users; --': contains invalid character '\"'"
    );
    assert_eq!(refusal(scan_query("public", "", 1, 0)), "Identifier cannot be empty");
    assert_eq!(
        refusal(scan_query("a b", "", 1, 0)),
        "Invalid identifier 'a b': contains invalid character ' '"
    );
}

fn insert(values: Vec<(&str, DynamicValue)>) -> RowInsert {
    RowInsert { values: key(values) }
}

#[test]
fn insert_lists_columns_and_placeholders_in_order() {
    let row = insert(vec![
        ("name", text("Ada")),
        ("age", DynamicValue::Integer(36)),
        ("note", text("null")),
    ]);
    let statement = insert_statement("public", "people", &row).unwrap().unwrap();
    assert_eq!(
        statement.sql,
        "INSERT INTO \"public\".\"people\" (\"name\", \"age\", \"note\") VALUES ($1, $2, $3)"
    );
    assert_eq!(shown_params(&statement), "[Text(\"Ada\"), Integer(36), Null]");
}

#[test]
fn insert_with_one_column() {
    let statement =
        insert_statement("s", "t", &insert(vec![("c", DynamicValue::Bool(false))])).unwrap().unwrap();
    assert_eq!(statement.sql, "INSERT INTO \"s\".\"t\" (\"c\") VALUES ($1)");
    assert_eq!(shown_params(&statement), "[Bool(false)]");
}

#[test]
fn insert_numbers_placeholders_past_nine() {
    let columns: Vec<String> = (0..12).map(|i| format!("c{}", i)).collect();
    let row = RowInsert {
        values: columns.iter().map(|c| (c.clone(), DynamicValue::Integer(1))).collect(),
    };
    let statement = insert_statement("s", "t", &row).unwrap().unwrap();
    assert!(statement.sql.ends_with("VALUES ($1, $2, $3, $4, $5, $6, $7, $8, $9, $10, $11, $12)"));
    assert_eq!(statement.params.len(), 12);
}

#[test]
fn insert_of_an_empty_row_is_nothing() {
    assert!(insert_statement("public", "people", &insert(vec![])).unwrap().is_none());
    // Nothing is built, so nothing is looked at.
    assert!(insert_statement("not a name", "", &insert(vec![])).unwrap().is_none());
}

#[test]
fn insert_refuses_the_first_bad_name() {
    let row = insert(vec![("ok", DynamicValue::Null), ("bad col", DynamicValue::Null)]);
    assert_eq!(
        refusal(insert_statement("public", "people", &row)),
        "Invalid identifier 'bad col': contains invalid character ' '"
    );
    assert_eq!(
        refusal(insert_statement("1s", "people", &row)),
        "Invalid identifier '1s': must start with a letter or underscore"
    );
    assert_eq!(refusal(insert_statement("s", "", &row)), "Identifier cannot be empty");
}

#[test]
fn insert_rows_given_one_empty_row_inserts_nothing() {
    let plan = insert_rows("public", "people", &vec![insert(vec![])]).unwrap();
    assert_eq!(plan.len(), 0);
    assert_eq!(total_affected(&vec![]), 0);
}

#[test]
fn insert_rows_is_one_statement_for_each_row_with_values() {
    let rows = vec![
        insert(vec![("a", DynamicValue::Integer(1))]),
        insert(vec![]),
        insert(vec![("b", DynamicValue::Integer(2)), ("c", DynamicValue::Integer(3))]),
    ];
    let plan = insert_rows("s", "t", &rows).unwrap();
    assert_eq!(plan.len(), 2);
    assert_eq!(plan[0].sql, "INSERT INTO \"s\".\"t\" (\"a\") VALUES ($1)");
    assert_eq!(plan[1].sql, "INSERT INTO \"s\".\"t\" (\"b\", \"c\") VALUES ($1, $2)");
    assert!(insert_rows("s", "t", &vec![]).unwrap().is_empty());
}

#[test]
fn insert_rows_stops_at_the_first_refusal() {
    let rows = vec![
        insert(vec![("a", DynamicValue::Integer(1))]),
        insert(vec![("b-", DynamicValue::Integer(2))]),
        insert(vec![("c c", DynamicValue::Integer(3))]),
    ];
    assert_eq!(
        refusal(insert_rows("s", "t", &rows)),
        "Invalid identifier 'b-': contains invalid character '-'"
    );
}

fn edit(column: &str, value: DynamicValue) -> RowUpdate {
    RowUpdate { row_id: "{\"id\":7}".to_string(), column: column.to_string(), new_value: value }
}

#[test]
fn update_binds_the_new_value_first_then_the_key() {
    let statement = update_statement(
        "public",
        "people",
        &names(&["id"]),
        &edit("name", text("Grace")),
        &key(vec![("id", DynamicValue::Integer(7))]),
    )
    .unwrap()
    .unwrap();
    assert_eq!(
        statement.sql,
        "UPDATE \"public\".\"people\" SET \"name\" = $1 WHERE \"id\" = $2"
    );
    assert_eq!(shown_params(&statement), "[Text(\"Grace\"), Integer(7)]");
}

#[test]
fn update_with_a_composite_key_follows_primary_key_order() {
    let statement = update_statement(
        "s",
        "t",
        &names(&["tenant", "id"]),
        &edit("v", DynamicValue::Null),
        // The key holds its entries in another order than the primary key.
        &key(vec![("id", DynamicValue::Integer(2)), ("tenant", text("acme"))]),
    )
    .unwrap()
    .unwrap();
    assert_eq!(
        statement.sql,
        "UPDATE \"s\".\"t\" SET \"v\" = $1 WHERE \"tenant\" = $2 AND \"id\" = $3"
    );
    assert_eq!(shown_params(&statement), "[Null, Text(\"acme\"), Integer(2)]");
}

#[test]
fn a_key_column_missing_from_the_row_id_binds_nothing() {
    let statement = update_statement(
        "s",
        "t",
        &names(&["a", "b"]),
        &edit("v", DynamicValue::Integer(1)),
        &key(vec![("b", DynamicValue::Integer(9)), ("z", DynamicValue::Integer(0))]),
    )
    .unwrap()
    .unwrap();
    assert_eq!(statement.sql, "UPDATE \"s\".\"t\" SET \"v\" = $1 WHERE \"a\" = $2 AND \"b\" = $3");
    assert_eq!(shown_params(&statement), "[Integer(1), Integer(9)]");
}

#[test]
fn update_without_a_primary_key_is_refused() {
    assert_eq!(
        refusal(update_statement(
            "s",
            "t",
            &names(&[]),
            &edit("v", DynamicValue::Null),
            &key(vec![("id", DynamicValue::Integer(1))])
        )),
        "Cannot update table without primary key"
    );
    assert_eq!(
        refusal(update_rows("s", "t", &names(&[]), &vec![], &vec![])),
        "Cannot update table without primary key"
    );
    assert_eq!(
        refusal(update_rows(
            "s",
            "t",
            &names(&[]),
            &vec![edit("v", DynamicValue::Null)],
            &vec![key(vec![("id", DynamicValue::Integer(1))])]
        )),
        "Cannot update table without primary key"
    );
}

#[test]
fn delete_without_a_primary_key_is_refused() {
    assert_eq!(
        refusal(delete_statement("s", "t", &names(&[]), &key(vec![("id", DynamicValue::Integer(1))]))),
        "Cannot delete from table without primary key"
    );
    assert_eq!(
        refusal(delete_rows("s", "t", &names(&[]), &vec![], &vec![])),
        "Cannot delete from table without primary key"
    );
}

#[test]
fn an_empty_key_names_no_row() {
    assert!(update_statement("s", "t", &names(&["id"]), &edit("v", DynamicValue::Null), &vec![])
        .unwrap()
        .is_none());
    assert!(delete_statement("s", "t", &names(&["id"]), &vec![]).unwrap().is_none());
    // Not even the names are looked at.
    assert!(delete_statement("bad name", "t", &names(&["id"]), &vec![]).unwrap().is_none());
}

#[test]
fn update_refuses_bad_names_in_order() {
    let k = key(vec![("id", DynamicValue::Integer(1))]);
    assert_eq!(
        refusal(update_statement("s s", "t t", &names(&["p p"]), &edit("c c", DynamicValue::Null), &k)),
        "Invalid identifier 's s': contains invalid character ' '"
    );
    assert_eq!(
        refusal(update_statement("s", "t t", &names(&["p p"]), &edit("c c", DynamicValue::Null), &k)),
        "Invalid identifier 't t': contains invalid character ' '"
    );
    assert_eq!(
        refusal(update_statement("s", "t", &names(&["p p"]), &edit("c c", DynamicValue::Null), &k)),
        "Invalid identifier 'c c': contains invalid character ' '"
    );
    assert_eq!(
        refusal(update_statement("s", "t", &names(&["p p"]), &edit("c", DynamicValue::Null), &k)),
        "Invalid identifier 'p p': contains invalid character ' '"
    );
}

#[test]
fn delete_binds_only_the_key() {
    let statement = delete_statement(
        "public",
        "people",
        &names(&["tenant", "id"]),
        &key(vec![("tenant", text("acme")), ("id", DynamicValue::Integer(2))]),
    )
    .unwrap()
    .unwrap();
    assert_eq!(
        statement.sql,
        "DELETE FROM \"public\".\"people\" WHERE \"tenant\" = $1 AND \"id\" = $2"
    );
    assert_eq!(shown_params(&statement), "[Text(\"acme\"), Integer(2)]");
    assert_eq!(
        refusal(delete_statement("s", "t", &names(&["ok", "no;"]), &key(vec![("ok", DynamicValue::Null)]))),
        "Invalid identifier 'no;': contains invalid character ';'"
    );
}

#[test]
fn update_rows_for_a_row_that_is_gone_affects_none() {
    // The row id names a key that no row has any more: the statement is built
    // all the same, the server reports no row, and the batch comes to zero.
    let plan = update_rows(
        "public",
        "people",
        &names(&["id"]),
        &vec![edit("name", text("x"))],
        &vec![key(vec![("id", DynamicValue::Integer(999_999))])],
    )
    .unwrap();
    assert_eq!(plan.len(), 1);
    assert_eq!(shown_params(&plan[0]), "[Text(\"x\"), Integer(999999)]");
    assert_eq!(total_affected(&vec![0]), 0);
}

#[test]
fn batches_skip_requests_without_a_key() {
    let updates = vec![
        edit("a", DynamicValue::Integer(1)),
        edit("b", DynamicValue::Integer(2)),
        edit("c", DynamicValue::Integer(3)),
    ];
    let keys = vec![key(vec![("id", DynamicValue::Integer(1))]), vec![]];
    let plan = update_rows("s", "t", &names(&["id"]), &updates, &keys).unwrap();
    assert_eq!(plan.len(), 1);
    assert_eq!(plan[0].sql, "UPDATE \"s\".\"t\" SET \"a\" = $1 WHERE \"id\" = $2");

    let deletes = vec![
        RowDelete { row_id: "x".to_string() },
        RowDelete { row_id: "{\"id\":2}".to_string() },
    ];
    let keys = vec![decode_row_id(None), decode_row_id(Some(key(vec![("id", DynamicValue::Integer(2))])))];
    let plan = delete_rows("s", "t", &names(&["id"]), &deletes, &keys).unwrap();
    assert_eq!(plan.len(), 1);
    assert_eq!(plan[0].sql, "DELETE FROM \"s\".\"t\" WHERE \"id\" = $1");
    assert_eq!(shown_params(&plan[0]), "[Integer(2)]");
}

#[test]
fn batches_stop_at_the_first_refusal() {
    let updates = vec![edit("fine", DynamicValue::Null), edit("not fine", DynamicValue::Null)];
    let keys = vec![key(vec![("id", DynamicValue::Null)]), key(vec![("id", DynamicValue::Null)])];
    assert_eq!(
        refusal(update_rows("s", "t", &names(&["id"]), &updates, &keys)),
        "Invalid identifier 'not fine': contains invalid character ' '"
    );
}

#[test]
fn affected_rows_are_summed() {
    assert_eq!(total_affected(&vec![]), 0);
    assert_eq!(total_affected(&vec![1, 0, 2, 1]), 4);
    assert_eq!(total_affected(&vec![u64::MAX, 1]), usize::MAX);
    assert_eq!(total_affected(&vec![u64::MAX, u64::MAX, 5]), usize::MAX);
}

#[test]
fn counts_become_sizes() {
    assert_eq!(get_table_row_count(0), 0);
    assert_eq!(get_table_row_count(1234), 1234);
    assert_eq!(get_table_row_count(-1), 0);
    assert_eq!(get_table_row_count(i64::MIN), 0);
    assert_eq!(get_table_row_count(i64::MAX), i64::MAX as usize);
}

fn catalog_column(name: &str, is_primary_key: bool) -> CatalogColumn {
    CatalogColumn {
        column_name: Some(name.to_string()),
        data_type: Some("integer".to_string()),
        is_nullable: Some("NO".to_string()),
        column_default: None,
        is_primary_key: Some(is_primary_key),
        is_auto_generated: Some(false),
    }
}

#[test]
fn table_columns_come_from_the_catalog() {
    let rows = vec![
        CatalogColumn {
            column_name: Some("id".to_string()),
            data_type: Some("integer".to_string()),
            is_nullable: Some("NO".to_string()),
            column_default: Some("nextval('people_id_seq'::regclass)".to_string()),
            is_primary_key: Some(true),
            is_auto_generated: Some(true),
        },
        CatalogColumn {
            column_name: Some("nick".to_string()),
            data_type: Some("text".to_string()),
            is_nullable: Some("YES".to_string()),
            column_default: None,
            is_primary_key: Some(false),
            is_auto_generated: None,
        },
        CatalogColumn {
            column_name: None,
            data_type: None,
            is_nullable: Some("yes".to_string()),
            column_default: None,
            is_primary_key: None,
            is_auto_generated: None,
        },
    ];
    let columns = get_column_info(&rows);
    assert_eq!(
        columns,
        vec![
            TableColumnInfo {
                name: "id".to_string(),
                data_type: "integer".to_string(),
                is_nullable: false,
                is_primary_key: true,
                is_auto_generated: true,
                default_value: Some("nextval('people_id_seq'::regclass)".to_string()),
            },
            TableColumnInfo {
                name: "nick".to_string(),
                data_type: "text".to_string(),
                is_nullable: true,
                is_primary_key: false,
                is_auto_generated: false,
                default_value: None,
            },
            TableColumnInfo {
                name: String::new(),
                data_type: String::new(),
                is_nullable: false,
                is_primary_key: false,
                is_auto_generated: false,
                default_value: None,
            },
        ]
    );
}

#[test]
fn the_primary_key_is_the_key_columns_in_column_order() {
    let columns = get_column_info(&vec![
        catalog_column("tenant", true),
        catalog_column("note", false),
        catalog_column("id", true),
    ]);
    assert_eq!(primary_keys(&columns), names(&["tenant", "id"]));
    assert!(primary_keys(&get_column_info(&vec![catalog_column("a", false)])).is_empty());
    assert!(primary_keys(&vec![]).is_empty());
}

fn cell(name: &str, type_tag: &str, value: ServerValue) -> ServerCell {
    ServerCell { name: name.to_string(), type_tag: type_tag.to_string(), value }
}

fn person() -> ServerRow {
    ServerRow {
        cells: vec![
            cell("tenant", "TEXT", ServerValue::Text("acme".to_string())),
            cell("note", "TEXT", ServerValue::Null),
            cell("id", "INT8", ServerValue::BigInt(7)),
            cell("id", "INT8", ServerValue::BigInt(8)),
        ],
    }
}

#[test]
fn cells_and_members_are_found_by_name() {
    let row = person();
    assert_eq!(find_cell(&row, "tenant"), Some(0));
    assert_eq!(find_cell(&row, "id"), Some(2));
    assert_eq!(find_cell(&row, "ID"), None);
    assert_eq!(find_cell(&ServerRow { cells: vec![] }, "id"), None);
    let k = key(vec![("a", DynamicValue::Null), ("b", DynamicValue::Null), ("a", DynamicValue::Null)]);
    assert_eq!(find_member(&k, "a"), Some(0));
    assert_eq!(find_member(&k, "b"), Some(1));
    assert_eq!(find_member(&k, "c"), None);
}

#[test]
fn the_row_key_is_the_primary_key_subset_of_the_row() {
    let k = row_key(&person(), &names(&["id", "tenant"]));
    assert_eq!(format!("{:?}", k), "[(\"id\", Integer(7)), (\"tenant\", Text(\"acme\"))]");
    // A primary-key column that the row does not have is left out.
    let k = row_key(&person(), &names(&["missing", "tenant"]));
    assert_eq!(format!("{:?}", k), "[(\"tenant\", Text(\"acme\"))]");
    assert!(row_key(&person(), &names(&[])).is_empty());
}

#[test]
fn a_key_built_from_a_row_binds_the_rows_own_values() {
    let pks = names(&["tenant", "id"]);
    let k = row_key(&person(), &pks);
    let statement = delete_statement("s", "t", &pks, &k).unwrap().unwrap();
    assert_eq!(shown_params(&statement), "[Text(\"acme\"), Integer(7)]");
}

#[test]
fn row_ids_are_the_key_text_or_empty() {
    assert_eq!(encode_row_id(true, Some("{\"id\":7}".to_string())), "{\"id\":7}");
    assert_eq!(encode_row_id(true, None), "");
    assert_eq!(encode_row_id(false, Some("{\"id\":7}".to_string())), "");
    assert_eq!(encode_row_id(false, None), "");
    assert!(decode_row_id(None).is_empty());
    assert_eq!(
        format!("{:?}", decode_row_id(Some(key(vec![("id", DynamicValue::Integer(7))])))),
        "[(\"id\", Integer(7))]"
    );
}

#[test]
fn a_page_row_has_its_id_and_its_values() {
    let row = table_row(&person(), true, Some("{\"id\":7}".to_string()));
    assert_eq!(row.id, "{\"id\":7}");
    assert_eq!(
        format!("{:?}", row.values),
        "[Text(\"acme\"), Null, Integer(7), Integer(8)]"
    );
    assert_eq!(table_row(&person(), false, Some("{}".to_string())).id, "");
}

#[test]
fn a_table_without_primary_key_has_none_and_cannot_be_written() {
    let columns = get_column_info(&vec![catalog_column("a", false), catalog_column("b", false)]);
    let rows = vec![TableRow { id: String::new(), values: vec![DynamicValue::Integer(1)] }];
    let data = get_table_data(columns, rows, 1);
    assert!(!data.has_primary_key);
    assert!(data.primary_keys.is_empty());
    assert_eq!(data.total_count, 1);
    assert_eq!(data.rows.len(), 1);
    assert_eq!(data.columns.len(), 2);
    let updates = vec![edit("a", DynamicValue::Integer(2))];
    let keys = vec![key(vec![("a", DynamicValue::Integer(1))])];
    assert!(matches!(
        update_rows("s", "t", &data.primary_keys, &updates, &keys),
        Err(AppError::InvalidConfig(_))
    ));
    assert!(matches!(
        delete_rows("s", "t", &data.primary_keys, &vec![RowDelete { row_id: String::new() }], &keys),
        Err(AppError::InvalidConfig(_))
    ));
}

#[test]
fn a_table_with_primary_key_says_so() {
    let columns = get_column_info(&vec![catalog_column("id", true), catalog_column("b", false)]);
    let data = get_table_data(columns, vec![], -5);
    assert!(data.has_primary_key);
    assert_eq!(data.primary_keys, names(&["id"]));
    assert_eq!(data.total_count, 0);
    assert!(data.rows.is_empty());
}

#[test]
fn scalars_are_bound_as_they_were_decoded() {
    let cases = vec![
        (ServerValue::SmallInt(-2), "INT2", "Integer(-2)"),
        (ServerValue::Int(7), "INT4", "Integer(7)"),
        (ServerValue::BigInt(i64::MIN), "INT8", "Integer(-9223372036854775808)"),
        (ServerValue::Bool(false), "BOOL", "Bool(false)"),
        (ServerValue::Text("plain".to_string()), "TEXT", "Text(\"plain\")"),
        (ServerValue::Text("'quoted".to_string()), "CITEXT", "Text(\"'quoted\")"),
    ];
    for (value, tag, expected) in cases {
        assert_eq!(format!("{:?}", bind_json_value(&decode_value(&value, tag))), expected);
    }
    match bind_json_value(&decode_value(&ServerValue::Float(6.5f64.to_bits()), "FLOAT8")) {
        BindValue::Float(bits) => assert_eq!(f64::from_bits(bits), 6.5),
        other => panic!("{:?}", other),
    }
    // The two texts that the bind path reads differently.
    assert_eq!(
        format!("{:?}", bind_json_value(&decode_value(&ServerValue::Text("null".to_string()), "TEXT"))),
        "Null"
    );
    assert_eq!(
        format!("{:?}", bind_json_value(&decode_value(&ServerValue::Text("'x'".to_string()), "TEXT"))),
        "Text(\"x\")"
    );
}
