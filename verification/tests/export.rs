use dbpilot::commands::export::{csv_field, csv_line, csv_text, export_csv, ExportData};
use dbpilot::commands::query::execute_query;
use dbpilot::db::row_utils::{ServerCell, ServerRow, ServerValue};
use dbpilot::text::{copy_texts, push_decimal, same_text};
use dbpilot::types::value::DynamicValue;

#[test]
fn plain_texts_are_written_as_they_are() {
    assert_eq!(csv_text("hello"), "hello");
    assert_eq!(csv_text(""), "");
    assert_eq!(csv_text("it's; fine\ttoo"), "it's; fine\ttoo");
    assert_eq!(csv_text("carriage\rreturn"), "carriage\rreturn");
}

#[test]
fn texts_with_commas_quotes_or_line_feeds_are_quoted() {
    assert_eq!(csv_text("a,b"), "\"a,b\"");
    assert_eq!(csv_text("say \"hi\""), "\"say \"\"hi\"\"\"");
    assert_eq!(csv_text("two\nlines"), "\"two\nlines\"");
    assert_eq!(csv_text("\""), "\"\"\"\"");
    assert_eq!(csv_text(","), "\",\"");
    assert_eq!(csv_text("é,\"ü\""), "\"é,\"\"ü\"\"\"");
}

#[test]
fn fields_follow_the_kind_of_the_value() {
    assert_eq!(csv_field(&DynamicValue::Null, "null"), "");
    assert_eq!(csv_field(&DynamicValue::Text("a,b".to_string()), "\"a,b\""), "\"a,b\"");
    assert_eq!(csv_field(&DynamicValue::Text("plain".to_string()), "\"plain\""), "plain");
    assert_eq!(csv_field(&DynamicValue::Integer(5), "5"), "5");
    assert_eq!(csv_field(&DynamicValue::Bool(true), "true"), "true");
    assert_eq!(csv_field(&DynamicValue::Float(1.5f64.to_bits()), "1.5"), "1.5");
    assert_eq!(csv_field(&DynamicValue::Array(vec![DynamicValue::Integer(1)]), "[1]"), "[1]");
}

#[test]
fn a_line_is_its_fields_with_commas() {
    let data = ExportData {
        columns: vec!["id".to_string(), "name".to_string()],
        rows: vec![vec![DynamicValue::Integer(1), DynamicValue::Text("a,b".to_string())]],
    };
    assert_eq!(csv_line(&data.columns), "id,name");
    let fields = vec![csv_field(&data.rows[0][0], "1"), csv_field(&data.rows[0][1], "\"a,b\"")];
    assert_eq!(csv_line(&fields), "1,\"a,b\"");
    assert_eq!(csv_line(&vec![]), "");
    assert_eq!(csv_line(&vec![String::new(), String::new()]), ",");
}

#[test]
fn numbers_are_written_in_decimal() {
    for n in [0u128, 7, 10, 99, 100, 1234567890, u64::MAX as u128, u128::MAX] {
        let mut out = String::from("n=");
        push_decimal(&mut out, n);
        assert_eq!(out, format!("n={}", n));
    }
}

#[test]
fn texts_are_compared_by_their_characters() {
    assert!(same_text("", ""));
    assert!(same_text("abc", "abc"));
    assert!(!same_text("abc", "abd"));
    assert!(!same_text("abc", "ab"));
    assert!(!same_text("é", "e\u{301}"));
    assert_eq!(copy_texts(&vec!["a".to_string(), "".to_string()]), ["a", ""]);
}

fn cell(name: &str, type_tag: &str, value: ServerValue) -> ServerCell {
    ServerCell { name: name.to_string(), type_tag: type_tag.to_string(), value }
}

#[test]
fn a_result_describes_its_columns_after_the_first_row() {
    let rows = vec![
        ServerRow {
            cells: vec![cell("id", "INT4", ServerValue::Int(1)), cell("ok", "BOOL", ServerValue::Bool(true))],
        },
        ServerRow {
            cells: vec![cell("id", "INT4", ServerValue::Int(2)), cell("ok", "BOOL", ServerValue::Null)],
        },
    ];
    let result = execute_query(&rows, 12);
    assert_eq!(result.row_count, 2);
    assert_eq!(result.execution_time_ms, 12);
    assert_eq!(result.columns.len(), 2);
    assert_eq!(result.columns[0].name, "id");
    assert_eq!(result.columns[0].data_type, "INT4");
    assert_eq!(result.columns[1].name, "ok");
    assert_eq!(result.columns[1].data_type, "BOOL");
    assert_eq!(format!("{:?}", result.rows), "[[Integer(1), Bool(true)], [Integer(2), Null]]");
}

#[test]
fn a_result_without_rows_has_no_columns() {
    let result = execute_query(&vec![], 3);
    assert_eq!(result.row_count, 0);
    assert!(result.columns.is_empty());
    assert!(result.rows.is_empty());
    assert_eq!(result.execution_time_ms, 3);
}

#[test]
fn an_export_is_a_header_and_a_line_for_each_row() {
    let data = ExportData {
        columns: vec!["id".to_string(), "name".to_string(), "tags".to_string()],
        rows: vec![
            vec![
                DynamicValue::Integer(1),
                DynamicValue::Text("Ada, Countess".to_string()),
                DynamicValue::Array(vec![DynamicValue::Text("x".to_string())]),
            ],
            vec![DynamicValue::Integer(2), DynamicValue::Null, DynamicValue::Bool(true)],
            vec![],
        ],
    };
    let json_texts = vec![
        vec!["1".to_string(), "\"Ada, Countess\"".to_string(), "[\"x\"]".to_string()],
        vec!["2".to_string(), "null".to_string()],
    ];
    assert_eq!(
        export_csv(&data, &json_texts),
        ["id,name,tags", "1,\"Ada, Countess\",[\"x\"]", "2,,", ""]
    );
    let empty = ExportData { columns: vec![], rows: vec![] };
    assert_eq!(export_csv(&empty, &vec![]), [""]);
}
