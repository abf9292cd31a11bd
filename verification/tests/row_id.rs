use dbpilot::db::bind::bind_json_value;
use dbpilot::db::row_id::{decode_row_id, encode_row_id, row_key};
use dbpilot::db::row_utils::{ServerCell, ServerRow, ServerValue};
use dbpilot::db::statements::{delete_statement, update_statement};
use dbpilot::types::table_data::RowUpdate;
use dbpilot::types::value::DynamicValue;
use serde_json::Value;

// A caller renders a key as a JSON object with sorted names and reads it back.

fn to_json(value: &DynamicValue) -> Value {
    match value {
        DynamicValue::Null => Value::Null,
        DynamicValue::Bool(b) => Value::Bool(*b),
        DynamicValue::Integer(i) => Value::from(*i),
        DynamicValue::Float(bits) => Value::from(f64::from_bits(*bits)),
        DynamicValue::Text(s) => Value::String(s.clone()),
        DynamicValue::Array(items) => Value::Array(items.iter().map(to_json).collect()),
        DynamicValue::Object(members) => {
            Value::Object(members.iter().map(|(k, v)| (k.clone(), to_json(v))).collect())
        }
    }
}

fn from_json(value: &Value) -> DynamicValue {
    match value {
        Value::Null => DynamicValue::Null,
        Value::Bool(b) => DynamicValue::Bool(*b),
        Value::Number(n) => match n.as_i64() {
            Some(i) => DynamicValue::Integer(i),
            None => DynamicValue::Float(n.as_f64().unwrap().to_bits()),
        },
        Value::String(s) => DynamicValue::Text(s.clone()),
        Value::Array(items) => DynamicValue::Array(items.iter().map(from_json).collect()),
        Value::Object(members) => {
            DynamicValue::Object(members.iter().map(|(k, v)| (k.clone(), from_json(v))).collect())
        }
    }
}

fn render(key: &[(String, DynamicValue)]) -> Option<String> {
    let object: serde_json::Map<String, Value> = key.iter().map(|(k, v)| (k.clone(), to_json(v))).collect();
    serde_json::to_string(&object).ok()
}

fn read(row_id: &str) -> Option<Vec<(String, DynamicValue)>> {
    let object: serde_json::Map<String, Value> = serde_json::from_str(row_id).ok()?;
    Some(object.iter().map(|(k, v)| (k.clone(), from_json(v))).collect())
}

fn cell(name: &str, type_tag: &str, value: ServerValue) -> ServerCell {
    ServerCell { name: name.to_string(), type_tag: type_tag.to_string(), value }
}

fn order_line() -> ServerRow {
    ServerRow {
        cells: vec![
            cell("note", "TEXT", ServerValue::Text("fragile".to_string())),
            cell("order_id", "UUID", ServerValue::Uuid(0x0123456789abcdef_0123456789abcdef)),
            cell("line", "INT4", ServerValue::Int(3)),
            cell("sku", "TEXT", ServerValue::Text("A \"quoted\" sku".to_string())),
            cell("at", "TIMESTAMPTZ", ServerValue::TimestampTz { secs: 1_700_000_000, nanos: 0 }),
        ],
    }
}

fn names(list: &[&str]) -> Vec<String> {
    list.iter().map(|s| s.to_string()).collect()
}

#[test]
fn a_row_id_gives_back_the_primary_key_values_of_its_row() {
    let pks = names(&["order_id", "line", "sku", "at"]);
    let key = row_key(&order_line(), &pks);
    let id = encode_row_id(true, render(&key));
    assert_eq!(
        id,
        "{\"at\":\"2023-11-14T22:13:20+00:00\",\"line\":3,\"order_id\":\"01234567-89ab-cdef-0123-456789abcdef\",\"sku\":\"A \\\"quoted\\\" sku\"}"
    );
    let decoded = decode_row_id(read(&id));
    // The same entries, whatever their order in the text.
    let mut expected: Vec<String> = key.iter().map(|e| format!("{:?}", e)).collect();
    let mut found: Vec<String> = decoded.iter().map(|e| format!("{:?}", e)).collect();
    expected.sort();
    found.sort();
    assert_eq!(found, expected);
    // And the statement binds them in primary-key order.
    let statement = delete_statement("shop", "order_lines", &pks, &decoded).unwrap().unwrap();
    let bound: Vec<String> = statement.params.iter().map(|p| format!("{:?}", p)).collect();
    let from_row: Vec<String> =
        key.iter().map(|(_, v)| format!("{:?}", bind_json_value(v))).collect();
    assert_eq!(bound, from_row);
}

#[test]
fn equal_keys_have_equal_ids_whatever_the_order_of_the_primary_key() {
    let one = row_key(&order_line(), &names(&["line", "order_id"]));
    let other = row_key(&order_line(), &names(&["order_id", "line"]));
    assert_eq!(render(&one), render(&other));
}

#[test]
fn a_token_that_is_no_key_names_no_row() {
    for token in ["", "not json", "[1,2]", "7", "\"text\"", "{\"id\":", "null"] {
        let key = decode_row_id(read(token));
        assert!(key.is_empty(), "{:?}", token);
        let update = RowUpdate {
            row_id: token.to_string(),
            column: "note".to_string(),
            new_value: DynamicValue::Null,
        };
        assert!(update_statement("s", "t", &names(&["id"]), &update, &key).unwrap().is_none());
    }
    // An object without members is a key that holds nothing.
    assert!(decode_row_id(read("{}")).is_empty());
}

#[test]
fn a_table_without_primary_key_gives_every_row_the_empty_id() {
    let key = row_key(&order_line(), &names(&[]));
    assert!(key.is_empty());
    assert_eq!(encode_row_id(false, render(&key)), "");
}
