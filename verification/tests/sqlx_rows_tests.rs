use datalayerapi_tidb::utils::json::JsonCell;
use datalayerapi_tidb::utils::sqlx::{
    column_kind, convert_row_to_json, datetime_cell, update_with_where, format_timestamp, is_row_history_update, pool_url,
    rows_affected_message, rows_to_json, ColumnKind, SqlColumn, SqlRow, UtcTimestamp,
};

fn column(name: &str, sql_type: &str) -> SqlColumn {
    SqlColumn {
        name: name.to_string(),
        sql_type: sql_type.to_string(),
        as_i32: None,
        as_f32_bits: None,
        as_string: None,
        as_json_text: None,
        as_bool: None,
        as_datetime: None,
    }
}

fn text(c: &JsonCell) -> Option<&str> {
    match c {
        JsonCell::Text(s) => Some(s.as_str()),
        _ => None,
    }
}

#[test]
fn type_names_select_readings() {
    for t in ["INT", "BIGINT", "SMALLINT", "TINYINT"] {
        assert!(column_kind(&t.to_string()) == ColumnKind::Integer);
    }
    assert!(column_kind(&"FLOAT".to_string()) == ColumnKind::Float);
    for t in ["VARCHAR", "TEXT", "CHAR"] {
        assert!(column_kind(&t.to_string()) == ColumnKind::Text);
    }
    assert!(column_kind(&"JSON".to_string()) == ColumnKind::Json);
    assert!(column_kind(&"BOOLEAN".to_string()) == ColumnKind::Boolean);
    assert!(column_kind(&"DATETIME".to_string()) == ColumnKind::DateTime);
    assert!(column_kind(&"TIMESTAMP".to_string()) == ColumnKind::DateTime);
    assert!(column_kind(&"int".to_string()) == ColumnKind::Other);
    assert!(column_kind(&"DECIMAL".to_string()) == ColumnKind::Other);
}

#[test]
fn integer_float_bool_columns() {
    let mut id = column("id", "INT");
    id.as_i32 = Some(7);
    id.as_string = Some("seven".to_string());
    let mut score = column("score", "FLOAT");
    score.as_f32_bits = Some(3.5f32.to_bits());
    let mut active = column("is_active", "BOOLEAN");
    active.as_bool = Some(true);
    let missing = column("n", "BIGINT");
    let row = SqlRow { columns: vec![id, score, active, missing] };
    let obj = convert_row_to_json(&row);
    assert_eq!(obj.members.len(), 4);
    assert_eq!(obj.members[0].0, "id");
    assert!(matches!(obj.members[0].1, JsonCell::Int(7)));
    assert!(matches!(obj.members[1].1, JsonCell::Float(b) if f32::from_bits(b) == 3.5));
    assert!(matches!(obj.members[2].1, JsonCell::Bool(true)));
    assert!(matches!(obj.members[3].1, JsonCell::Null));
}

#[test]
fn text_and_json_columns() {
    let mut name = column("name", "VARCHAR");
    name.as_string = Some("Alice".to_string());
    let mut addr = column("address", "JSON");
    addr.as_json_text = Some("{\"city\":\"Wonderland\"}".to_string());
    addr.as_string = Some("ignored".to_string());
    let mut other = column("price", "DECIMAL");
    other.as_string = Some("1.50".to_string());
    let blank = column("note", "TEXT");
    let obj = convert_row_to_json(&SqlRow { columns: vec![name, addr, other, blank] });
    assert_eq!(text(&obj.members[0].1), Some("Alice"));
    assert_eq!(text(&obj.members[1].1), Some("{\"city\":\"Wonderland\"}"));
    assert_eq!(text(&obj.members[2].1), Some("1.50"));
    assert!(matches!(obj.members[3].1, JsonCell::Null));
}

#[test]
fn datetime_columns() {
    let mut created = column("created_at", "TIMESTAMP");
    created.as_datetime = Some(UtcTimestamp { secs: 1736789572, nanos: 0 });
    created.as_string = Some("not used".to_string());
    let mut fallback = column("updated_at", "DATETIME");
    fallback.as_string = Some("0000-00-00 00:00:00".to_string());
    let none = column("deleted_at", "DATETIME");
    let obj = convert_row_to_json(&SqlRow { columns: vec![created, fallback, none] });
    assert_eq!(text(&obj.members[0].1), Some("2025-01-13 17:32:52"));
    assert_eq!(text(&obj.members[1].1), Some("0000-00-00 00:00:00"));
    assert!(matches!(obj.members[2].1, JsonCell::Null));
}

#[test]
fn timestamp_rendering() {
    assert_eq!(
        format_timestamp(&UtcTimestamp { secs: 1431648000, nanos: 0 }),
        Some("2015-05-15 00:00:00".to_string())
    );
    assert_eq!(
        format_timestamp(&UtcTimestamp { secs: 0, nanos: 999_999_999 }),
        Some("1970-01-01 00:00:00".to_string())
    );
    assert_eq!(format_timestamp(&UtcTimestamp { secs: i64::MAX, nanos: 0 }), None);
}

#[test]
fn rows_in_order() {
    let mut a = column("id", "INT");
    a.as_i32 = Some(1);
    let mut b = column("id", "INT");
    b.as_i32 = Some(2);
    let rows = vec![SqlRow { columns: vec![a] }, SqlRow { columns: vec![b] }];
    let objs = rows_to_json(&rows);
    assert_eq!(objs.len(), 2);
    assert!(matches!(objs[0].members[0].1, JsonCell::Int(1)));
    assert!(matches!(objs[1].members[0].1, JsonCell::Int(2)));
    assert_eq!(rows_affected_message(objs.len()), "Query OK, 2 rows affected");
    assert_eq!(rows_affected_message(0), "Query OK, 0 rows affected");
}

#[test]
fn row_history_updates() {
    assert!(is_row_history_update("UPDATE test_users SET email = 'x' where name = 'Alice'"));
    assert!(is_row_history_update("update t set a = 1 where b = 2"));
    assert!(!is_row_history_update("UPDATE test_users SET email = 'x' WHERE name = 'Alice'"));
    assert!(!is_row_history_update("SELECT * FROM t where a = 1"));
    assert!(!is_row_history_update(" update t set a = 1 where b = 2"));
}

#[test]
fn local_pool_address() {
    assert_eq!(pool_url("test"), "mysql://root:@127.0.0.1:4000/test");
}

#[test]
fn update_decision_on_lowered_text() {
    assert!(update_with_where("update t set a = 1 where b = 2", "UPDATE t SET a = 1 where b = 2"));
    assert!(!update_with_where("update t set a = 1 where b = 2", "UPDATE t SET a = 1 WHERE b = 2"));
    assert!(!update_with_where("select 1 where x", "select 1 where x"));
}

#[test]
fn datetime_member_choice() {
    assert!(matches!(datetime_cell(Some("2025-01-13 17:32:52".to_string()), &Some("x".to_string())),
        JsonCell::Text(ref t) if t == "2025-01-13 17:32:52"));
    assert!(matches!(datetime_cell(None, &Some("x".to_string())), JsonCell::Text(ref t) if t == "x"));
    assert!(matches!(datetime_cell(None, &None), JsonCell::Null));
}
