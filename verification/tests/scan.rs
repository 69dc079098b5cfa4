use turso_fdw::Adapter;
use turso_fdw::Cell;
use turso_fdw::Column;
use turso_fdw::FdwError;
use turso_fdw::Options;
use turso_fdw::TypeTag;

fn adapter() -> Adapter {
    let mut o = Options::new();
    o.set(
        "database_url".to_string(),
        "https://db-org.turso.io".to_string(),
    );
    o.set("auth_token".to_string(), "t".to_string());
    Adapter::initialize(&o).unwrap()
}

fn col(name: &str, tag: TypeTag) -> Column {
    Column {
        name: name.to_string(),
        tag,
    }
}

#[test]
fn two_rows_then_end_of_data() {
    let mut a = adapter();
    let n = a
        .begin_scan(Ok(r#"[{"a":1,"b":"x"}, {"a":2,"b":"y"}]"#.to_string()))
        .unwrap();
    assert_eq!(n, 2);
    assert_eq!(a.buffered_rows(), 2);
    assert_eq!(a.cursor(), 0);
    let cols = vec![col("b", TypeTag::Text)];
    let row1 = a.iter_scan(&cols).unwrap().unwrap();
    assert_eq!(row1, vec![Some(Cell::Text("x".to_string()))]);
    assert_eq!(a.cursor(), 1);
    let row2 = a.iter_scan(&cols).unwrap().unwrap();
    assert_eq!(row2, vec![Some(Cell::Text("y".to_string()))]);
    assert_eq!(a.cursor(), 2);
    assert!(a.iter_scan(&cols).unwrap().is_none());
    assert_eq!(a.cursor(), 2);
}

#[test]
fn missing_column_fails_and_keeps_cursor() {
    let mut a = adapter();
    a.begin_scan(Ok(r#"[{"a":1}]"#.to_string())).unwrap();
    let cols = vec![col("b", TypeTag::Text)];
    let e = a.iter_scan(&cols).unwrap_err();
    assert_eq!(e, FdwError::MissingColumn("b".to_string()));
    assert_eq!(a.cursor(), 0);
    assert_eq!(a.buffered_rows(), 1);
}

#[test]
fn boolean_from_string_is_null_not_error() {
    let mut a = adapter();
    a.begin_scan(Ok(r#"[{"c":"true"}]"#.to_string())).unwrap();
    let cols = vec![col("c", TypeTag::Boolean)];
    let row = a.iter_scan(&cols).unwrap().unwrap();
    assert_eq!(row, vec![None]);
    assert_eq!(a.cursor(), 1);
}

#[test]
fn boolean_from_boolean() {
    let mut a = adapter();
    a.begin_scan(Ok(r#"[{"f":false,"t":true}]"#.to_string()))
        .unwrap();
    let cols = vec![col("f", TypeTag::Boolean), col("t", TypeTag::Boolean)];
    let row = a.iter_scan(&cols).unwrap().unwrap();
    assert_eq!(row, vec![Some(Cell::Bool(false)), Some(Cell::Bool(true))]);
}

#[test]
fn text_from_number_is_null() {
    let mut a = adapter();
    a.begin_scan(Ok(r#"[{"a":1}]"#.to_string())).unwrap();
    let cols = vec![col("a", TypeTag::Text)];
    let row = a.iter_scan(&cols).unwrap().unwrap();
    assert_eq!(row, vec![None]);
}

#[test]
fn bad_timestamp_fails() {
    let mut a = adapter();
    a.begin_scan(Ok(r#"[{"t":"not-a-date"}]"#.to_string()))
        .unwrap();
    let cols = vec![col("t", TypeTag::Timestamp)];
    let e = a.iter_scan(&cols).unwrap_err();
    assert_eq!(e, FdwError::InvalidTimestamp("not-a-date".to_string()));
    assert_eq!(a.cursor(), 0);
}

#[test]
fn good_timestamp_yields_micros() {
    let mut a = adapter();
    a.begin_scan(Ok(r#"[{"t":"1970-01-01T00:00:01Z"}]"#.to_string()))
        .unwrap();
    let cols = vec![col("t", TypeTag::Timestamp)];
    let row = a.iter_scan(&cols).unwrap().unwrap();
    assert_eq!(row, vec![Some(Cell::Timestamp(1_000_000))]);
}

#[test]
fn timestamp_from_non_string_is_null() {
    let mut a = adapter();
    a.begin_scan(Ok(r#"[{"t":12345}]"#.to_string())).unwrap();
    let cols = vec![col("t", TypeTag::Timestamp)];
    let row = a.iter_scan(&cols).unwrap().unwrap();
    assert_eq!(row, vec![None]);
}

#[test]
fn json_column_serializes_object() {
    let mut a = adapter();
    a.begin_scan(Ok(r#"[{"j":{"b":2,"a":1},"n":5}]"#.to_string()))
        .unwrap();
    let cols = vec![col("j", TypeTag::Json)];
    let row = a.iter_scan(&cols).unwrap().unwrap();
    // canonical serialization: keys in sorted order, no spaces
    assert_eq!(row, vec![Some(Cell::Json(r#"{"a":1,"b":2}"#.to_string()))]);
}

#[test]
fn json_column_on_non_object_is_null() {
    let mut a = adapter();
    a.begin_scan(Ok(r#"[{"n":5}]"#.to_string())).unwrap();
    let cols = vec![col("n", TypeTag::Json)];
    let row = a.iter_scan(&cols).unwrap().unwrap();
    assert_eq!(row, vec![None]);
}

#[test]
fn unsupported_column_type_fails_naming_column() {
    let mut a = adapter();
    a.begin_scan(Ok(r#"[{"a":1}]"#.to_string())).unwrap();
    let cols = vec![col("a", TypeTag::Integer)];
    let e = a.iter_scan(&cols).unwrap_err();
    assert_eq!(e, FdwError::UnsupportedColumnType("a".to_string()));
}

#[test]
fn columns_in_requested_order() {
    let mut a = adapter();
    a.begin_scan(Ok(r#"[{"a":true,"b":"s"}]"#.to_string()))
        .unwrap();
    let cols = vec![col("b", TypeTag::Text), col("a", TypeTag::Boolean)];
    let row = a.iter_scan(&cols).unwrap().unwrap();
    assert_eq!(
        row,
        vec![Some(Cell::Text("s".to_string())), Some(Cell::Bool(true))]
    );
}

#[test]
fn non_object_record_fails_lookup() {
    let mut a = adapter();
    a.begin_scan(Ok(r#"[5]"#.to_string())).unwrap();
    let cols = vec![col("a", TypeTag::Text)];
    let e = a.iter_scan(&cols).unwrap_err();
    assert_eq!(e, FdwError::MissingColumn("a".to_string()));
}

#[test]
fn top_level_not_array_is_fatal() {
    let mut a = adapter();
    let e = a
        .begin_scan(Ok(r#"{"a":1}"#.to_string()))
        .unwrap_err();
    assert_eq!(e, FdwError::NotArray);
    assert_eq!(a.buffered_rows(), 0);
    assert_eq!(a.cursor(), 0);
}

#[test]
fn invalid_json_is_fatal() {
    let mut a = adapter();
    let e = a.begin_scan(Ok("[".to_string())).unwrap_err();
    match e {
        FdwError::InvalidJson(msg) => assert!(!msg.is_empty()),
        other => panic!("expected InvalidJson, got {:?}", other),
    }
    assert_eq!(a.buffered_rows(), 0);
}

#[test]
fn transport_failure_is_fatal() {
    let mut a = adapter();
    let e = a.begin_scan(Err("connection refused".to_string())).unwrap_err();
    assert_eq!(e, FdwError::Fetch("connection refused".to_string()));
    assert_eq!(a.buffered_rows(), 0);
}

#[test]
fn begin_scan_replaces_buffer_and_resets_cursor() {
    let mut a = adapter();
    a.begin_scan(Ok(r#"[{"b":"x"},{"b":"y"}]"#.to_string()))
        .unwrap();
    let cols = vec![col("b", TypeTag::Text)];
    a.iter_scan(&cols).unwrap().unwrap();
    assert_eq!(a.cursor(), 1);
    let n = a.begin_scan(Ok(r#"[{"b":"z"}]"#.to_string())).unwrap();
    assert_eq!(n, 1);
    assert_eq!(a.buffered_rows(), 1);
    assert_eq!(a.cursor(), 0);
    let row = a.iter_scan(&cols).unwrap().unwrap();
    assert_eq!(row, vec![Some(Cell::Text("z".to_string()))]);
}

#[test]
fn re_scan_always_fails_and_changes_nothing() {
    let mut a = adapter();
    a.begin_scan(Ok(r#"[{"b":"x"}]"#.to_string())).unwrap();
    let e = a.re_scan().unwrap_err();
    assert_eq!(e, FdwError::RescanUnsupported);
    assert_eq!(a.buffered_rows(), 1);
    assert_eq!(a.cursor(), 0);
    let e2 = a.re_scan().unwrap_err();
    assert_eq!(e2, FdwError::RescanUnsupported);
}

#[test]
fn end_scan_clears_and_is_idempotent() {
    let mut a = adapter();
    a.begin_scan(Ok(r#"[{"b":"x"}]"#.to_string())).unwrap();
    let cols = vec![col("b", TypeTag::Text)];
    a.iter_scan(&cols).unwrap().unwrap();
    a.end_scan().unwrap();
    assert_eq!(a.buffered_rows(), 0);
    assert_eq!(a.cursor(), 0);
    // immediately ending again: no error, no change
    a.end_scan().unwrap();
    assert_eq!(a.buffered_rows(), 0);
    assert_eq!(a.cursor(), 0);
}

#[test]
fn end_scan_without_begin_scan_succeeds() {
    let mut a = adapter();
    a.end_scan().unwrap();
    assert_eq!(a.buffered_rows(), 0);
}

#[test]
fn write_path_is_unsupported() {
    let mut a = adapter();
    a.begin_scan(Ok(r#"[{"b":"x"}]"#.to_string())).unwrap();
    let e = a.begin_modify().unwrap_err();
    assert_eq!(e, FdwError::ModifyUnsupported);
    let row = vec![Some(Cell::Bool(true))];
    a.insert(&row).unwrap();
    a.update(&Cell::Bool(true), &row).unwrap();
    a.delete(&Cell::Bool(true)).unwrap();
    a.end_modify().unwrap();
    // none of them touched the buffered rows or the cursor
    assert_eq!(a.buffered_rows(), 1);
    assert_eq!(a.cursor(), 0);
}

#[test]
fn exhausted_scan_stays_exhausted() {
    let mut a = adapter();
    a.begin_scan(Ok("[]".to_string())).unwrap();
    let cols = vec![col("b", TypeTag::Text)];
    assert!(a.iter_scan(&cols).unwrap().is_none());
    assert!(a.iter_scan(&cols).unwrap().is_none());
    assert_eq!(a.cursor(), 0);
}
