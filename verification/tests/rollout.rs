use codex_history_store::db::query;
use codex_history_store::db::Row;
use codex_history_store::error::ThreadStoreError;
use codex_history_store::rollout::load_rollout_items;
use codex_history_store::rollout::load_session_meta;
use codex_history_store::rollout::parse_postgres_rollout_line;
use codex_history_store::rollout::require_session_meta;
use codex_history_store::rollout::rollout_fields;
use codex_history_store::rollout::rollout_item;
use codex_history_store::rollout::rollout_line_from_fields;
use codex_history_store::rollout::rollout_line_type;
use codex_history_store::rollout::rollout_payload_type;
use codex_history_store::rollout::DecodedItem;
use codex_history_store::rollout::RolloutFields;
use codex_history_store::rollout::RolloutLineError;

fn value(json: &str) -> serde_json::Value {
    serde_json::from_str(json).expect("JSON")
}

fn internal(error: ThreadStoreError) -> String {
    match error {
        ThreadStoreError::Internal { message } => message,
        other => panic!("{other:?}"),
    }
}

fn rows(sql: &'static str) -> Vec<Row> {
    let runtime = tokio::runtime::Runtime::new().expect("runtime");
    runtime.block_on(async {
        sqlx::any::install_default_drivers();
        let pool = sqlx::any::AnyPoolOptions::new()
            .max_connections(1)
            .connect("sqlite::memory:")
            .await
            .expect("open sqlite");
        query(sql).query.fetch_all(&pool).await.expect("rows")
    })
}

#[test]
fn parses_jsonb_reordered_token_count_with_float() {
    let raw = r#"{
            "type": "event_msg",
            "ordinal": 15,
            "payload": {
                "info": null,
                "type": "token_count",
                "rate_limits": {
                    "credits": null,
                    "primary": {
                        "resets_at": null,
                        "used_percent": 33.0,
                        "window_minutes": 10080
                    },
                    "limit_id": "codex",
                    "plan_type": null,
                    "secondary": null,
                    "limit_name": null,
                    "individual_limit": null,
                    "spend_control_reached": null,
                    "rate_limit_reached_type": null
                }
            },
            "timestamp": "2026-07-23T18:27:14.448Z"
        }"#;

    let line = parse_postgres_rollout_line(raw).expect("parse PostgreSQL JSONB rollout");
    let item = value(&line.item_json);
    let payload = item.get("payload").expect("payload");
    if item.get("type") != Some(&value("\"event_msg\""))
        || payload.get("type") != Some(&value("\"token_count\""))
    {
        panic!("expected token count event");
    }
    assert_eq!(
        payload
            .get("rate_limits")
            .and_then(|snapshot| snapshot.get("primary"))
            .and_then(|window| window.get("used_percent"))
            .and_then(serde_json::Value::as_f64),
        Some(33.0)
    );
    assert_eq!(line.timestamp, "2026-07-23T18:27:14.448Z");
    assert_eq!(line.ordinal, Some(15));
}

#[test]
fn writes_the_type_of_an_item_before_its_payload() {
    let line = parse_postgres_rollout_line(
        r#"{"payload": {"b": [1, "x"]}, "timestamp": "t", "type": "compacted", "ordinal": 0}"#,
    )
    .expect("line");
    assert_eq!(
        line.item_json,
        r#"{"type":"compacted","payload":{"b":[1,"x"]}}"#
    );
    assert_eq!(line.ordinal, Some(0));
}

#[test]
fn member_order_makes_no_difference() {
    let item = rollout_item(r#"{"type":"a","payload":{"x":1},"timestamp":"t"}"#).expect("item");
    let reordered =
        rollout_item(r#"{"timestamp":"t","payload":{"x":1},"type":"a"}"#).expect("item");
    assert_eq!(item, r#"{"type":"a","payload":{"x":1}}"#);
    assert_eq!(reordered, item);
}

#[test]
fn missing_members_become_null() {
    let line = parse_postgres_rollout_line(r#"{"timestamp": "t"}"#).expect("line");
    assert_eq!(line.item_json, r#"{"type":null,"payload":null}"#);
    assert_eq!(line.ordinal, None);
}

#[test]
fn ordinals_that_are_no_unsigned_integers_are_dropped() {
    for ordinal in ["-1", "1.5", "\"1\"", "null", "18446744073709551616"] {
        let raw = format!("{{\"timestamp\": \"t\", \"ordinal\": {ordinal}}}");
        let line = parse_postgres_rollout_line(&raw).expect("line");
        assert_eq!(line.ordinal, None, "{ordinal}");
    }
    let line = parse_postgres_rollout_line(
        r#"{"timestamp": "t", "ordinal": 18446744073709551615}"#,
    )
    .expect("line");
    assert_eq!(line.ordinal, Some(u64::MAX));
}

#[test]
fn refuses_rows_that_are_no_rollout_lines() {
    assert!(matches!(
        parse_postgres_rollout_line("{"),
        Err(RolloutLineError::Json(_))
    ));
    for raw in ["[]", "null", "\"timestamp\"", "3"] {
        assert!(matches!(
            parse_postgres_rollout_line(raw),
            Err(RolloutLineError::NotAnObject)
        ));
    }
    for raw in ["{}", r#"{"timestamp": 5}"#, r#"{"timestamp": null}"#] {
        assert!(matches!(
            parse_postgres_rollout_line(raw),
            Err(RolloutLineError::NoTimestamp)
        ));
    }
}

#[test]
fn says_why_a_row_is_no_rollout_line() {
    assert_eq!(
        internal(rollout_item("[]").expect_err("no object")),
        "failed to access thread history: PostgreSQL rollout row is not a JSON object"
    );
    assert_eq!(
        internal(rollout_item("{}").expect_err("no timestamp")),
        "failed to access thread history: PostgreSQL rollout row has no timestamp"
    );
    let parse_error = serde_json::from_str::<serde_json::Value>("{").expect_err("no JSON");
    assert_eq!(
        internal(rollout_item("{").expect_err("no JSON")),
        format!("failed to access thread history: {parse_error}")
    );
    assert_eq!(
        parse_error.to_string(),
        "EOF while parsing an object at line 1 column 1"
    );
}

#[test]
fn puts_lines_together_from_their_fields() {
    let fields = rollout_fields(&value(r#"{"timestamp":"t","type":"x","payload":[]}"#));
    assert!(fields.object);
    assert_eq!(fields.timestamp.as_deref(), Some("t"));
    assert_eq!(fields.line_type.as_deref().expect("type"), "\"x\"");
    assert_eq!(fields.payload.as_deref().expect("payload"), "[]");
    let line = rollout_line_from_fields(fields).expect("line");
    assert_eq!(line.item_json, r#"{"type":"x","payload":[]}"#);

    let error = serde_json::from_str::<serde_json::Value>("{").expect_err("no JSON");
    let unwritable = RolloutFields {
        object: true,
        timestamp: Some(String::from("t")),
        ordinal: None,
        line_type: Err(error),
        payload: Ok(String::from("1")),
    };
    assert!(matches!(
        rollout_line_from_fields(unwritable),
        Err(RolloutLineError::Json(_))
    ));
}

#[test]
fn names_the_types_of_lines_and_payloads() {
    let line = Some(value(
        r#"{"type": "event_msg", "payload": {"type": "token_count"}}"#,
    ));
    assert_eq!(rollout_line_type(&line), "event_msg");
    assert_eq!(rollout_payload_type(&line).as_deref(), Some("token_count"));

    for json in [r#"{}"#, r#"{"type": 1, "payload": {"type": 2}}"#, "[]"] {
        let line = Some(value(json));
        assert_eq!(rollout_line_type(&line), "unknown");
        assert_eq!(rollout_payload_type(&line), None);
    }
    assert_eq!(rollout_line_type(&None), "unknown");
    assert_eq!(rollout_payload_type(&None), None);
}

#[test]
fn loads_the_items_of_a_rollout_in_order() {
    let rows = rows(
        r#"SELECT '{"timestamp":"t","type":"a","payload":1}' AS raw_json
           UNION ALL SELECT '{"payload":2,"type":"b","timestamp":"t"}'"#,
    );
    let loaded = load_rollout_items(&rows);
    assert!(loaded.failure.is_none());
    assert_eq!(
        loaded.items,
        vec![
            r#"{"type":"a","payload":1}"#,
            r#"{"type":"b","payload":2}"#
        ]
    );
}

#[test]
fn loading_stops_at_the_first_row_that_is_no_rollout_line() {
    let rows = rows(
        r#"SELECT '{"timestamp":"t","type":"a","payload":1}' AS raw_json
           UNION ALL SELECT '[]'
           UNION ALL SELECT '{}'"#,
    );
    let loaded = load_rollout_items(&rows);
    assert_eq!(loaded.items, vec![r#"{"type":"a","payload":1}"#]);
    assert_eq!(
        internal(loaded.failure.expect("failure")),
        "failed to access thread history: PostgreSQL rollout row is not a JSON object"
    );
}

#[test]
fn loading_reports_columns_that_are_no_text() {
    let loaded = load_rollout_items(&rows("SELECT 5 AS raw_json"));
    assert!(loaded.items.is_empty());
    let message = internal(loaded.failure.expect("failure"));
    assert!(
        message.starts_with("failed to access thread history: "),
        "{message}"
    );

    let loaded = load_rollout_items(&rows("SELECT '{}' AS other"));
    assert!(loaded.failure.is_some());
}

#[test]
fn loads_session_metadata() {
    assert!(load_session_meta(&None).expect("no row").is_none());

    let mut found = rows(
        r#"SELECT '{"timestamp":"t","type":"session_meta","payload":{"id":"x"}}' AS raw_json"#,
    );
    let item = load_session_meta(&found.pop()).expect("row");
    assert_eq!(
        item.as_deref(),
        Some(r#"{"type":"session_meta","payload":{"id":"x"}}"#)
    );

    let mut broken = rows("SELECT '{}' AS raw_json");
    assert_eq!(
        internal(load_session_meta(&broken.pop()).expect_err("no timestamp")),
        "failed to access thread history: PostgreSQL rollout row has no timestamp"
    );
}

#[test]
fn session_metadata_has_to_be_session_metadata() {
    let meta = require_session_meta("t1", DecodedItem::SessionMeta(7)).expect("metadata");
    assert_eq!(meta, 7);
    let other: DecodedItem<i32> = DecodedItem::Other;
    assert_eq!(
        internal(require_session_meta("t1", other).expect_err("other item")),
        "thread t1 has an invalid PostgreSQL session metadata row"
    );
}
