use codex_history_store::db::numbered_placeholders;
use codex_history_store::error::sqlite_integer;
use codex_history_store::error::thread_history_delete_error;
use codex_history_store::error::thread_history_error;
use codex_history_store::error::ThreadStoreError;
use codex_history_store::history::apply_change_set;
use codex_history_store::history::delete_thread;
use codex_history_store::history::turn_status;
use codex_history_store::history::ItemChange;
use codex_history_store::history::LinePosition;
use codex_history_store::history::MessagePhase;
use codex_history_store::history::Statement;
use codex_history_store::history::ThreadHistoryChangeSet;
use codex_history_store::history::ThreadItem;
use codex_history_store::history::TurnChange;
use codex_history_store::history::TurnStatus;
use codex_history_store::history_sql::DELETE_ITEMS;
use codex_history_store::history_sql::DELETE_PROJECTION_STATE;
use codex_history_store::history_sql::DELETE_TURNS;
use codex_history_store::history_sql::SET_FINAL_AGENT_ITEM;
use codex_history_store::history_sql::SET_FIRST_USER_ITEM;
use codex_history_store::history_sql::UPDATE_TURN_SUMMARY;
use codex_history_store::history_sql::UPSERT_ITEM;
use codex_history_store::history_sql::UPSERT_PROJECTION_STATE;
use codex_history_store::history_sql::UPSERT_ROLLOUT_EVENT;
use codex_history_store::history_sql::UPSERT_TURN;
use codex_history_store::projection::apply_projection;
use codex_history_store::projection::history_is_absent;
use codex_history_store::projection::next_rollout_byte_offset;
use codex_history_store::projection::next_rollout_ordinal;
use codex_history_store::projection::PlannedProjection;
use codex_history_store::projection::ProjectedRolloutLine;
use codex_history_store::projection::RolloutBatch;
use codex_history_store::projection::StoredProgress;
use codex_history_store::value::SqlValue;

fn internal(error: ThreadStoreError) -> String {
    match error {
        ThreadStoreError::Internal { message } => message,
        other => panic!("{other:?}"),
    }
}

fn shown(value: &SqlValue) -> String {
    match value {
        SqlValue::Bool(value) => format!("{value:?}"),
        SqlValue::Integer(Some(value)) => format!("{value}"),
        SqlValue::Integer(None) => String::from("null"),
        SqlValue::Text(Some(value)) => format!("'{value}'"),
        SqlValue::Text(None) => String::from("null"),
        other => panic!("{other:?}"),
    }
}

fn values(statement: &Statement) -> Vec<String> {
    statement.values.iter().map(shown).collect()
}

fn planned(projection: PlannedProjection) -> Vec<Statement> {
    assert!(projection.failure.is_none());
    projection.statements
}

fn no_changes() -> ThreadHistoryChangeSet {
    ThreadHistoryChangeSet {
        changed_turns: vec![],
        changed_items: vec![],
    }
}

fn turn(turn_id: &str, status: TurnStatus) -> TurnChange {
    TurnChange {
        turn_id: String::from(turn_id),
        status,
        error_json: None,
        started_at: Some(10),
        completed_at: None,
        duration_ms: None,
    }
}

fn item(item_id: &str, item: ThreadItem) -> ItemChange {
    ItemChange {
        turn_id: String::from("turn"),
        item_id: String::from(item_id),
        item,
        item_json: String::from("{}"),
    }
}

fn line(ordinal: u64, start: u64, end: u64) -> ProjectedRolloutLine {
    ProjectedRolloutLine {
        ordinal,
        start_byte_offset: start,
        end_byte_offset: end,
        created_at_ms: 7,
        line_type: String::from("event_msg"),
        payload_type: None,
        raw_json: String::from("{}"),
        changes: no_changes(),
    }
}

const POSITION: LinePosition = LinePosition {
    ordinal: 3,
    byte_offset: 100,
    end_byte_offset: 150,
    created_at_ms: 1234,
};

#[test]
fn names_turn_statuses() {
    assert_eq!(turn_status(&TurnStatus::Completed), "completed");
    assert_eq!(turn_status(&TurnStatus::Interrupted), "interrupted");
    assert_eq!(turn_status(&TurnStatus::Failed), "failed");
    assert_eq!(turn_status(&TurnStatus::InProgress), "inProgress");
}

#[test]
fn integers_of_the_database_have_no_more_than_sixty_three_bits() {
    assert_eq!(sqlite_integer(0, "x").expect("zero"), 0);
    assert_eq!(
        sqlite_integer(i64::MAX as u64, "x").expect("largest"),
        i64::MAX
    );
    assert_eq!(
        internal(sqlite_integer(i64::MAX as u64 + 1, "rollout ordinal").expect_err("too large")),
        "rollout ordinal exceeds SQLite integer range"
    );
}

#[test]
fn history_errors_say_what_failed() {
    assert_eq!(
        internal(thread_history_error("no such table")),
        "failed to access thread history: no such table"
    );
    assert_eq!(
        internal(thread_history_delete_error(&5)),
        "failed to delete thread history: 5"
    );
    let message = internal(ThreadStoreError::from(sqlx::Error::RowNotFound));
    assert_eq!(
        message,
        format!(
            "failed to access thread history: {}",
            sqlx::Error::RowNotFound
        )
    );
}

#[test]
fn ended_turns_store_where_they_ended() {
    for status in [
        TurnStatus::Completed,
        TurnStatus::Interrupted,
        TurnStatus::Failed,
    ] {
        let mut statements = vec![];
        let mut change = turn("turn", status);
        change.error_json = Some(String::from("{\"message\":\"x\"}"));
        change.duration_ms = Some(5);
        let changes = ThreadHistoryChangeSet {
            changed_turns: vec![change],
            changed_items: vec![],
        };
        apply_change_set(&mut statements, "thread", POSITION, &changes);
        assert_eq!(statements.len(), 2);
        assert_eq!(statements[0].sql, UPSERT_TURN);
        let status = format!("'{}'", turn_status(&status));
        assert_eq!(
            values(&statements[0]),
            vec![
                "'thread'",
                "'turn'",
                "3",
                "100",
                "3",
                "150",
                status.as_str(),
                "'{\"message\":\"x\"}'",
                "10",
                "null",
                "5",
            ]
        );
    }
}

#[test]
fn turns_in_progress_have_no_end() {
    let mut statements = vec![];
    let changes = ThreadHistoryChangeSet {
        changed_turns: vec![turn("turn", TurnStatus::InProgress)],
        changed_items: vec![],
    };
    apply_change_set(&mut statements, "thread", POSITION, &changes);
    assert_eq!(
        values(&statements[0]),
        vec![
            "'thread'",
            "'turn'",
            "3",
            "100",
            "null",
            "null",
            "'inProgress'",
            "null",
            "10",
            "null",
            "null",
        ]
    );
    assert_eq!(statements[1].sql, UPDATE_TURN_SUMMARY);
    assert_eq!(
        values(&statements[1]),
        vec![
            "'thread'", "'turn'", "'thread'", "'turn'", "'thread'", "'turn'", "'thread'", "'turn'",
            "3",
        ]
    );
}

#[test]
fn messages_are_kept_on_the_row_of_their_turn() {
    let mut statements = vec![];
    let changes = ThreadHistoryChangeSet {
        changed_turns: vec![],
        changed_items: vec![
            item("user", ThreadItem::UserMessage),
            item(
                "final",
                ThreadItem::AgentMessage {
                    phase: Some(MessagePhase::FinalAnswer),
                },
            ),
            item(
                "comment",
                ThreadItem::AgentMessage {
                    phase: Some(MessagePhase::Commentary),
                },
            ),
            item("plain", ThreadItem::AgentMessage { phase: None }),
            item("other", ThreadItem::Other),
        ],
    };
    apply_change_set(&mut statements, "thread", POSITION, &changes);
    let sql: Vec<&str> = statements.iter().map(|statement| statement.sql).collect();
    assert_eq!(
        sql,
        vec![
            UPSERT_ITEM,
            SET_FIRST_USER_ITEM,
            UPSERT_ITEM,
            SET_FINAL_AGENT_ITEM,
            UPSERT_ITEM,
            UPSERT_ITEM,
            UPSERT_ITEM,
        ]
    );
    assert_eq!(
        values(&statements[0]),
        vec!["'thread'", "'turn'", "'user'", "3", "3", "1234", "'userMessage'", "'{}'"]
    );
    assert_eq!(values(&statements[1]), vec!["'user'", "'thread'", "'turn'"]);
    assert_eq!(values(&statements[3]), vec!["'final'", "'thread'", "'turn'"]);
    assert_eq!(values(&statements[5])[6], "'agentMessage'");
    assert_eq!(values(&statements[6])[6], "''");
}

#[test]
fn turns_are_stored_before_items() {
    let mut statements = vec![];
    let changes = ThreadHistoryChangeSet {
        changed_turns: vec![
            turn("a", TurnStatus::InProgress),
            turn("b", TurnStatus::Completed),
        ],
        changed_items: vec![item("i", ThreadItem::Other)],
    };
    apply_change_set(&mut statements, "thread", POSITION, &changes);
    let sql: Vec<&str> = statements.iter().map(|statement| statement.sql).collect();
    assert_eq!(
        sql,
        vec![
            UPSERT_TURN,
            UPDATE_TURN_SUMMARY,
            UPSERT_TURN,
            UPDATE_TURN_SUMMARY,
            UPSERT_ITEM,
        ]
    );
    assert_eq!(values(&statements[2])[1], "'b'");
}

#[test]
fn deletes_what_is_projected_of_a_thread() {
    let statements = delete_thread("t");
    let sql: Vec<&str> = statements.iter().map(|statement| statement.sql).collect();
    assert_eq!(sql, vec![DELETE_ITEMS, DELETE_TURNS, DELETE_PROJECTION_STATE]);
    assert_eq!(DELETE_ITEMS, "DELETE FROM thread_items WHERE thread_id = ?");
    assert_eq!(DELETE_TURNS, "DELETE FROM thread_turns WHERE thread_id = ?");
    assert_eq!(
        DELETE_PROJECTION_STATE,
        "DELETE FROM thread_history_projection_state WHERE thread_id = ?"
    );
    for statement in &statements {
        assert_eq!(values(statement), vec!["'t'"]);
    }
}

fn all_kinds_of_statements() -> Vec<Statement> {
    let mut changed = line(0, 0, 3);
    changed.changes = ThreadHistoryChangeSet {
        changed_turns: vec![turn("a", TurnStatus::Completed)],
        changed_items: vec![
            item("user", ThreadItem::UserMessage),
            item(
                "final",
                ThreadItem::AgentMessage {
                    phase: Some(MessagePhase::FinalAnswer),
                },
            ),
        ],
    };
    let mut statements = planned(apply_projection("thread", 0, 3, None, true, &vec![changed]));
    statements.extend(delete_thread("thread"));
    statements
}

#[test]
fn every_parameter_of_a_statement_has_a_value() {
    let statements = all_kinds_of_statements();
    assert_eq!(statements.len(), 11);
    for statement in &statements {
        let numbered = numbered_placeholders(statement.sql);
        let count = statement.values.len();
        assert!(numbered.contains(&format!("${count}")), "{numbered}");
        assert!(
            !numbered.contains(&format!("${}", count + 1)),
            "{numbered}"
        );
    }
}

#[test]
fn every_statement_is_bound_to_its_thread() {
    for statement in all_kinds_of_statements() {
        assert!(values(&statement).contains(&String::from("'thread'")));
    }
}

#[test]
fn a_missing_local_database_has_no_history() {
    assert!(history_is_absent(false, false));
    assert!(!history_is_absent(true, false));
    assert!(!history_is_absent(false, true));
    assert!(!history_is_absent(true, true));
}

#[test]
fn goes_on_from_the_stored_progress() {
    for stored in [StoredProgress::NoDatabase, StoredProgress::Stored(None)] {
        assert_eq!(next_rollout_byte_offset("t", stored).expect("offset"), 0);
        assert_eq!(next_rollout_ordinal("t", stored).expect("ordinal"), 0);
    }
    let stored = StoredProgress::Stored(Some(42));
    assert_eq!(next_rollout_byte_offset("t", stored).expect("offset"), 42);
    assert_eq!(next_rollout_ordinal("t", stored).expect("ordinal"), 42);
    let negative = StoredProgress::Stored(Some(-1));
    assert_eq!(
        internal(next_rollout_byte_offset("t", negative).expect_err("negative")),
        "thread history projection for t has a negative byte offset"
    );
    assert_eq!(
        internal(next_rollout_ordinal("t", negative).expect_err("negative")),
        "thread history projection for t has a negative ordinal"
    );
}

#[test]
fn batches_span_their_lines_and_newlines() {
    let mut batch = RolloutBatch::new(100, 5);
    let json: serde_json::Value =
        serde_json::from_str(r#"{"type":"a","payload":{"type":"b"}}"#).expect("JSON");
    let line_json = Some(json);
    assert_eq!(batch.next_ordinal().expect("ordinal"), 5);
    batch
        .push(
            "1970-01-01T00:00:01.500Z",
            String::from("{\"é\"}"),
            &line_json,
            no_changes(),
        )
        .expect("first");
    assert_eq!(batch.next_ordinal().expect("ordinal"), 6);
    batch
        .push(
            "1970-01-01T01:00:00+01:00",
            String::from("{}"),
            &None,
            no_changes(),
        )
        .expect("second");

    let projection = batch.into_projection().expect("lines");
    assert_eq!(projection.start_offset, 100);
    assert_eq!(projection.next_offset, 110);
    let first = &projection.lines[0];
    assert_eq!(first.ordinal, 5);
    assert_eq!((first.start_byte_offset, first.end_byte_offset), (100, 107));
    assert_eq!(first.created_at_ms, 1500);
    assert_eq!(first.line_type, "a");
    assert_eq!(first.payload_type.as_deref(), Some("b"));
    assert_eq!(first.raw_json, "{\"é\"}");
    let second = &projection.lines[1];
    assert_eq!(second.ordinal, 6);
    assert_eq!(
        (second.start_byte_offset, second.end_byte_offset),
        (107, 110)
    );
    assert_eq!(second.created_at_ms, 0);
    assert_eq!(second.line_type, "unknown");
    assert_eq!(second.payload_type, None);
}

#[test]
fn an_empty_batch_has_nothing_to_project() {
    assert!(RolloutBatch::new(3, 4).into_projection().is_none());
}

#[test]
fn refused_lines_leave_a_batch_as_it_was() {
    let timestamp = "1970-01-01T00:00:00Z";
    let mut batch = RolloutBatch::new(0, 0);
    let error = batch
        .push("yesterday", String::from("{}"), &None, no_changes())
        .expect_err("no timestamp");
    let parse_error =
        chrono::DateTime::parse_from_rfc3339("yesterday").expect_err("no timestamp");
    assert_eq!(
        internal(error),
        format!("failed to access thread history: {parse_error}")
    );
    assert_eq!(parse_error.to_string(), "premature end of input");
    assert_eq!(batch.next_ordinal().expect("ordinal"), 0);
    assert!(batch.into_projection().is_none());

    let mut far = RolloutBatch::new(u64::MAX - 2, 0);
    let error = far
        .push(timestamp, String::from("{}"), &None, no_changes())
        .expect_err("too far");
    assert_eq!(internal(error), "PostgreSQL rollout byte position overflow");

    let mut last = RolloutBatch::new(0, u64::MAX);
    last.push(timestamp, String::from("{}"), &None, no_changes())
        .expect("last ordinal");
    assert_eq!(
        internal(last.next_ordinal().expect_err("no more")),
        "PostgreSQL rollout ordinal overflow"
    );
    let error = last
        .push(timestamp, String::from("{}"), &None, no_changes())
        .expect_err("no more");
    assert_eq!(internal(error), "PostgreSQL rollout ordinal overflow");
}

#[test]
fn batches_are_projected_and_advance_the_stored_progress() {
    let mut batch = RolloutBatch::new(10, 2);
    for _ in 0..3 {
        batch
            .push(
                "1970-01-01T00:00:00Z",
                String::from("{}"),
                &None,
                no_changes(),
            )
            .expect("line");
    }
    let projection = batch.into_projection().expect("lines");
    let statements = planned(apply_projection(
        "t",
        projection.start_offset,
        projection.next_offset,
        Some((10, 2)),
        true,
        &projection.lines,
    ));
    let sql: Vec<&str> = statements.iter().map(|statement| statement.sql).collect();
    assert_eq!(
        sql,
        vec![
            UPSERT_ROLLOUT_EVENT,
            UPSERT_ROLLOUT_EVENT,
            UPSERT_ROLLOUT_EVENT,
            UPSERT_PROJECTION_STATE,
        ]
    );
    assert_eq!(values(&statements[3]), vec!["'t'", "19", "5"]);
}

#[test]
fn lines_are_stored_only_where_the_rollout_lives_in_the_database() {
    let mut stored = line(0, 0, 3);
    stored.payload_type = Some(String::from("token_count"));
    let statements = planned(apply_projection("t", 0, 3, None, true, &vec![stored]));
    assert_eq!(statements[0].sql, UPSERT_ROLLOUT_EVENT);
    assert_eq!(
        values(&statements[0]),
        vec!["'t'", "0", "0", "3", "7", "'event_msg'", "'token_count'", "'{}'"]
    );

    let statements = planned(apply_projection("t", 0, 3, None, false, &vec![line(0, 0, 3)]));
    assert_eq!(statements.len(), 1);
    assert_eq!(statements[0].sql, UPSERT_PROJECTION_STATE);
    assert_eq!(values(&statements[0]), vec!["'t'", "3", "1"]);
}

#[test]
fn refuses_projections_that_do_not_go_on_from_the_stored_progress() {
    let refused = |start: u64, next: u64, state, lines: Vec<ProjectedRolloutLine>| {
        internal(
            apply_projection("t", start, next, state, true, &lines)
                .failure
                .expect("refused"),
        )
    };
    assert_eq!(
        refused(5, 8, None, vec![]),
        "thread history projection for t is behind durable rollout"
    );
    assert_eq!(
        refused(5, 8, Some((4, 0)), vec![]),
        "thread history projection for t is behind durable rollout"
    );
    assert_eq!(
        refused(4, 8, Some((4, 2)), vec![line(3, 4, 8)]),
        "thread history projection for t expected ordinal 2, got 3"
    );
    assert_eq!(
        refused(4, 8, Some((4, -2)), vec![line(3, 4, 8)]),
        "thread history projection for t expected ordinal -2, got 3"
    );
    assert_eq!(
        refused(4, 8, Some((4, 2)), vec![line(2, 4, 8), line(2, 8, 9)]),
        "thread history projection for t expected ordinal 3, got 2"
    );
}

#[test]
fn refuses_numbers_that_the_database_cannot_store() {
    let large = i64::MAX as u64 + 1;
    let refused = |start: u64, next: u64, state, lines: Vec<ProjectedRolloutLine>| {
        internal(
            apply_projection("t", start, next, state, true, &lines)
                .failure
                .expect("refused"),
        )
    };
    assert_eq!(
        refused(large, large, None, vec![]),
        "rollout byte offset exceeds SQLite integer range"
    );
    assert_eq!(
        refused(0, large, None, vec![]),
        "rollout byte offset exceeds SQLite integer range"
    );
    assert_eq!(
        refused(0, 1, None, vec![line(large, 0, 1)]),
        "rollout ordinal exceeds SQLite integer range"
    );
    assert_eq!(
        refused(0, 1, None, vec![line(0, large, 1)]),
        "rollout byte offset exceeds SQLite integer range"
    );
    assert_eq!(
        refused(0, 1, None, vec![line(0, 0, large)]),
        "rollout byte offset exceeds SQLite integer range"
    );
    assert_eq!(
        refused(0, 1, Some((0, i64::MAX)), vec![line(i64::MAX as u64, 0, 1)]),
        "rollout ordinal exceeds SQLite integer range"
    );
}

#[test]
fn lines_before_a_problem_are_executed_before_it_is_reported() {
    let lines = vec![line(2, 4, 8), line(7, 8, 9), line(4, 9, 10)];
    let projection = apply_projection("t", 4, 10, Some((4, 2)), true, &lines);
    assert_eq!(projection.statements.len(), 1);
    assert_eq!(values(&projection.statements[0])[1], "2");
    assert_eq!(
        internal(projection.failure.expect("gap")),
        "thread history projection for t expected ordinal 3, got 7"
    );

    // The last ordinal of all is written before the next one turns out not to exist.
    let last = vec![line(i64::MAX as u64, 0, 1)];
    let projection = apply_projection("t", 0, 1, Some((0, i64::MAX)), true, &last);
    assert_eq!(projection.statements.len(), 1);
    assert!(projection.failure.is_some());

    let far = apply_projection("t", 0, u64::MAX, None, true, &vec![line(0, 0, 1)]);
    assert_eq!(far.statements.len(), 1);
    assert_eq!(
        internal(far.failure.expect("offset")),
        "rollout byte offset exceeds SQLite integer range"
    );
}
