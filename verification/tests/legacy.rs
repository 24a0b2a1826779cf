use codex_history_store::legacy::history_deletions;
use codex_history_store::legacy::update_mode_sql;
use codex_history_store::legacy::LegacyAction;
use codex_history_store::legacy::LegacyError;
use codex_history_store::legacy::LegacyEvent;
use codex_history_store::legacy::LegacyProjection;
use codex_history_store::legacy::RolloutLocation;
use codex_history_store::legacy::SELECT_THREADS;
use codex_history_store::owners::owned_thread_ids;
use codex_history_store::text::find_suffix;
use sqlx::sqlite::SqliteRow;

const OWNERS: &[u8] = br#"{"t1": "alice", "t2": "bob", "t3": "alice", "t4": "alice", "": "alice"}"#;

fn rows(sql: &'static str) -> Vec<SqliteRow> {
    let runtime = tokio::runtime::Runtime::new().expect("runtime");
    runtime.block_on(async {
        let pool = sqlx::sqlite::SqlitePoolOptions::new()
            .max_connections(1)
            .connect("sqlite::memory:")
            .await
            .expect("open sqlite");
        sqlx::query(sql).fetch_all(&pool).await.expect("rows")
    })
}

fn start(sql: &'static str, user: &str) -> (LegacyProjection, LegacyAction) {
    let owned = owned_thread_ids(OWNERS, user).expect("owners");
    LegacyProjection::new("codex", owned, rows(sql)).expect("start")
}

const THREADS: &str = "SELECT 't1' AS id, '/a/sessions/1.jsonl' AS rollout_path
    UNION ALL SELECT 't2', '/b'
    UNION ALL SELECT 't3', '/c'
    UNION ALL SELECT 't4', '/d/sessions/x/sessions/4.jsonl'";

fn stored(action: LegacyAction) -> String {
    match action {
        LegacyAction::CheckStored { path } => path,
        other => panic!("{other:?}"),
    }
}

fn sessions(action: LegacyAction) -> String {
    match action {
        LegacyAction::CheckSessions { suffix } => suffix,
        other => panic!("{other:?}"),
    }
}

#[test]
fn selects_threads_in_the_order_of_their_creation() {
    assert_eq!(
        SELECT_THREADS,
        "SELECT id, rollout_path FROM threads ORDER BY created_at, id"
    );
}

#[test]
fn finds_what_follows_the_first_marker() {
    let suffix = |text: &str| find_suffix(text, "/sessions/");
    assert_eq!(suffix("/a/sessions/b").as_deref(), Some("b"));
    assert_eq!(
        suffix("/a/sessions/b/sessions/c").as_deref(),
        Some("b/sessions/c")
    );
    assert_eq!(suffix("/sessions/").as_deref(), Some(""));
    assert_eq!(suffix("é/sessions/ü").as_deref(), Some("ü"));
    assert_eq!(suffix("sessions/b"), None);
    assert_eq!(suffix("/session/s"), None);
    assert_eq!(suffix(""), None);
    assert_eq!(find_suffix("", "").as_deref(), Some(""));
    assert_eq!(find_suffix("ab", "").as_deref(), Some("ab"));
    assert_eq!(find_suffix("aab", "ab").as_deref(), Some(""));
}

#[test]
fn deletes_the_history_of_a_thread() {
    assert_eq!(
        history_deletions("codex"),
        vec![
            "DELETE FROM \"codex\".\"thread_items\" WHERE thread_id = $1",
            "DELETE FROM \"codex\".\"thread_turns\" WHERE thread_id = $1",
            "DELETE FROM \"codex\".\"thread_rollout_events\" WHERE thread_id = $1",
            "DELETE FROM \"codex\".\"thread_history_projection_state\" WHERE thread_id = $1",
        ]
    );
    assert_eq!(
        update_mode_sql("codex"),
        "UPDATE \"codex\".threads SET history_mode = 'paginated' WHERE id = ANY($1)"
    );
}

#[test]
fn projects_the_threads_of_a_user() {
    let (mut projection, action) = start(THREADS, "alice");
    assert_eq!(stored(action), "/a/sessions/1.jsonl");
    let action = projection.step(LegacyEvent::FileFound).expect("step");
    let LegacyAction::Project {
        thread_id,
        rollout,
        deletions,
    } = action
    else {
        panic!("{action:?}");
    };
    assert_eq!(thread_id, "t1");
    assert!(matches!(rollout, RolloutLocation::Stored(path) if path == "/a/sessions/1.jsonl"));
    assert_eq!(deletions, history_deletions("codex"));

    // The thread of another user is passed over; a path without the marker is missing.
    let action = projection.step(LegacyEvent::Projected).expect("step");
    assert_eq!(stored(action), "/c");
    let action = projection.step(LegacyEvent::FileMissing).expect("step");
    assert_eq!(stored(action), "/d/sessions/x/sessions/4.jsonl");
    let action = projection.step(LegacyEvent::FileMissing).expect("step");
    assert_eq!(sessions(action), "x/sessions/4.jsonl");
    let action = projection.step(LegacyEvent::FileFound).expect("step");
    let LegacyAction::Project { rollout, .. } = action else {
        panic!("{action:?}");
    };
    assert!(matches!(rollout, RolloutLocation::Sessions(suffix) if suffix == "x/sessions/4.jsonl"));

    let action = projection.step(LegacyEvent::Projected).expect("step");
    let LegacyAction::Update { sql, thread_ids } = action else {
        panic!("{action:?}");
    };
    assert_eq!(sql, update_mode_sql("codex"));
    assert_eq!(thread_ids, vec!["t1", "t4"]);
    let action = projection.step(LegacyEvent::Updated).expect("step");
    assert!(matches!(action, LegacyAction::Report));
    assert_eq!(projection.projected_thread_ids, vec!["t1", "t4"]);
    assert_eq!(projection.missing_rollouts, vec!["t3"]);
    assert_eq!(
        projection.missing_message().as_deref(),
        Some(
            "1 owned thread rollout(s) were not found; \
             their PostgreSQL history mode remains legacy"
        )
    );
}

#[test]
fn every_thread_of_the_user_is_projected_or_missing() {
    let (mut projection, mut action) = start(THREADS, "alice");
    let mut steps = 0;
    loop {
        let event = match action {
            LegacyAction::CheckStored { .. } => LegacyEvent::FileMissing,
            LegacyAction::CheckSessions { .. } => LegacyEvent::FileCheckFailed,
            LegacyAction::Project { .. } => LegacyEvent::Projected,
            LegacyAction::Update { .. } => LegacyEvent::Updated,
            LegacyAction::Report => break,
        };
        steps += 1;
        action = projection.step(event).expect("step");
    }
    assert_eq!(steps, 5);
    assert!(projection.projected_thread_ids.is_empty());
    assert_eq!(projection.missing_rollouts, vec!["t1", "t3", "t4"]);
    assert_eq!(
        projection.missing_message().as_deref(),
        Some(
            "3 owned thread rollout(s) were not found; \
             their PostgreSQL history mode remains legacy"
        )
    );
}

#[test]
fn failed_checks_count_as_missing() {
    let (mut projection, _) = start(THREADS, "bob");
    let action = projection.step(LegacyEvent::FileCheckFailed).expect("step");
    assert!(matches!(action, LegacyAction::Report));
    assert_eq!(projection.missing_rollouts, vec!["t2"]);

    let (mut projection, _) = start(
        "SELECT 't1' AS id, '/a/sessions/1' AS rollout_path",
        "alice",
    );
    let action = projection.step(LegacyEvent::FileCheckFailed).expect("step");
    assert!(matches!(action, LegacyAction::Report));
    assert_eq!(projection.missing_rollouts, vec!["t1"]);
}

#[test]
fn nothing_is_updated_without_threads() {
    let (projection, action) = start(THREADS, "carol");
    assert!(matches!(action, LegacyAction::Report));
    assert!(projection.missing_message().is_none());
}

#[test]
fn null_texts_are_read_as_empty() {
    let (_, action) = start("SELECT NULL AS id, NULL AS rollout_path", "alice");
    assert_eq!(stored(action), "");
    let (_, action) = start("SELECT NULL AS id, NULL AS rollout_path", "bob");
    assert!(matches!(action, LegacyAction::Report));
}

#[test]
fn unreadable_rows_stop_a_projection() {
    let owned = || owned_thread_ids(OWNERS, "alice").expect("owners");
    for sql in [
        "SELECT 5 AS id, '/a' AS rollout_path",
        "SELECT 't1' AS id, 5 AS rollout_path",
        "SELECT 't1' AS id",
    ] {
        assert!(matches!(
            LegacyProjection::new("codex", owned(), rows(sql)),
            Err(LegacyError::Row(_))
        ));
    }
    // The path of another user's thread is not read.
    let (_, action) = start("SELECT 't2' AS id", "alice");
    assert!(matches!(action, LegacyAction::Report));

    let (mut projection, _) = start(
        "SELECT 't1' AS id, '/a' AS rollout_path UNION ALL SELECT 't3', 5",
        "alice",
    );
    assert!(matches!(
        projection.step(LegacyEvent::FileMissing),
        Err(LegacyError::Row(_))
    ));
    assert!(projection.missing_rollouts.is_empty());
}

#[test]
fn unexpected_events_leave_a_projection() {
    let (mut projection, _) = start(THREADS, "alice");
    for event in [LegacyEvent::Projected, LegacyEvent::Updated] {
        assert!(matches!(
            projection.step(event),
            Err(LegacyError::Unexpected)
        ));
    }
    assert!(projection.step(LegacyEvent::FileFound).is_ok());
    for event in [
        LegacyEvent::FileFound,
        LegacyEvent::FileMissing,
        LegacyEvent::FileCheckFailed,
        LegacyEvent::Updated,
    ] {
        assert!(matches!(
            projection.step(event),
            Err(LegacyError::Unexpected)
        ));
    }
}
