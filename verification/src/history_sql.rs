//! SQL statements of the thread history.
use vstd::prelude::*;

verus! {

/// Reads how far the history of a thread is projected.
pub const SELECT_PROJECTION_STATE: &'static str = r#"
SELECT next_rollout_byte_offset, next_rollout_ordinal
FROM thread_history_projection_state
WHERE thread_id = ?
"#;

/// Stores a rollout line, replacing one of the same ordinal.
pub const UPSERT_ROLLOUT_EVENT: &'static str = r#"
INSERT INTO thread_rollout_events (
    thread_id,
    rollout_ordinal,
    rollout_byte_offset,
    rollout_end_byte_offset,
    created_at_ms,
    line_type,
    payload_type,
    raw_json
) VALUES (?, ?, ?, ?, ?, ?, ?, CAST(? AS JSONB))
ON CONFLICT(thread_id, rollout_ordinal) DO UPDATE SET
    rollout_byte_offset = excluded.rollout_byte_offset,
    rollout_end_byte_offset = excluded.rollout_end_byte_offset,
    created_at_ms = excluded.created_at_ms,
    line_type = excluded.line_type,
    payload_type = excluded.payload_type,
    raw_json = excluded.raw_json
"#;

/// Stores how far the history of a thread is projected.
pub const UPSERT_PROJECTION_STATE: &'static str = r#"
INSERT INTO thread_history_projection_state (
    thread_id,
    next_rollout_byte_offset,
    next_rollout_ordinal
) VALUES (?, ?, ?)
ON CONFLICT(thread_id) DO UPDATE SET
    next_rollout_byte_offset = excluded.next_rollout_byte_offset,
    next_rollout_ordinal = excluded.next_rollout_ordinal
"#;

/// Stores a turn. The same turn can appear again as it moves from started to completed: its latest
/// status, error and timestamps replace those of a turn in progress, but the rollout ordinal of the
/// first record that created it stays.
pub const UPSERT_TURN: &'static str = r#"
INSERT INTO thread_turns (
    thread_id,
    turn_id,
    rollout_ordinal,
    rollout_byte_offset,
    rollout_end_ordinal,
    rollout_end_byte_offset,
    status,
    error_json,
    started_at,
    completed_at,
    duration_ms
) VALUES (?, ?, ?, ?, ?, ?, ?, ?, ?, ?, ?)
ON CONFLICT(thread_id, turn_id) DO UPDATE SET
    rollout_end_ordinal = excluded.rollout_end_ordinal,
    rollout_end_byte_offset = excluded.rollout_end_byte_offset,
    status = excluded.status,
    error_json = excluded.error_json,
    started_at = excluded.started_at,
    completed_at = excluded.completed_at,
    duration_ms = excluded.duration_ms
WHERE thread_turns.rollout_end_ordinal IS NULL
  AND thread_turns.status = 'inProgress'
"#;

/// Fills the summary item IDs of a turn from the items stored so far. Review turns can persist
/// completed items before their turn lifecycle record.
pub const UPDATE_TURN_SUMMARY: &'static str = r#"
UPDATE thread_turns
SET
    first_user_item_id = COALESCE(
        first_user_item_id,
        (
            SELECT item_id
            FROM thread_items
            WHERE thread_id = ?
              AND turn_id = ?
              AND item_type = 'userMessage'
            ORDER BY rollout_ordinal
            LIMIT 1
        )
    ),
    final_agent_item_id = COALESCE(
        (
            SELECT item_id
            FROM thread_items
            WHERE thread_id = ?
              AND turn_id = ?
              AND item_type = 'agentMessage'
              AND item_json LIKE '%"phase":"final_answer"%'
            ORDER BY rollout_ordinal DESC
            LIMIT 1
        ),
        CASE
            WHEN status IN ('completed', 'interrupted', 'failed') THEN (
                SELECT item_id
                FROM thread_items
                WHERE thread_id = ?
                  AND turn_id = ?
                  AND item_type = 'agentMessage'
                  AND (
                    item_json LIKE '%"phase":null%'
                    OR item_json NOT LIKE '%"phase":%'
                  )
                ORDER BY rollout_ordinal DESC
                LIMIT 1
            )
        END,
        final_agent_item_id
    )
WHERE thread_id = ?
  AND turn_id = ?
  AND (
    rollout_end_ordinal = ?
    OR status = 'inProgress'
  )
"#;

/// Stores an item. The same item can appear again with a newer snapshot: its JSON is replaced, but
/// the creation ordinal and timestamp of the first record stay, so that item identity and age are
/// stable.
pub const UPSERT_ITEM: &'static str = r#"
INSERT INTO thread_items (
    thread_id,
    turn_id,
    item_id,
    rollout_ordinal,
    updated_at_ordinal,
    created_at_ms,
    item_type,
    item_json
) VALUES (?, ?, ?, ?, ?, ?, ?, ?)
ON CONFLICT(thread_id, turn_id, item_id) DO UPDATE SET
    updated_at_ordinal = excluded.updated_at_ordinal,
    item_type = excluded.item_type,
    item_json = excluded.item_json
"#;

/// Keeps the first user message of a turn in progress on the turn row.
pub const SET_FIRST_USER_ITEM: &'static str = r#"
UPDATE thread_turns
SET first_user_item_id = COALESCE(first_user_item_id, ?)
WHERE thread_id = ?
  AND turn_id = ?
  AND rollout_end_ordinal IS NULL
  AND status = 'inProgress'
"#;

/// Keeps the final answer of a turn in progress on the turn row.
pub const SET_FINAL_AGENT_ITEM: &'static str = r#"
UPDATE thread_turns
SET final_agent_item_id = ?
WHERE thread_id = ?
  AND turn_id = ?
  AND rollout_end_ordinal IS NULL
  AND status = 'inProgress'
"#;

/// Reads the rollout lines of a thread in order.
pub const SELECT_ROLLOUT_LINES: &'static str =
    "SELECT CAST(raw_json AS TEXT) AS raw_json FROM thread_rollout_events WHERE thread_id = ? ORDER BY rollout_ordinal";

/// Reads the first line of a thread that holds its session metadata.
pub const SELECT_SESSION_META: &'static str =
    "SELECT CAST(raw_json AS TEXT) AS raw_json FROM thread_rollout_events WHERE thread_id = ? AND line_type = 'session_meta' ORDER BY rollout_ordinal LIMIT 1";

/// Reads the byte offset where the next rollout line of a thread starts.
pub const SELECT_NEXT_BYTE_OFFSET: &'static str =
    "SELECT next_rollout_byte_offset FROM thread_history_projection_state WHERE thread_id = ?";

/// Reads the ordinal of the next rollout line of a thread.
pub const SELECT_NEXT_ORDINAL: &'static str =
    "SELECT next_rollout_ordinal FROM thread_history_projection_state WHERE thread_id = ?";

/// Deletes the items of a thread.
pub const DELETE_ITEMS: &'static str =
    "DELETE FROM thread_items WHERE thread_id = ?";

/// Deletes the turns of a thread.
pub const DELETE_TURNS: &'static str =
    "DELETE FROM thread_turns WHERE thread_id = ?";

/// Deletes how far the history of a thread is projected.
pub const DELETE_PROJECTION_STATE: &'static str =
    "DELETE FROM thread_history_projection_state WHERE thread_id = ?";

/// The statements whose effect the thread history rests on, as the databases get them.
pub proof fn statements_are_written_this_way()
    ensures
        SELECT_PROJECTION_STATE@ == r#"
SELECT next_rollout_byte_offset, next_rollout_ordinal
FROM thread_history_projection_state
WHERE thread_id = ?
"#@,
        UPSERT_ROLLOUT_EVENT@ == r#"
INSERT INTO thread_rollout_events (
    thread_id,
    rollout_ordinal,
    rollout_byte_offset,
    rollout_end_byte_offset,
    created_at_ms,
    line_type,
    payload_type,
    raw_json
) VALUES (?, ?, ?, ?, ?, ?, ?, CAST(? AS JSONB))
ON CONFLICT(thread_id, rollout_ordinal) DO UPDATE SET
    rollout_byte_offset = excluded.rollout_byte_offset,
    rollout_end_byte_offset = excluded.rollout_end_byte_offset,
    created_at_ms = excluded.created_at_ms,
    line_type = excluded.line_type,
    payload_type = excluded.payload_type,
    raw_json = excluded.raw_json
"#@,
        UPSERT_PROJECTION_STATE@ == r#"
INSERT INTO thread_history_projection_state (
    thread_id,
    next_rollout_byte_offset,
    next_rollout_ordinal
) VALUES (?, ?, ?)
ON CONFLICT(thread_id) DO UPDATE SET
    next_rollout_byte_offset = excluded.next_rollout_byte_offset,
    next_rollout_ordinal = excluded.next_rollout_ordinal
"#@,
        UPSERT_TURN@ == r#"
INSERT INTO thread_turns (
    thread_id,
    turn_id,
    rollout_ordinal,
    rollout_byte_offset,
    rollout_end_ordinal,
    rollout_end_byte_offset,
    status,
    error_json,
    started_at,
    completed_at,
    duration_ms
) VALUES (?, ?, ?, ?, ?, ?, ?, ?, ?, ?, ?)
ON CONFLICT(thread_id, turn_id) DO UPDATE SET
    rollout_end_ordinal = excluded.rollout_end_ordinal,
    rollout_end_byte_offset = excluded.rollout_end_byte_offset,
    status = excluded.status,
    error_json = excluded.error_json,
    started_at = excluded.started_at,
    completed_at = excluded.completed_at,
    duration_ms = excluded.duration_ms
WHERE thread_turns.rollout_end_ordinal IS NULL
  AND thread_turns.status = 'inProgress'
"#@,
        UPDATE_TURN_SUMMARY@ == r#"
UPDATE thread_turns
SET
    first_user_item_id = COALESCE(
        first_user_item_id,
        (
            SELECT item_id
            FROM thread_items
            WHERE thread_id = ?
              AND turn_id = ?
              AND item_type = 'userMessage'
            ORDER BY rollout_ordinal
            LIMIT 1
        )
    ),
    final_agent_item_id = COALESCE(
        (
            SELECT item_id
            FROM thread_items
            WHERE thread_id = ?
              AND turn_id = ?
              AND item_type = 'agentMessage'
              AND item_json LIKE '%"phase":"final_answer"%'
            ORDER BY rollout_ordinal DESC
            LIMIT 1
        ),
        CASE
            WHEN status IN ('completed', 'interrupted', 'failed') THEN (
                SELECT item_id
                FROM thread_items
                WHERE thread_id = ?
                  AND turn_id = ?
                  AND item_type = 'agentMessage'
                  AND (
                    item_json LIKE '%"phase":null%'
                    OR item_json NOT LIKE '%"phase":%'
                  )
                ORDER BY rollout_ordinal DESC
                LIMIT 1
            )
        END,
        final_agent_item_id
    )
WHERE thread_id = ?
  AND turn_id = ?
  AND (
    rollout_end_ordinal = ?
    OR status = 'inProgress'
  )
"#@,
        UPSERT_ITEM@ == r#"
INSERT INTO thread_items (
    thread_id,
    turn_id,
    item_id,
    rollout_ordinal,
    updated_at_ordinal,
    created_at_ms,
    item_type,
    item_json
) VALUES (?, ?, ?, ?, ?, ?, ?, ?)
ON CONFLICT(thread_id, turn_id, item_id) DO UPDATE SET
    updated_at_ordinal = excluded.updated_at_ordinal,
    item_type = excluded.item_type,
    item_json = excluded.item_json
"#@,
        SET_FIRST_USER_ITEM@ == r#"
UPDATE thread_turns
SET first_user_item_id = COALESCE(first_user_item_id, ?)
WHERE thread_id = ?
  AND turn_id = ?
  AND rollout_end_ordinal IS NULL
  AND status = 'inProgress'
"#@,
        SET_FINAL_AGENT_ITEM@ == r#"
UPDATE thread_turns
SET final_agent_item_id = ?
WHERE thread_id = ?
  AND turn_id = ?
  AND rollout_end_ordinal IS NULL
  AND status = 'inProgress'
"#@,
        SELECT_ROLLOUT_LINES@ == "SELECT CAST(raw_json AS TEXT) AS raw_json FROM thread_rollout_events WHERE thread_id = ? ORDER BY rollout_ordinal"@,
        SELECT_SESSION_META@ == "SELECT CAST(raw_json AS TEXT) AS raw_json FROM thread_rollout_events WHERE thread_id = ? AND line_type = 'session_meta' ORDER BY rollout_ordinal LIMIT 1"@,
        SELECT_NEXT_BYTE_OFFSET@ == "SELECT next_rollout_byte_offset FROM thread_history_projection_state WHERE thread_id = ?"@,
        SELECT_NEXT_ORDINAL@ == "SELECT next_rollout_ordinal FROM thread_history_projection_state WHERE thread_id = ?"@,
        DELETE_ITEMS@ == "DELETE FROM thread_items WHERE thread_id = ?"@,
        DELETE_TURNS@ == "DELETE FROM thread_turns WHERE thread_id = ?"@,
        DELETE_PROJECTION_STATE@ == "DELETE FROM thread_history_projection_state WHERE thread_id = ?"@,
{
}

} // verus!
