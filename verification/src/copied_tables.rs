//! What a migration copies of each table, and where it arrives.
use crate::counts::{
    count_of, counts_have_their_names, is_check, verify_counts, CountCheck, MigrationCounts,
};
use crate::table_copy::CopySpec;
use crate::tables::{copy_spec, database_of, file_text, place, MigratedTable};
use vstd::prelude::*;

verus! {

/// Whether a copy takes rows from one table to another, with the given columns once each.
pub open spec fn takes(
    copy: CopySpec,
    source: Seq<char>,
    destination: Seq<char>,
    columns: Set<Seq<char>>,
    column_count: nat,
    owner: Option<Seq<char>>,
) -> bool {
    &&& copy.source == source
    &&& copy.destination == destination
    &&& copy.columns.to_set() =~= columns
    &&& copy.columns.len() == column_count
    &&& copy.owner_column == owner
}

/// Whether a copy identifies rows by the given columns, and takes the given columns as booleans and as
/// integers.
pub open spec fn reads(
    copy: CopySpec,
    key: Seq<Seq<char>>,
    booleans: Set<Seq<char>>,
    integers: Set<Seq<char>>,
) -> bool {
    &&& copy.conflict_columns =~= key
    &&& copy.boolean_columns.to_set() =~= booleans
    &&& copy.integer_columns.to_set() =~= integers
}

/// The columns of each table that are copied, each of them once, and the column that names the thread that
/// a row belongs to.
#[verifier::spinoff_prover]
pub proof fn copied_columns(table: MigratedTable)
    ensures
        match table {
            MigratedTable::Threads => takes(
                copy_spec(table),
                "threads"@,
                "threads"@,
                set![
                    "id"@,
                    "rollout_path"@,
                    "created_at"@,
                    "updated_at"@,
                    "source"@,
                    "model_provider"@,
                    "cwd"@,
                    "title"@,
                    "sandbox_policy"@,
                    "approval_mode"@,
                    "tokens_used"@,
                    "has_user_event"@,
                    "archived"@,
                    "archived_at"@,
                    "git_sha"@,
                    "git_branch"@,
                    "git_origin_url"@,
                    "cli_version"@,
                    "first_user_message"@,
                    "agent_nickname"@,
                    "agent_role"@,
                    "memory_mode"@,
                    "model"@,
                    "reasoning_effort"@,
                    "agent_path"@,
                    "created_at_ms"@,
                    "updated_at_ms"@,
                    "thread_source"@,
                    "preview"@,
                    "recency_at"@,
                    "recency_at_ms"@,
                    "history_mode"@,
                    "name"@,
                    "is_pinned"@,
                ],
                34,
                Some("id"@),
            ),
            MigratedTable::ThreadDynamicTools => takes(
                copy_spec(table),
                "thread_dynamic_tools"@,
                "thread_dynamic_tools"@,
                set![
                    "thread_id"@,
                    "position"@,
                    "name"@,
                    "description"@,
                    "input_schema"@,
                    "defer_loading"@,
                    "namespace"@,
                ],
                7,
                Some("thread_id"@),
            ),
            MigratedTable::ThreadSpawnEdges => takes(
                copy_spec(table),
                "thread_spawn_edges"@,
                "thread_spawn_edges"@,
                set!["parent_thread_id"@, "child_thread_id"@, "status"@],
                3,
                Some("child_thread_id"@),
            ),
            MigratedTable::BackfillState => takes(
                copy_spec(table),
                "backfill_state"@,
                "backfill_state"@,
                set![
                    "id"@,
                    "status"@,
                    "last_watermark"@,
                    "last_success_at"@,
                    "updated_at"@,
                ],
                5,
                None,
            ),
            MigratedTable::RemoteControlEnrollments => takes(
                copy_spec(table),
                "remote_control_enrollments"@,
                "remote_control_enrollments"@,
                set![
                    "websocket_url"@,
                    "account_id"@,
                    "app_server_client_name"@,
                    "server_id"@,
                    "environment_id"@,
                    "server_name"@,
                    "updated_at"@,
                    "remote_control_enabled"@,
                ],
                8,
                None,
            ),
            MigratedTable::ExternalAgentConfigImports => takes(
                copy_spec(table),
                "external_agent_config_imports"@,
                "external_agent_config_imports"@,
                set!["import_id"@, "completed_at_ms"@, "successes"@, "failures"@],
                4,
                None,
            ),
            MigratedTable::AgentJobs => takes(
                copy_spec(table),
                "agent_jobs"@,
                "legacy_agent_jobs"@,
                set![
                    "id"@,
                    "name"@,
                    "status"@,
                    "instruction"@,
                    "output_schema_json"@,
                    "input_headers_json"@,
                    "input_csv_path"@,
                    "output_csv_path"@,
                    "auto_export"@,
                    "created_at"@,
                    "updated_at"@,
                    "started_at"@,
                    "completed_at"@,
                    "last_error"@,
                    "max_runtime_seconds"@,
                ],
                15,
                None,
            ),
            MigratedTable::AgentJobItems => takes(
                copy_spec(table),
                "agent_job_items"@,
                "legacy_agent_job_items"@,
                set![
                    "job_id"@,
                    "item_id"@,
                    "row_index"@,
                    "source_id"@,
                    "row_json"@,
                    "status"@,
                    "assigned_thread_id"@,
                    "attempt_count"@,
                    "result_json"@,
                    "last_error"@,
                    "created_at"@,
                    "updated_at"@,
                    "completed_at"@,
                    "reported_at"@,
                ],
                14,
                None,
            ),
            MigratedTable::ThreadGoals => takes(
                copy_spec(table),
                "thread_goals"@,
                "thread_goals"@,
                set![
                    "thread_id"@,
                    "goal_id"@,
                    "objective"@,
                    "status"@,
                    "token_budget"@,
                    "tokens_used"@,
                    "time_used_seconds"@,
                    "created_at_ms"@,
                    "updated_at_ms"@,
                ],
                9,
                Some("thread_id"@),
            ),
            MigratedTable::ThreadGoalContinuationDeferrals => takes(
                copy_spec(table),
                "thread_goal_continuation_deferrals"@,
                "thread_goal_continuation_deferrals"@,
                set!["thread_id"@],
                1,
                Some("thread_id"@),
            ),
            MigratedTable::Stage1Outputs => takes(
                copy_spec(table),
                "stage1_outputs"@,
                "stage1_outputs"@,
                set![
                    "thread_id"@,
                    "source_updated_at"@,
                    "raw_memory"@,
                    "rollout_summary"@,
                    "rollout_slug"@,
                    "generated_at"@,
                    "usage_count"@,
                    "last_usage"@,
                    "selected_for_phase2"@,
                    "selected_for_phase2_source_updated_at"@,
                ],
                10,
                Some("thread_id"@),
            ),
            MigratedTable::MemoryJobs => takes(
                copy_spec(table),
                "jobs"@,
                "jobs"@,
                set![
                    "kind"@,
                    "job_key"@,
                    "status"@,
                    "worker_id"@,
                    "ownership_token"@,
                    "started_at"@,
                    "finished_at"@,
                    "lease_until"@,
                    "retry_at"@,
                    "retry_remaining"@,
                    "last_error"@,
                    "input_watermark"@,
                    "last_success_watermark"@,
                ],
                13,
                None,
            ),
            MigratedTable::Logs => takes(
                copy_spec(table),
                "logs"@,
                "logs"@,
                set![
                    "id"@,
                    "ts"@,
                    "ts_nanos"@,
                    "level"@,
                    "target"@,
                    "feedback_log_body"@,
                    "module_path"@,
                    "file"@,
                    "line"@,
                    "thread_id"@,
                    "process_uuid"@,
                    "estimated_bytes"@,
                ],
                12,
                Some("thread_id"@),
            ),
            MigratedTable::ThreadTurns => takes(
                copy_spec(table),
                "thread_turns"@,
                "thread_turns"@,
                set![
                    "thread_id"@,
                    "turn_id"@,
                    "rollout_ordinal"@,
                    "status"@,
                    "error_json"@,
                    "started_at"@,
                    "completed_at"@,
                    "duration_ms"@,
                    "first_user_item_id"@,
                    "final_agent_item_id"@,
                    "rollout_byte_offset"@,
                    "rollout_end_ordinal"@,
                    "rollout_end_byte_offset"@,
                ],
                13,
                Some("thread_id"@),
            ),
            MigratedTable::ThreadItems => takes(
                copy_spec(table),
                "thread_items"@,
                "thread_items"@,
                set![
                    "thread_id"@,
                    "turn_id"@,
                    "item_id"@,
                    "rollout_ordinal"@,
                    "created_at_ms"@,
                    "item_json"@,
                    "item_type"@,
                ],
                7,
                Some("thread_id"@),
            ),
            MigratedTable::ThreadHistoryProjectionState => takes(
                copy_spec(table),
                "thread_history_projection_state"@,
                "thread_history_projection_state"@,
                set!["thread_id"@, "next_rollout_byte_offset"@, "next_rollout_ordinal"@],
                3,
                Some("thread_id"@),
            ),
        },
{
    reveal(copy_spec);
    let copy = copy_spec(table);
    match table {
        MigratedTable::Threads => {
            assert(copy.columns[0] == "id"@);
            assert(copy.columns[1] == "rollout_path"@);
            assert(copy.columns[2] == "created_at"@);
            assert(copy.columns[3] == "updated_at"@);
            assert(copy.columns[4] == "source"@);
            assert(copy.columns[5] == "model_provider"@);
            assert(copy.columns[6] == "cwd"@);
            assert(copy.columns[7] == "title"@);
            assert(copy.columns[8] == "sandbox_policy"@);
            assert(copy.columns[9] == "approval_mode"@);
            assert(copy.columns[10] == "tokens_used"@);
            assert(copy.columns[11] == "has_user_event"@);
            assert(copy.columns[12] == "archived"@);
            assert(copy.columns[13] == "archived_at"@);
            assert(copy.columns[14] == "git_sha"@);
            assert(copy.columns[15] == "git_branch"@);
            assert(copy.columns[16] == "git_origin_url"@);
            assert(copy.columns[17] == "cli_version"@);
            assert(copy.columns[18] == "first_user_message"@);
            assert(copy.columns[19] == "agent_nickname"@);
            assert(copy.columns[20] == "agent_role"@);
            assert(copy.columns[21] == "memory_mode"@);
            assert(copy.columns[22] == "model"@);
            assert(copy.columns[23] == "reasoning_effort"@);
            assert(copy.columns[24] == "agent_path"@);
            assert(copy.columns[25] == "created_at_ms"@);
            assert(copy.columns[26] == "updated_at_ms"@);
            assert(copy.columns[27] == "thread_source"@);
            assert(copy.columns[28] == "preview"@);
            assert(copy.columns[29] == "recency_at"@);
            assert(copy.columns[30] == "recency_at_ms"@);
            assert(copy.columns[31] == "history_mode"@);
            assert(copy.columns[32] == "name"@);
            assert(copy.columns[33] == "is_pinned"@);
        },
        MigratedTable::ThreadDynamicTools => {
            assert(copy.columns[0] == "thread_id"@);
            assert(copy.columns[1] == "position"@);
            assert(copy.columns[2] == "name"@);
            assert(copy.columns[3] == "description"@);
            assert(copy.columns[4] == "input_schema"@);
            assert(copy.columns[5] == "defer_loading"@);
            assert(copy.columns[6] == "namespace"@);
        },
        MigratedTable::ThreadSpawnEdges => {
            assert(copy.columns[0] == "parent_thread_id"@);
            assert(copy.columns[1] == "child_thread_id"@);
            assert(copy.columns[2] == "status"@);
        },
        MigratedTable::BackfillState => {
            assert(copy.columns[0] == "id"@);
            assert(copy.columns[1] == "status"@);
            assert(copy.columns[2] == "last_watermark"@);
            assert(copy.columns[3] == "last_success_at"@);
            assert(copy.columns[4] == "updated_at"@);
        },
        MigratedTable::RemoteControlEnrollments => {
            assert(copy.columns[0] == "websocket_url"@);
            assert(copy.columns[1] == "account_id"@);
            assert(copy.columns[2] == "app_server_client_name"@);
            assert(copy.columns[3] == "server_id"@);
            assert(copy.columns[4] == "environment_id"@);
            assert(copy.columns[5] == "server_name"@);
            assert(copy.columns[6] == "updated_at"@);
            assert(copy.columns[7] == "remote_control_enabled"@);
        },
        MigratedTable::ExternalAgentConfigImports => {
            assert(copy.columns[0] == "import_id"@);
            assert(copy.columns[1] == "completed_at_ms"@);
            assert(copy.columns[2] == "successes"@);
            assert(copy.columns[3] == "failures"@);
        },
        MigratedTable::AgentJobs => {
            assert(copy.columns[0] == "id"@);
            assert(copy.columns[1] == "name"@);
            assert(copy.columns[2] == "status"@);
            assert(copy.columns[3] == "instruction"@);
            assert(copy.columns[4] == "output_schema_json"@);
            assert(copy.columns[5] == "input_headers_json"@);
            assert(copy.columns[6] == "input_csv_path"@);
            assert(copy.columns[7] == "output_csv_path"@);
            assert(copy.columns[8] == "auto_export"@);
            assert(copy.columns[9] == "created_at"@);
            assert(copy.columns[10] == "updated_at"@);
            assert(copy.columns[11] == "started_at"@);
            assert(copy.columns[12] == "completed_at"@);
            assert(copy.columns[13] == "last_error"@);
            assert(copy.columns[14] == "max_runtime_seconds"@);
        },
        MigratedTable::AgentJobItems => {
            assert(copy.columns[0] == "job_id"@);
            assert(copy.columns[1] == "item_id"@);
            assert(copy.columns[2] == "row_index"@);
            assert(copy.columns[3] == "source_id"@);
            assert(copy.columns[4] == "row_json"@);
            assert(copy.columns[5] == "status"@);
            assert(copy.columns[6] == "assigned_thread_id"@);
            assert(copy.columns[7] == "attempt_count"@);
            assert(copy.columns[8] == "result_json"@);
            assert(copy.columns[9] == "last_error"@);
            assert(copy.columns[10] == "created_at"@);
            assert(copy.columns[11] == "updated_at"@);
            assert(copy.columns[12] == "completed_at"@);
            assert(copy.columns[13] == "reported_at"@);
        },
        MigratedTable::ThreadGoals => {
            assert(copy.columns[0] == "thread_id"@);
            assert(copy.columns[1] == "goal_id"@);
            assert(copy.columns[2] == "objective"@);
            assert(copy.columns[3] == "status"@);
            assert(copy.columns[4] == "token_budget"@);
            assert(copy.columns[5] == "tokens_used"@);
            assert(copy.columns[6] == "time_used_seconds"@);
            assert(copy.columns[7] == "created_at_ms"@);
            assert(copy.columns[8] == "updated_at_ms"@);
        },
        MigratedTable::ThreadGoalContinuationDeferrals => {
            assert(copy.columns[0] == "thread_id"@);
        },
        MigratedTable::Stage1Outputs => {
            assert(copy.columns[0] == "thread_id"@);
            assert(copy.columns[1] == "source_updated_at"@);
            assert(copy.columns[2] == "raw_memory"@);
            assert(copy.columns[3] == "rollout_summary"@);
            assert(copy.columns[4] == "rollout_slug"@);
            assert(copy.columns[5] == "generated_at"@);
            assert(copy.columns[6] == "usage_count"@);
            assert(copy.columns[7] == "last_usage"@);
            assert(copy.columns[8] == "selected_for_phase2"@);
            assert(copy.columns[9] == "selected_for_phase2_source_updated_at"@);
        },
        MigratedTable::MemoryJobs => {
            assert(copy.columns[0] == "kind"@);
            assert(copy.columns[1] == "job_key"@);
            assert(copy.columns[2] == "status"@);
            assert(copy.columns[3] == "worker_id"@);
            assert(copy.columns[4] == "ownership_token"@);
            assert(copy.columns[5] == "started_at"@);
            assert(copy.columns[6] == "finished_at"@);
            assert(copy.columns[7] == "lease_until"@);
            assert(copy.columns[8] == "retry_at"@);
            assert(copy.columns[9] == "retry_remaining"@);
            assert(copy.columns[10] == "last_error"@);
            assert(copy.columns[11] == "input_watermark"@);
            assert(copy.columns[12] == "last_success_watermark"@);
        },
        MigratedTable::Logs => {
            assert(copy.columns[0] == "id"@);
            assert(copy.columns[1] == "ts"@);
            assert(copy.columns[2] == "ts_nanos"@);
            assert(copy.columns[3] == "level"@);
            assert(copy.columns[4] == "target"@);
            assert(copy.columns[5] == "feedback_log_body"@);
            assert(copy.columns[6] == "module_path"@);
            assert(copy.columns[7] == "file"@);
            assert(copy.columns[8] == "line"@);
            assert(copy.columns[9] == "thread_id"@);
            assert(copy.columns[10] == "process_uuid"@);
            assert(copy.columns[11] == "estimated_bytes"@);
        },
        MigratedTable::ThreadTurns => {
            assert(copy.columns[0] == "thread_id"@);
            assert(copy.columns[1] == "turn_id"@);
            assert(copy.columns[2] == "rollout_ordinal"@);
            assert(copy.columns[3] == "status"@);
            assert(copy.columns[4] == "error_json"@);
            assert(copy.columns[5] == "started_at"@);
            assert(copy.columns[6] == "completed_at"@);
            assert(copy.columns[7] == "duration_ms"@);
            assert(copy.columns[8] == "first_user_item_id"@);
            assert(copy.columns[9] == "final_agent_item_id"@);
            assert(copy.columns[10] == "rollout_byte_offset"@);
            assert(copy.columns[11] == "rollout_end_ordinal"@);
            assert(copy.columns[12] == "rollout_end_byte_offset"@);
        },
        MigratedTable::ThreadItems => {
            assert(copy.columns[0] == "thread_id"@);
            assert(copy.columns[1] == "turn_id"@);
            assert(copy.columns[2] == "item_id"@);
            assert(copy.columns[3] == "rollout_ordinal"@);
            assert(copy.columns[4] == "created_at_ms"@);
            assert(copy.columns[5] == "item_json"@);
            assert(copy.columns[6] == "item_type"@);
        },
        MigratedTable::ThreadHistoryProjectionState => {
            assert(copy.columns[0] == "thread_id"@);
            assert(copy.columns[1] == "next_rollout_byte_offset"@);
            assert(copy.columns[2] == "next_rollout_ordinal"@);
        },
    }
}

/// The columns that identify the rows of each table, and those that are copied as booleans and as
/// integers. The other columns are copied as texts.
#[verifier::spinoff_prover]
pub proof fn kinds_of_copied_columns(table: MigratedTable)
    ensures
        match table {
            MigratedTable::Threads => reads(
                copy_spec(table),
                seq!["id"@],
                set!["has_user_event"@, "archived"@, "is_pinned"@],
                set![
                    "created_at"@,
                    "updated_at"@,
                    "tokens_used"@,
                    "archived_at"@,
                    "created_at_ms"@,
                    "updated_at_ms"@,
                    "recency_at"@,
                    "recency_at_ms"@,
                ],
            ),
            MigratedTable::ThreadDynamicTools => reads(
                copy_spec(table),
                seq!["thread_id"@, "position"@],
                set!["defer_loading"@],
                set!["position"@],
            ),
            MigratedTable::ThreadSpawnEdges => reads(
                copy_spec(table),
                seq!["child_thread_id"@],
                Set::empty(),
                Set::empty(),
            ),
            MigratedTable::BackfillState => reads(
                copy_spec(table),
                seq!["id"@],
                Set::empty(),
                set!["id"@, "last_success_at"@, "updated_at"@],
            ),
            MigratedTable::RemoteControlEnrollments => reads(
                copy_spec(table),
                seq!["websocket_url"@, "account_id"@, "app_server_client_name"@],
                set!["remote_control_enabled"@],
                set!["updated_at"@],
            ),
            MigratedTable::ExternalAgentConfigImports => reads(
                copy_spec(table),
                seq!["import_id"@],
                Set::empty(),
                set!["completed_at_ms"@],
            ),
            MigratedTable::AgentJobs => reads(
                copy_spec(table),
                seq!["id"@],
                set!["auto_export"@],
                set![
                    "created_at"@,
                    "updated_at"@,
                    "started_at"@,
                    "completed_at"@,
                    "max_runtime_seconds"@,
                ],
            ),
            MigratedTable::AgentJobItems => reads(
                copy_spec(table),
                seq!["job_id"@, "item_id"@],
                Set::empty(),
                set![
                    "row_index"@,
                    "attempt_count"@,
                    "created_at"@,
                    "updated_at"@,
                    "completed_at"@,
                    "reported_at"@,
                ],
            ),
            MigratedTable::ThreadGoals => reads(
                copy_spec(table),
                seq!["thread_id"@],
                Set::empty(),
                set![
                    "token_budget"@,
                    "tokens_used"@,
                    "time_used_seconds"@,
                    "created_at_ms"@,
                    "updated_at_ms"@,
                ],
            ),
            MigratedTable::ThreadGoalContinuationDeferrals => reads(
                copy_spec(table),
                seq!["thread_id"@],
                Set::empty(),
                Set::empty(),
            ),
            MigratedTable::Stage1Outputs => reads(
                copy_spec(table),
                seq!["thread_id"@],
                set!["selected_for_phase2"@],
                set![
                    "source_updated_at"@,
                    "generated_at"@,
                    "usage_count"@,
                    "last_usage"@,
                    "selected_for_phase2_source_updated_at"@,
                ],
            ),
            MigratedTable::MemoryJobs => reads(
                copy_spec(table),
                seq!["kind"@, "job_key"@],
                Set::empty(),
                set![
                    "started_at"@,
                    "finished_at"@,
                    "lease_until"@,
                    "retry_at"@,
                    "retry_remaining"@,
                    "input_watermark"@,
                    "last_success_watermark"@,
                ],
            ),
            MigratedTable::Logs => reads(
                copy_spec(table),
                seq!["id"@],
                Set::empty(),
                set!["id"@, "ts"@, "ts_nanos"@, "line"@, "estimated_bytes"@],
            ),
            MigratedTable::ThreadTurns => reads(
                copy_spec(table),
                seq!["thread_id"@, "turn_id"@],
                Set::empty(),
                set![
                    "rollout_ordinal"@,
                    "started_at"@,
                    "completed_at"@,
                    "duration_ms"@,
                    "rollout_byte_offset"@,
                    "rollout_end_ordinal"@,
                    "rollout_end_byte_offset"@,
                ],
            ),
            MigratedTable::ThreadItems => reads(
                copy_spec(table),
                seq!["thread_id"@, "turn_id"@, "item_id"@],
                Set::empty(),
                set!["rollout_ordinal"@, "created_at_ms"@],
            ),
            MigratedTable::ThreadHistoryProjectionState => reads(
                copy_spec(table),
                seq!["thread_id"@],
                Set::empty(),
                set!["next_rollout_byte_offset"@, "next_rollout_ordinal"@],
            ),
        },
{
    reveal(copy_spec);
    let copy = copy_spec(table);
    match table {
        MigratedTable::Threads => {
            assert(copy.boolean_columns[0] == "has_user_event"@);
            assert(copy.boolean_columns[1] == "archived"@);
            assert(copy.boolean_columns[2] == "is_pinned"@);
            assert(copy.integer_columns[0] == "created_at"@);
            assert(copy.integer_columns[1] == "updated_at"@);
            assert(copy.integer_columns[2] == "tokens_used"@);
            assert(copy.integer_columns[3] == "archived_at"@);
            assert(copy.integer_columns[4] == "created_at_ms"@);
            assert(copy.integer_columns[5] == "updated_at_ms"@);
            assert(copy.integer_columns[6] == "recency_at"@);
            assert(copy.integer_columns[7] == "recency_at_ms"@);
        },
        MigratedTable::ThreadDynamicTools => {
            assert(copy.boolean_columns[0] == "defer_loading"@);
            assert(copy.integer_columns[0] == "position"@);
        },
        MigratedTable::ThreadSpawnEdges => {},
        MigratedTable::BackfillState => {
            assert(copy.integer_columns[0] == "id"@);
            assert(copy.integer_columns[1] == "last_success_at"@);
            assert(copy.integer_columns[2] == "updated_at"@);
        },
        MigratedTable::RemoteControlEnrollments => {
            assert(copy.boolean_columns[0] == "remote_control_enabled"@);
            assert(copy.integer_columns[0] == "updated_at"@);
        },
        MigratedTable::ExternalAgentConfigImports => {
            assert(copy.integer_columns[0] == "completed_at_ms"@);
        },
        MigratedTable::AgentJobs => {
            assert(copy.boolean_columns[0] == "auto_export"@);
            assert(copy.integer_columns[0] == "created_at"@);
            assert(copy.integer_columns[1] == "updated_at"@);
            assert(copy.integer_columns[2] == "started_at"@);
            assert(copy.integer_columns[3] == "completed_at"@);
            assert(copy.integer_columns[4] == "max_runtime_seconds"@);
        },
        MigratedTable::AgentJobItems => {
            assert(copy.integer_columns[0] == "row_index"@);
            assert(copy.integer_columns[1] == "attempt_count"@);
            assert(copy.integer_columns[2] == "created_at"@);
            assert(copy.integer_columns[3] == "updated_at"@);
            assert(copy.integer_columns[4] == "completed_at"@);
            assert(copy.integer_columns[5] == "reported_at"@);
        },
        MigratedTable::ThreadGoals => {
            assert(copy.integer_columns[0] == "token_budget"@);
            assert(copy.integer_columns[1] == "tokens_used"@);
            assert(copy.integer_columns[2] == "time_used_seconds"@);
            assert(copy.integer_columns[3] == "created_at_ms"@);
            assert(copy.integer_columns[4] == "updated_at_ms"@);
        },
        MigratedTable::ThreadGoalContinuationDeferrals => {},
        MigratedTable::Stage1Outputs => {
            assert(copy.boolean_columns[0] == "selected_for_phase2"@);
            assert(copy.integer_columns[0] == "source_updated_at"@);
            assert(copy.integer_columns[1] == "generated_at"@);
            assert(copy.integer_columns[2] == "usage_count"@);
            assert(copy.integer_columns[3] == "last_usage"@);
            assert(copy.integer_columns[4] == "selected_for_phase2_source_updated_at"@);
        },
        MigratedTable::MemoryJobs => {
            assert(copy.integer_columns[0] == "started_at"@);
            assert(copy.integer_columns[1] == "finished_at"@);
            assert(copy.integer_columns[2] == "lease_until"@);
            assert(copy.integer_columns[3] == "retry_at"@);
            assert(copy.integer_columns[4] == "retry_remaining"@);
            assert(copy.integer_columns[5] == "input_watermark"@);
            assert(copy.integer_columns[6] == "last_success_watermark"@);
        },
        MigratedTable::Logs => {
            assert(copy.integer_columns[0] == "id"@);
            assert(copy.integer_columns[1] == "ts"@);
            assert(copy.integer_columns[2] == "ts_nanos"@);
            assert(copy.integer_columns[3] == "line"@);
            assert(copy.integer_columns[4] == "estimated_bytes"@);
        },
        MigratedTable::ThreadTurns => {
            assert(copy.integer_columns[0] == "rollout_ordinal"@);
            assert(copy.integer_columns[1] == "started_at"@);
            assert(copy.integer_columns[2] == "completed_at"@);
            assert(copy.integer_columns[3] == "duration_ms"@);
            assert(copy.integer_columns[4] == "rollout_byte_offset"@);
            assert(copy.integer_columns[5] == "rollout_end_ordinal"@);
            assert(copy.integer_columns[6] == "rollout_end_byte_offset"@);
        },
        MigratedTable::ThreadItems => {
            assert(copy.integer_columns[0] == "rollout_ordinal"@);
            assert(copy.integer_columns[1] == "created_at_ms"@);
        },
        MigratedTable::ThreadHistoryProjectionState => {
            assert(copy.integer_columns[0] == "next_rollout_byte_offset"@);
            assert(copy.integer_columns[1] == "next_rollout_ordinal"@);
        },
    }
}

/// The file of the database that each table is copied from.
pub proof fn files_of_copied_tables(table: MigratedTable)
    ensures
        file_text(database_of(table)) == match table {
            MigratedTable::Threads
            | MigratedTable::ThreadDynamicTools
            | MigratedTable::ThreadSpawnEdges
            | MigratedTable::BackfillState
            | MigratedTable::RemoteControlEnrollments
            | MigratedTable::ExternalAgentConfigImports
            | MigratedTable::AgentJobs
            | MigratedTable::AgentJobItems => "state_5.sqlite"@,
            MigratedTable::ThreadGoals
            | MigratedTable::ThreadGoalContinuationDeferrals => "goals_1.sqlite"@,
            MigratedTable::Stage1Outputs
            | MigratedTable::MemoryJobs => "memories_1.sqlite"@,
            MigratedTable::Logs => "logs_2.sqlite"@,
            MigratedTable::ThreadTurns
            | MigratedTable::ThreadItems
            | MigratedTable::ThreadHistoryProjectionState => "thread_history_1.sqlite"@,
        },
{
}

/// The table that is counted next, and how many rows it should have: as many as were copied.
#[verifier::spinoff_prover]
pub proof fn tables_are_counted_in_order(
    counts: &MigrationCounts,
    actual: &Vec<i64>,
    check: CountCheck,
)
    requires
        call_ensures(verify_counts, (counts, actual), Ok(Some(check))),
    ensures
        actual@.len() < 16,
        actual@.len() == 0 ==> check.table_name@ == "threads"@ && check.expected
            == counts.threads,
        actual@.len() == 1 ==> check.table_name@ == "thread_dynamic_tools"@ && check.expected
            == counts.thread_dynamic_tools,
        actual@.len() == 2 ==> check.table_name@ == "thread_spawn_edges"@ && check.expected
            == counts.thread_spawn_edges,
        actual@.len() == 3 ==> check.table_name@ == "backfill_state"@ && check.expected
            == counts.backfill_state,
        actual@.len() == 4 ==> check.table_name@ == "remote_control_enrollments"@ && check.expected
            == counts.remote_control_enrollments,
        actual@.len() == 5 ==> check.table_name@ == "external_agent_config_imports"@ && check.expected
            == counts.external_agent_config_imports,
        actual@.len() == 6 ==> check.table_name@ == "legacy_agent_jobs"@ && check.expected
            == counts.agent_jobs,
        actual@.len() == 7 ==> check.table_name@ == "legacy_agent_job_items"@ && check.expected
            == counts.agent_job_items,
        actual@.len() == 8 ==> check.table_name@ == "thread_goals"@ && check.expected
            == counts.thread_goals,
        actual@.len() == 9 ==> check.table_name@ == "thread_goal_continuation_deferrals"@ && check.expected
            == counts.thread_goal_continuation_deferrals,
        actual@.len() == 10 ==> check.table_name@ == "stage1_outputs"@ && check.expected
            == counts.stage1_outputs,
        actual@.len() == 11 ==> check.table_name@ == "jobs"@ && check.expected
            == counts.memory_jobs,
        actual@.len() == 12 ==> check.table_name@ == "logs"@ && check.expected
            == counts.logs,
        actual@.len() == 13 ==> check.table_name@ == "thread_turns"@ && check.expected
            == counts.thread_turns,
        actual@.len() == 14 ==> check.table_name@ == "thread_items"@ && check.expected
            == counts.thread_items,
        actual@.len() == 15 ==> check.table_name@ == "thread_history_projection_state"@ && check.expected
            == counts.thread_history_projection_state,
{
    let table = choose|table: MigratedTable| #[trigger]
        place(table) == actual@.len() && check.table_name@ == copy_spec(table).destination
            && check.expected == count_of(*counts, table);
    assert(is_check(check, *counts, actual@.len() as int));
    copied_columns(table);
    counts_have_their_names(*counts, 0);
}

} // verus!
