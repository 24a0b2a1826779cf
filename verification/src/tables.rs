//! The tables that a migration copies, and the databases that they come from.
use crate::table_copy::{CopySpec, TableCopy};
use vstd::prelude::*;

verus! {

/// A SQLite database of the state directory.
#[derive(Debug, Clone, Copy, PartialEq, Eq, Structural)]
pub enum SourceDatabase {
    State,
    Goals,
    Memories,
    Logs,
    ThreadHistory,
}

/// A table that is copied.
#[derive(Debug, Clone, Copy, PartialEq, Eq, Structural)]
pub enum MigratedTable {
    Threads,
    ThreadDynamicTools,
    ThreadSpawnEdges,
    BackfillState,
    RemoteControlEnrollments,
    ExternalAgentConfigImports,
    AgentJobs,
    AgentJobItems,
    ThreadGoals,
    ThreadGoalContinuationDeferrals,
    Stage1Outputs,
    MemoryJobs,
    Logs,
    ThreadTurns,
    ThreadItems,
    ThreadHistoryProjectionState,
}

/// The file name of a database.
pub open spec fn file_text(database: SourceDatabase) -> Seq<char> {
    match database {
        SourceDatabase::State => "state_5.sqlite"@,
        SourceDatabase::Goals => "goals_1.sqlite"@,
        SourceDatabase::Memories => "memories_1.sqlite"@,
        SourceDatabase::Logs => "logs_2.sqlite"@,
        SourceDatabase::ThreadHistory => "thread_history_1.sqlite"@,
    }
}

/// The database that is copied after the given one.
pub open spec fn next_database(database: SourceDatabase) -> Option<SourceDatabase> {
    match database {
        SourceDatabase::State => Some(SourceDatabase::Goals),
        SourceDatabase::Goals => Some(SourceDatabase::Memories),
        SourceDatabase::Memories => Some(SourceDatabase::Logs),
        SourceDatabase::Logs => Some(SourceDatabase::ThreadHistory),
        SourceDatabase::ThreadHistory => None,
    }
}

/// The table of a database that is copied first.
pub open spec fn first_table(database: SourceDatabase) -> MigratedTable {
    match database {
        SourceDatabase::State => MigratedTable::Threads,
        SourceDatabase::Goals => MigratedTable::ThreadGoals,
        SourceDatabase::Memories => MigratedTable::Stage1Outputs,
        SourceDatabase::Logs => MigratedTable::Logs,
        SourceDatabase::ThreadHistory => MigratedTable::ThreadTurns,
    }
}

/// The table of the same database that is copied after the given one.
pub open spec fn next_table(table: MigratedTable) -> Option<MigratedTable> {
    match table {
        MigratedTable::Threads => Some(MigratedTable::ThreadDynamicTools),
        MigratedTable::ThreadDynamicTools => Some(MigratedTable::ThreadSpawnEdges),
        MigratedTable::ThreadSpawnEdges => Some(MigratedTable::BackfillState),
        MigratedTable::BackfillState => Some(MigratedTable::RemoteControlEnrollments),
        MigratedTable::RemoteControlEnrollments => Some(MigratedTable::ExternalAgentConfigImports),
        MigratedTable::ExternalAgentConfigImports => Some(MigratedTable::AgentJobs),
        MigratedTable::AgentJobs => Some(MigratedTable::AgentJobItems),
        MigratedTable::AgentJobItems => None,
        MigratedTable::ThreadGoals => Some(MigratedTable::ThreadGoalContinuationDeferrals),
        MigratedTable::ThreadGoalContinuationDeferrals => None,
        MigratedTable::Stage1Outputs => Some(MigratedTable::MemoryJobs),
        MigratedTable::MemoryJobs => None,
        MigratedTable::Logs => None,
        MigratedTable::ThreadTurns => Some(MigratedTable::ThreadItems),
        MigratedTable::ThreadItems => Some(MigratedTable::ThreadHistoryProjectionState),
        MigratedTable::ThreadHistoryProjectionState => None,
    }
}

/// The database that holds a table.
pub open spec fn database_of(table: MigratedTable) -> SourceDatabase {
    match table {
        MigratedTable::Threads
        | MigratedTable::ThreadDynamicTools
        | MigratedTable::ThreadSpawnEdges
        | MigratedTable::BackfillState
        | MigratedTable::RemoteControlEnrollments
        | MigratedTable::ExternalAgentConfigImports
        | MigratedTable::AgentJobs
        | MigratedTable::AgentJobItems => SourceDatabase::State,
        MigratedTable::ThreadGoals
        | MigratedTable::ThreadGoalContinuationDeferrals => SourceDatabase::Goals,
        MigratedTable::Stage1Outputs
        | MigratedTable::MemoryJobs => SourceDatabase::Memories,
        MigratedTable::Logs => SourceDatabase::Logs,
        MigratedTable::ThreadTurns
        | MigratedTable::ThreadItems
        | MigratedTable::ThreadHistoryProjectionState => SourceDatabase::ThreadHistory,
    }
}

/// The place of a table in the order of the migration.
pub open spec fn place(table: MigratedTable) -> nat {
    match table {
        MigratedTable::Threads => 0,
        MigratedTable::ThreadDynamicTools => 1,
        MigratedTable::ThreadSpawnEdges => 2,
        MigratedTable::BackfillState => 3,
        MigratedTable::RemoteControlEnrollments => 4,
        MigratedTable::ExternalAgentConfigImports => 5,
        MigratedTable::AgentJobs => 6,
        MigratedTable::AgentJobItems => 7,
        MigratedTable::ThreadGoals => 8,
        MigratedTable::ThreadGoalContinuationDeferrals => 9,
        MigratedTable::Stage1Outputs => 10,
        MigratedTable::MemoryJobs => 11,
        MigratedTable::Logs => 12,
        MigratedTable::ThreadTurns => 13,
        MigratedTable::ThreadItems => 14,
        MigratedTable::ThreadHistoryProjectionState => 15,
    }
}

impl SourceDatabase {
    /// The file name.
    pub fn file_name(self) -> (name: &'static str)
        ensures
            name@ == file_text(self),
    {
        match self {
            SourceDatabase::State => "state_5.sqlite",
            SourceDatabase::Goals => "goals_1.sqlite",
            SourceDatabase::Memories => "memories_1.sqlite",
            SourceDatabase::Logs => "logs_2.sqlite",
            SourceDatabase::ThreadHistory => "thread_history_1.sqlite",
        }
    }

    /// The database that is copied after this one.
    pub fn next(self) -> (next: Option<SourceDatabase>)
        ensures
            next == next_database(self),
    {
        match self {
            SourceDatabase::State => Some(SourceDatabase::Goals),
            SourceDatabase::Goals => Some(SourceDatabase::Memories),
            SourceDatabase::Memories => Some(SourceDatabase::Logs),
            SourceDatabase::Logs => Some(SourceDatabase::ThreadHistory),
            SourceDatabase::ThreadHistory => None,
        }
    }

    /// The table that is copied first.
    pub fn first_table(self) -> (table: MigratedTable)
        ensures
            table == first_table(self),
    {
        match self {
            SourceDatabase::State => MigratedTable::Threads,
            SourceDatabase::Goals => MigratedTable::ThreadGoals,
            SourceDatabase::Memories => MigratedTable::Stage1Outputs,
            SourceDatabase::Logs => MigratedTable::Logs,
            SourceDatabase::ThreadHistory => MigratedTable::ThreadTurns,
        }
    }
}

impl MigratedTable {
    /// The table of the same database that is copied after this one.
    pub fn next(self) -> (next: Option<MigratedTable>)
        ensures
            next == next_table(self),
    {
        match self {
            MigratedTable::Threads => Some(MigratedTable::ThreadDynamicTools),
            MigratedTable::ThreadDynamicTools => Some(MigratedTable::ThreadSpawnEdges),
            MigratedTable::ThreadSpawnEdges => Some(MigratedTable::BackfillState),
            MigratedTable::BackfillState => Some(MigratedTable::RemoteControlEnrollments),
            MigratedTable::RemoteControlEnrollments => Some(
                MigratedTable::ExternalAgentConfigImports,
            ),
            MigratedTable::ExternalAgentConfigImports => Some(MigratedTable::AgentJobs),
            MigratedTable::AgentJobs => Some(MigratedTable::AgentJobItems),
            MigratedTable::AgentJobItems => None,
            MigratedTable::ThreadGoals => Some(MigratedTable::ThreadGoalContinuationDeferrals),
            MigratedTable::ThreadGoalContinuationDeferrals => None,
            MigratedTable::Stage1Outputs => Some(MigratedTable::MemoryJobs),
            MigratedTable::MemoryJobs => None,
            MigratedTable::Logs => None,
            MigratedTable::ThreadTurns => Some(MigratedTable::ThreadItems),
            MigratedTable::ThreadItems => Some(MigratedTable::ThreadHistoryProjectionState),
            MigratedTable::ThreadHistoryProjectionState => None,
        }
    }

    /// The database that holds this table.
    pub fn database(self) -> (database: SourceDatabase)
        ensures
            database == database_of(self),
    {
        match self {
            MigratedTable::Threads
            | MigratedTable::ThreadDynamicTools
            | MigratedTable::ThreadSpawnEdges
            | MigratedTable::BackfillState
            | MigratedTable::RemoteControlEnrollments
            | MigratedTable::ExternalAgentConfigImports
            | MigratedTable::AgentJobs
            | MigratedTable::AgentJobItems => SourceDatabase::State,
            MigratedTable::ThreadGoals
            | MigratedTable::ThreadGoalContinuationDeferrals => SourceDatabase::Goals,
            MigratedTable::Stage1Outputs
            | MigratedTable::MemoryJobs => SourceDatabase::Memories,
            MigratedTable::Logs => SourceDatabase::Logs,
            MigratedTable::ThreadTurns
            | MigratedTable::ThreadItems
            | MigratedTable::ThreadHistoryProjectionState => SourceDatabase::ThreadHistory,
        }
    }
}

/// How `threads` is copied.
pub open spec fn threads_spec() -> CopySpec {
    CopySpec {
        source: "threads"@,
        destination: "threads"@,
        columns: seq![
            "id"@,
            "rollout_path"@,
            "created_at"@,
            "updated_at"@,
            "source"@,
            "model_provider"@,
            "cwd"@,
            "title"@,
            "sandbox_policy"@,
            "approval_mode"@,
            "tokens_used"@,
            "has_user_event"@,
            "archived"@,
            "archived_at"@,
            "git_sha"@,
            "git_branch"@,
            "git_origin_url"@,
            "cli_version"@,
            "first_user_message"@,
            "agent_nickname"@,
            "agent_role"@,
            "memory_mode"@,
            "model"@,
            "reasoning_effort"@,
            "agent_path"@,
            "created_at_ms"@,
            "updated_at_ms"@,
            "thread_source"@,
            "preview"@,
            "recency_at"@,
            "recency_at_ms"@,
            "history_mode"@,
            "name"@,
            "is_pinned"@,
        ],
        conflict_columns: seq!["id"@],
        boolean_columns: seq!["has_user_event"@, "archived"@, "is_pinned"@],
        integer_columns: seq![
            "created_at"@,
            "updated_at"@,
            "tokens_used"@,
            "archived_at"@,
            "created_at_ms"@,
            "updated_at_ms"@,
            "recency_at"@,
            "recency_at_ms"@,
        ],
        owner_column: Some("id"@),
    }
}

fn threads() -> (copy: TableCopy<'static>)
    ensures
        copy@ == threads_spec(),
{
    let copy: TableCopy<'static> = TableCopy {
        source: "threads",
        destination: "threads",
        columns: &[
            "id",
            "rollout_path",
            "created_at",
            "updated_at",
            "source",
            "model_provider",
            "cwd",
            "title",
            "sandbox_policy",
            "approval_mode",
            "tokens_used",
            "has_user_event",
            "archived",
            "archived_at",
            "git_sha",
            "git_branch",
            "git_origin_url",
            "cli_version",
            "first_user_message",
            "agent_nickname",
            "agent_role",
            "memory_mode",
            "model",
            "reasoning_effort",
            "agent_path",
            "created_at_ms",
            "updated_at_ms",
            "thread_source",
            "preview",
            "recency_at",
            "recency_at_ms",
            "history_mode",
            "name",
            "is_pinned",
        ],
        conflict_columns: &["id"],
        boolean_columns: &["has_user_event", "archived", "is_pinned"],
        integer_columns: &[
            "created_at",
            "updated_at",
            "tokens_used",
            "archived_at",
            "created_at_ms",
            "updated_at_ms",
            "recency_at",
            "recency_at_ms",
        ],
        owner_column: Some("id"),
    };
    assert(copy@.columns =~= threads_spec().columns);
    assert(copy@.conflict_columns =~= threads_spec().conflict_columns);
    assert(copy@.boolean_columns =~= threads_spec().boolean_columns);
    assert(copy@.integer_columns =~= threads_spec().integer_columns);
    copy
}

/// How `thread_dynamic_tools` is copied.
pub open spec fn thread_dynamic_tools_spec() -> CopySpec {
    CopySpec {
        source: "thread_dynamic_tools"@,
        destination: "thread_dynamic_tools"@,
        columns: seq![
            "thread_id"@,
            "position"@,
            "name"@,
            "description"@,
            "input_schema"@,
            "defer_loading"@,
            "namespace"@,
        ],
        conflict_columns: seq!["thread_id"@, "position"@],
        boolean_columns: seq!["defer_loading"@],
        integer_columns: seq!["position"@],
        owner_column: Some("thread_id"@),
    }
}

fn thread_dynamic_tools() -> (copy: TableCopy<'static>)
    ensures
        copy@ == thread_dynamic_tools_spec(),
{
    let copy: TableCopy<'static> = TableCopy {
        source: "thread_dynamic_tools",
        destination: "thread_dynamic_tools",
        columns: &[
            "thread_id",
            "position",
            "name",
            "description",
            "input_schema",
            "defer_loading",
            "namespace",
        ],
        conflict_columns: &["thread_id", "position"],
        boolean_columns: &["defer_loading"],
        integer_columns: &["position"],
        owner_column: Some("thread_id"),
    };
    assert(copy@.columns =~= thread_dynamic_tools_spec().columns);
    assert(copy@.conflict_columns =~= thread_dynamic_tools_spec().conflict_columns);
    assert(copy@.boolean_columns =~= thread_dynamic_tools_spec().boolean_columns);
    assert(copy@.integer_columns =~= thread_dynamic_tools_spec().integer_columns);
    copy
}

/// How `thread_spawn_edges` is copied.
pub open spec fn thread_spawn_edges_spec() -> CopySpec {
    CopySpec {
        source: "thread_spawn_edges"@,
        destination: "thread_spawn_edges"@,
        columns: seq!["parent_thread_id"@, "child_thread_id"@, "status"@],
        conflict_columns: seq!["child_thread_id"@],
        boolean_columns: Seq::empty(),
        integer_columns: Seq::empty(),
        owner_column: Some("child_thread_id"@),
    }
}

fn thread_spawn_edges() -> (copy: TableCopy<'static>)
    ensures
        copy@ == thread_spawn_edges_spec(),
{
    let copy: TableCopy<'static> = TableCopy {
        source: "thread_spawn_edges",
        destination: "thread_spawn_edges",
        columns: &["parent_thread_id", "child_thread_id", "status"],
        conflict_columns: &["child_thread_id"],
        boolean_columns: &[],
        integer_columns: &[],
        owner_column: Some("child_thread_id"),
    };
    assert(copy@.columns =~= thread_spawn_edges_spec().columns);
    assert(copy@.conflict_columns =~= thread_spawn_edges_spec().conflict_columns);
    assert(copy@.boolean_columns =~= thread_spawn_edges_spec().boolean_columns);
    assert(copy@.integer_columns =~= thread_spawn_edges_spec().integer_columns);
    copy
}

/// How `backfill_state` is copied.
pub open spec fn backfill_state_spec() -> CopySpec {
    CopySpec {
        source: "backfill_state"@,
        destination: "backfill_state"@,
        columns: seq![
            "id"@,
            "status"@,
            "last_watermark"@,
            "last_success_at"@,
            "updated_at"@,
        ],
        conflict_columns: seq!["id"@],
        boolean_columns: Seq::empty(),
        integer_columns: seq!["id"@, "last_success_at"@, "updated_at"@],
        owner_column: None,
    }
}

fn backfill_state() -> (copy: TableCopy<'static>)
    ensures
        copy@ == backfill_state_spec(),
{
    let copy: TableCopy<'static> = TableCopy {
        source: "backfill_state",
        destination: "backfill_state",
        columns: &["id", "status", "last_watermark", "last_success_at", "updated_at"],
        conflict_columns: &["id"],
        boolean_columns: &[],
        integer_columns: &["id", "last_success_at", "updated_at"],
        owner_column: None,
    };
    assert(copy@.columns =~= backfill_state_spec().columns);
    assert(copy@.conflict_columns =~= backfill_state_spec().conflict_columns);
    assert(copy@.boolean_columns =~= backfill_state_spec().boolean_columns);
    assert(copy@.integer_columns =~= backfill_state_spec().integer_columns);
    copy
}

/// How `remote_control_enrollments` is copied.
pub open spec fn remote_control_enrollments_spec() -> CopySpec {
    CopySpec {
        source: "remote_control_enrollments"@,
        destination: "remote_control_enrollments"@,
        columns: seq![
            "websocket_url"@,
            "account_id"@,
            "app_server_client_name"@,
            "server_id"@,
            "environment_id"@,
            "server_name"@,
            "updated_at"@,
            "remote_control_enabled"@,
        ],
        conflict_columns: seq!["websocket_url"@, "account_id"@, "app_server_client_name"@],
        boolean_columns: seq!["remote_control_enabled"@],
        integer_columns: seq!["updated_at"@],
        owner_column: None,
    }
}

fn remote_control_enrollments() -> (copy: TableCopy<'static>)
    ensures
        copy@ == remote_control_enrollments_spec(),
{
    let copy: TableCopy<'static> = TableCopy {
        source: "remote_control_enrollments",
        destination: "remote_control_enrollments",
        columns: &[
            "websocket_url",
            "account_id",
            "app_server_client_name",
            "server_id",
            "environment_id",
            "server_name",
            "updated_at",
            "remote_control_enabled",
        ],
        conflict_columns: &["websocket_url", "account_id", "app_server_client_name"],
        boolean_columns: &["remote_control_enabled"],
        integer_columns: &["updated_at"],
        owner_column: None,
    };
    assert(copy@.columns =~= remote_control_enrollments_spec().columns);
    assert(copy@.conflict_columns =~= remote_control_enrollments_spec().conflict_columns);
    assert(copy@.boolean_columns =~= remote_control_enrollments_spec().boolean_columns);
    assert(copy@.integer_columns =~= remote_control_enrollments_spec().integer_columns);
    copy
}

/// How `external_agent_config_imports` is copied.
pub open spec fn external_agent_config_imports_spec() -> CopySpec {
    CopySpec {
        source: "external_agent_config_imports"@,
        destination: "external_agent_config_imports"@,
        columns: seq!["import_id"@, "completed_at_ms"@, "successes"@, "failures"@],
        conflict_columns: seq!["import_id"@],
        boolean_columns: Seq::empty(),
        integer_columns: seq!["completed_at_ms"@],
        owner_column: None,
    }
}

fn external_agent_config_imports() -> (copy: TableCopy<'static>)
    ensures
        copy@ == external_agent_config_imports_spec(),
{
    let copy: TableCopy<'static> = TableCopy {
        source: "external_agent_config_imports",
        destination: "external_agent_config_imports",
        columns: &["import_id", "completed_at_ms", "successes", "failures"],
        conflict_columns: &["import_id"],
        boolean_columns: &[],
        integer_columns: &["completed_at_ms"],
        owner_column: None,
    };
    assert(copy@.columns =~= external_agent_config_imports_spec().columns);
    assert(copy@.conflict_columns =~= external_agent_config_imports_spec().conflict_columns);
    assert(copy@.boolean_columns =~= external_agent_config_imports_spec().boolean_columns);
    assert(copy@.integer_columns =~= external_agent_config_imports_spec().integer_columns);
    copy
}

/// How `agent_jobs` is copied.
pub open spec fn agent_jobs_spec() -> CopySpec {
    CopySpec {
        source: "agent_jobs"@,
        destination: "legacy_agent_jobs"@,
        columns: seq![
            "id"@,
            "name"@,
            "status"@,
            "instruction"@,
            "output_schema_json"@,
            "input_headers_json"@,
            "input_csv_path"@,
            "output_csv_path"@,
            "auto_export"@,
            "created_at"@,
            "updated_at"@,
            "started_at"@,
            "completed_at"@,
            "last_error"@,
            "max_runtime_seconds"@,
        ],
        conflict_columns: seq!["id"@],
        boolean_columns: seq!["auto_export"@],
        integer_columns: seq![
            "created_at"@,
            "updated_at"@,
            "started_at"@,
            "completed_at"@,
            "max_runtime_seconds"@,
        ],
        owner_column: None,
    }
}

fn agent_jobs() -> (copy: TableCopy<'static>)
    ensures
        copy@ == agent_jobs_spec(),
{
    let copy: TableCopy<'static> = TableCopy {
        source: "agent_jobs",
        destination: "legacy_agent_jobs",
        columns: &[
            "id",
            "name",
            "status",
            "instruction",
            "output_schema_json",
            "input_headers_json",
            "input_csv_path",
            "output_csv_path",
            "auto_export",
            "created_at",
            "updated_at",
            "started_at",
            "completed_at",
            "last_error",
            "max_runtime_seconds",
        ],
        conflict_columns: &["id"],
        boolean_columns: &["auto_export"],
        integer_columns: &[
            "created_at",
            "updated_at",
            "started_at",
            "completed_at",
            "max_runtime_seconds",
        ],
        owner_column: None,
    };
    assert(copy@.columns =~= agent_jobs_spec().columns);
    assert(copy@.conflict_columns =~= agent_jobs_spec().conflict_columns);
    assert(copy@.boolean_columns =~= agent_jobs_spec().boolean_columns);
    assert(copy@.integer_columns =~= agent_jobs_spec().integer_columns);
    copy
}

/// How `agent_job_items` is copied.
pub open spec fn agent_job_items_spec() -> CopySpec {
    CopySpec {
        source: "agent_job_items"@,
        destination: "legacy_agent_job_items"@,
        columns: seq![
            "job_id"@,
            "item_id"@,
            "row_index"@,
            "source_id"@,
            "row_json"@,
            "status"@,
            "assigned_thread_id"@,
            "attempt_count"@,
            "result_json"@,
            "last_error"@,
            "created_at"@,
            "updated_at"@,
            "completed_at"@,
            "reported_at"@,
        ],
        conflict_columns: seq!["job_id"@, "item_id"@],
        boolean_columns: Seq::empty(),
        integer_columns: seq![
            "row_index"@,
            "attempt_count"@,
            "created_at"@,
            "updated_at"@,
            "completed_at"@,
            "reported_at"@,
        ],
        owner_column: None,
    }
}

fn agent_job_items() -> (copy: TableCopy<'static>)
    ensures
        copy@ == agent_job_items_spec(),
{
    let copy: TableCopy<'static> = TableCopy {
        source: "agent_job_items",
        destination: "legacy_agent_job_items",
        columns: &[
            "job_id",
            "item_id",
            "row_index",
            "source_id",
            "row_json",
            "status",
            "assigned_thread_id",
            "attempt_count",
            "result_json",
            "last_error",
            "created_at",
            "updated_at",
            "completed_at",
            "reported_at",
        ],
        conflict_columns: &["job_id", "item_id"],
        boolean_columns: &[],
        integer_columns: &[
            "row_index",
            "attempt_count",
            "created_at",
            "updated_at",
            "completed_at",
            "reported_at",
        ],
        owner_column: None,
    };
    assert(copy@.columns =~= agent_job_items_spec().columns);
    assert(copy@.conflict_columns =~= agent_job_items_spec().conflict_columns);
    assert(copy@.boolean_columns =~= agent_job_items_spec().boolean_columns);
    assert(copy@.integer_columns =~= agent_job_items_spec().integer_columns);
    copy
}

/// How `thread_goals` is copied.
pub open spec fn thread_goals_spec() -> CopySpec {
    CopySpec {
        source: "thread_goals"@,
        destination: "thread_goals"@,
        columns: seq![
            "thread_id"@,
            "goal_id"@,
            "objective"@,
            "status"@,
            "token_budget"@,
            "tokens_used"@,
            "time_used_seconds"@,
            "created_at_ms"@,
            "updated_at_ms"@,
        ],
        conflict_columns: seq!["thread_id"@],
        boolean_columns: Seq::empty(),
        integer_columns: seq![
            "token_budget"@,
            "tokens_used"@,
            "time_used_seconds"@,
            "created_at_ms"@,
            "updated_at_ms"@,
        ],
        owner_column: Some("thread_id"@),
    }
}

fn thread_goals() -> (copy: TableCopy<'static>)
    ensures
        copy@ == thread_goals_spec(),
{
    let copy: TableCopy<'static> = TableCopy {
        source: "thread_goals",
        destination: "thread_goals",
        columns: &[
            "thread_id",
            "goal_id",
            "objective",
            "status",
            "token_budget",
            "tokens_used",
            "time_used_seconds",
            "created_at_ms",
            "updated_at_ms",
        ],
        conflict_columns: &["thread_id"],
        boolean_columns: &[],
        integer_columns: &[
            "token_budget",
            "tokens_used",
            "time_used_seconds",
            "created_at_ms",
            "updated_at_ms",
        ],
        owner_column: Some("thread_id"),
    };
    assert(copy@.columns =~= thread_goals_spec().columns);
    assert(copy@.conflict_columns =~= thread_goals_spec().conflict_columns);
    assert(copy@.boolean_columns =~= thread_goals_spec().boolean_columns);
    assert(copy@.integer_columns =~= thread_goals_spec().integer_columns);
    copy
}

/// How `thread_goal_continuation_deferrals` is copied.
pub open spec fn thread_goal_continuation_deferrals_spec() -> CopySpec {
    CopySpec {
        source: "thread_goal_continuation_deferrals"@,
        destination: "thread_goal_continuation_deferrals"@,
        columns: seq!["thread_id"@],
        conflict_columns: seq!["thread_id"@],
        boolean_columns: Seq::empty(),
        integer_columns: Seq::empty(),
        owner_column: Some("thread_id"@),
    }
}

fn thread_goal_continuation_deferrals() -> (copy: TableCopy<'static>)
    ensures
        copy@ == thread_goal_continuation_deferrals_spec(),
{
    let copy: TableCopy<'static> = TableCopy {
        source: "thread_goal_continuation_deferrals",
        destination: "thread_goal_continuation_deferrals",
        columns: &["thread_id"],
        conflict_columns: &["thread_id"],
        boolean_columns: &[],
        integer_columns: &[],
        owner_column: Some("thread_id"),
    };
    assert(copy@.columns =~= thread_goal_continuation_deferrals_spec().columns);
    assert(copy@.conflict_columns =~= thread_goal_continuation_deferrals_spec().conflict_columns);
    assert(copy@.boolean_columns =~= thread_goal_continuation_deferrals_spec().boolean_columns);
    assert(copy@.integer_columns =~= thread_goal_continuation_deferrals_spec().integer_columns);
    copy
}

/// How `stage1_outputs` is copied.
pub open spec fn stage1_outputs_spec() -> CopySpec {
    CopySpec {
        source: "stage1_outputs"@,
        destination: "stage1_outputs"@,
        columns: seq![
            "thread_id"@,
            "source_updated_at"@,
            "raw_memory"@,
            "rollout_summary"@,
            "rollout_slug"@,
            "generated_at"@,
            "usage_count"@,
            "last_usage"@,
            "selected_for_phase2"@,
            "selected_for_phase2_source_updated_at"@,
        ],
        conflict_columns: seq!["thread_id"@],
        boolean_columns: seq!["selected_for_phase2"@],
        integer_columns: seq![
            "source_updated_at"@,
            "generated_at"@,
            "usage_count"@,
            "last_usage"@,
            "selected_for_phase2_source_updated_at"@,
        ],
        owner_column: Some("thread_id"@),
    }
}

fn stage1_outputs() -> (copy: TableCopy<'static>)
    ensures
        copy@ == stage1_outputs_spec(),
{
    let copy: TableCopy<'static> = TableCopy {
        source: "stage1_outputs",
        destination: "stage1_outputs",
        columns: &[
            "thread_id",
            "source_updated_at",
            "raw_memory",
            "rollout_summary",
            "rollout_slug",
            "generated_at",
            "usage_count",
            "last_usage",
            "selected_for_phase2",
            "selected_for_phase2_source_updated_at",
        ],
        conflict_columns: &["thread_id"],
        boolean_columns: &["selected_for_phase2"],
        integer_columns: &[
            "source_updated_at",
            "generated_at",
            "usage_count",
            "last_usage",
            "selected_for_phase2_source_updated_at",
        ],
        owner_column: Some("thread_id"),
    };
    assert(copy@.columns =~= stage1_outputs_spec().columns);
    assert(copy@.conflict_columns =~= stage1_outputs_spec().conflict_columns);
    assert(copy@.boolean_columns =~= stage1_outputs_spec().boolean_columns);
    assert(copy@.integer_columns =~= stage1_outputs_spec().integer_columns);
    copy
}

/// How `jobs` is copied.
pub open spec fn memory_jobs_spec() -> CopySpec {
    CopySpec {
        source: "jobs"@,
        destination: "jobs"@,
        columns: seq![
            "kind"@,
            "job_key"@,
            "status"@,
            "worker_id"@,
            "ownership_token"@,
            "started_at"@,
            "finished_at"@,
            "lease_until"@,
            "retry_at"@,
            "retry_remaining"@,
            "last_error"@,
            "input_watermark"@,
            "last_success_watermark"@,
        ],
        conflict_columns: seq!["kind"@, "job_key"@],
        boolean_columns: Seq::empty(),
        integer_columns: seq![
            "started_at"@,
            "finished_at"@,
            "lease_until"@,
            "retry_at"@,
            "retry_remaining"@,
            "input_watermark"@,
            "last_success_watermark"@,
        ],
        owner_column: None,
    }
}

fn memory_jobs() -> (copy: TableCopy<'static>)
    ensures
        copy@ == memory_jobs_spec(),
{
    let copy: TableCopy<'static> = TableCopy {
        source: "jobs",
        destination: "jobs",
        columns: &[
            "kind",
            "job_key",
            "status",
            "worker_id",
            "ownership_token",
            "started_at",
            "finished_at",
            "lease_until",
            "retry_at",
            "retry_remaining",
            "last_error",
            "input_watermark",
            "last_success_watermark",
        ],
        conflict_columns: &["kind", "job_key"],
        boolean_columns: &[],
        integer_columns: &[
            "started_at",
            "finished_at",
            "lease_until",
            "retry_at",
            "retry_remaining",
            "input_watermark",
            "last_success_watermark",
        ],
        owner_column: None,
    };
    assert(copy@.columns =~= memory_jobs_spec().columns);
    assert(copy@.conflict_columns =~= memory_jobs_spec().conflict_columns);
    assert(copy@.boolean_columns =~= memory_jobs_spec().boolean_columns);
    assert(copy@.integer_columns =~= memory_jobs_spec().integer_columns);
    copy
}

/// How `logs` is copied.
pub open spec fn logs_spec() -> CopySpec {
    CopySpec {
        source: "logs"@,
        destination: "logs"@,
        columns: seq![
            "id"@,
            "ts"@,
            "ts_nanos"@,
            "level"@,
            "target"@,
            "feedback_log_body"@,
            "module_path"@,
            "file"@,
            "line"@,
            "thread_id"@,
            "process_uuid"@,
            "estimated_bytes"@,
        ],
        conflict_columns: seq!["id"@],
        boolean_columns: Seq::empty(),
        integer_columns: seq!["id"@, "ts"@, "ts_nanos"@, "line"@, "estimated_bytes"@],
        owner_column: Some("thread_id"@),
    }
}

fn logs() -> (copy: TableCopy<'static>)
    ensures
        copy@ == logs_spec(),
{
    let copy: TableCopy<'static> = TableCopy {
        source: "logs",
        destination: "logs",
        columns: &[
            "id",
            "ts",
            "ts_nanos",
            "level",
            "target",
            "feedback_log_body",
            "module_path",
            "file",
            "line",
            "thread_id",
            "process_uuid",
            "estimated_bytes",
        ],
        conflict_columns: &["id"],
        boolean_columns: &[],
        integer_columns: &["id", "ts", "ts_nanos", "line", "estimated_bytes"],
        owner_column: Some("thread_id"),
    };
    assert(copy@.columns =~= logs_spec().columns);
    assert(copy@.conflict_columns =~= logs_spec().conflict_columns);
    assert(copy@.boolean_columns =~= logs_spec().boolean_columns);
    assert(copy@.integer_columns =~= logs_spec().integer_columns);
    copy
}

/// How `thread_turns` is copied.
pub open spec fn thread_turns_spec() -> CopySpec {
    CopySpec {
        source: "thread_turns"@,
        destination: "thread_turns"@,
        columns: seq![
            "thread_id"@,
            "turn_id"@,
            "rollout_ordinal"@,
            "status"@,
            "error_json"@,
            "started_at"@,
            "completed_at"@,
            "duration_ms"@,
            "first_user_item_id"@,
            "final_agent_item_id"@,
            "rollout_byte_offset"@,
            "rollout_end_ordinal"@,
            "rollout_end_byte_offset"@,
        ],
        conflict_columns: seq!["thread_id"@, "turn_id"@],
        boolean_columns: Seq::empty(),
        integer_columns: seq![
            "rollout_ordinal"@,
            "started_at"@,
            "completed_at"@,
            "duration_ms"@,
            "rollout_byte_offset"@,
            "rollout_end_ordinal"@,
            "rollout_end_byte_offset"@,
        ],
        owner_column: Some("thread_id"@),
    }
}

fn thread_turns() -> (copy: TableCopy<'static>)
    ensures
        copy@ == thread_turns_spec(),
{
    let copy: TableCopy<'static> = TableCopy {
        source: "thread_turns",
        destination: "thread_turns",
        columns: &[
            "thread_id",
            "turn_id",
            "rollout_ordinal",
            "status",
            "error_json",
            "started_at",
            "completed_at",
            "duration_ms",
            "first_user_item_id",
            "final_agent_item_id",
            "rollout_byte_offset",
            "rollout_end_ordinal",
            "rollout_end_byte_offset",
        ],
        conflict_columns: &["thread_id", "turn_id"],
        boolean_columns: &[],
        integer_columns: &[
            "rollout_ordinal",
            "started_at",
            "completed_at",
            "duration_ms",
            "rollout_byte_offset",
            "rollout_end_ordinal",
            "rollout_end_byte_offset",
        ],
        owner_column: Some("thread_id"),
    };
    assert(copy@.columns =~= thread_turns_spec().columns);
    assert(copy@.conflict_columns =~= thread_turns_spec().conflict_columns);
    assert(copy@.boolean_columns =~= thread_turns_spec().boolean_columns);
    assert(copy@.integer_columns =~= thread_turns_spec().integer_columns);
    copy
}

/// How `thread_items` is copied.
pub open spec fn thread_items_spec() -> CopySpec {
    CopySpec {
        source: "thread_items"@,
        destination: "thread_items"@,
        columns: seq![
            "thread_id"@,
            "turn_id"@,
            "item_id"@,
            "rollout_ordinal"@,
            "created_at_ms"@,
            "item_json"@,
            "item_type"@,
        ],
        conflict_columns: seq!["thread_id"@, "turn_id"@, "item_id"@],
        boolean_columns: Seq::empty(),
        integer_columns: seq!["rollout_ordinal"@, "created_at_ms"@],
        owner_column: Some("thread_id"@),
    }
}

fn thread_items() -> (copy: TableCopy<'static>)
    ensures
        copy@ == thread_items_spec(),
{
    let copy: TableCopy<'static> = TableCopy {
        source: "thread_items",
        destination: "thread_items",
        columns: &[
            "thread_id",
            "turn_id",
            "item_id",
            "rollout_ordinal",
            "created_at_ms",
            "item_json",
            "item_type",
        ],
        conflict_columns: &["thread_id", "turn_id", "item_id"],
        boolean_columns: &[],
        integer_columns: &["rollout_ordinal", "created_at_ms"],
        owner_column: Some("thread_id"),
    };
    assert(copy@.columns =~= thread_items_spec().columns);
    assert(copy@.conflict_columns =~= thread_items_spec().conflict_columns);
    assert(copy@.boolean_columns =~= thread_items_spec().boolean_columns);
    assert(copy@.integer_columns =~= thread_items_spec().integer_columns);
    copy
}

/// How `thread_history_projection_state` is copied.
pub open spec fn thread_history_projection_state_spec() -> CopySpec {
    CopySpec {
        source: "thread_history_projection_state"@,
        destination: "thread_history_projection_state"@,
        columns: seq!["thread_id"@, "next_rollout_byte_offset"@, "next_rollout_ordinal"@],
        conflict_columns: seq!["thread_id"@],
        boolean_columns: Seq::empty(),
        integer_columns: seq!["next_rollout_byte_offset"@, "next_rollout_ordinal"@],
        owner_column: Some("thread_id"@),
    }
}

fn thread_history_projection_state() -> (copy: TableCopy<'static>)
    ensures
        copy@ == thread_history_projection_state_spec(),
{
    let copy: TableCopy<'static> = TableCopy {
        source: "thread_history_projection_state",
        destination: "thread_history_projection_state",
        columns: &["thread_id", "next_rollout_byte_offset", "next_rollout_ordinal"],
        conflict_columns: &["thread_id"],
        boolean_columns: &[],
        integer_columns: &["next_rollout_byte_offset", "next_rollout_ordinal"],
        owner_column: Some("thread_id"),
    };
    assert(copy@.columns =~= thread_history_projection_state_spec().columns);
    assert(copy@.conflict_columns =~= thread_history_projection_state_spec().conflict_columns);
    assert(copy@.boolean_columns =~= thread_history_projection_state_spec().boolean_columns);
    assert(copy@.integer_columns =~= thread_history_projection_state_spec().integer_columns);
    copy
}

/// How a table is copied.
#[verifier::opaque]
pub open spec fn copy_spec(table: MigratedTable) -> CopySpec {
    match table {
        MigratedTable::Threads => threads_spec(),
        MigratedTable::ThreadDynamicTools => thread_dynamic_tools_spec(),
        MigratedTable::ThreadSpawnEdges => thread_spawn_edges_spec(),
        MigratedTable::BackfillState => backfill_state_spec(),
        MigratedTable::RemoteControlEnrollments => remote_control_enrollments_spec(),
        MigratedTable::ExternalAgentConfigImports => external_agent_config_imports_spec(),
        MigratedTable::AgentJobs => agent_jobs_spec(),
        MigratedTable::AgentJobItems => agent_job_items_spec(),
        MigratedTable::ThreadGoals => thread_goals_spec(),
        MigratedTable::ThreadGoalContinuationDeferrals => thread_goal_continuation_deferrals_spec(),
        MigratedTable::Stage1Outputs => stage1_outputs_spec(),
        MigratedTable::MemoryJobs => memory_jobs_spec(),
        MigratedTable::Logs => logs_spec(),
        MigratedTable::ThreadTurns => thread_turns_spec(),
        MigratedTable::ThreadItems => thread_items_spec(),
        MigratedTable::ThreadHistoryProjectionState => thread_history_projection_state_spec(),
    }
}

/// How a table is copied.
pub fn table_copy(table: MigratedTable) -> (copy: TableCopy<'static>)
    ensures
        copy@ == copy_spec(table),
{
    proof {
        reveal(copy_spec);
    }
    match table {
        MigratedTable::Threads => threads(),
        MigratedTable::ThreadDynamicTools => thread_dynamic_tools(),
        MigratedTable::ThreadSpawnEdges => thread_spawn_edges(),
        MigratedTable::BackfillState => backfill_state(),
        MigratedTable::RemoteControlEnrollments => remote_control_enrollments(),
        MigratedTable::ExternalAgentConfigImports => external_agent_config_imports(),
        MigratedTable::AgentJobs => agent_jobs(),
        MigratedTable::AgentJobItems => agent_job_items(),
        MigratedTable::ThreadGoals => thread_goals(),
        MigratedTable::ThreadGoalContinuationDeferrals => thread_goal_continuation_deferrals(),
        MigratedTable::Stage1Outputs => stage1_outputs(),
        MigratedTable::MemoryJobs => memory_jobs(),
        MigratedTable::Logs => logs(),
        MigratedTable::ThreadTurns => thread_turns(),
        MigratedTable::ThreadItems => thread_items(),
        MigratedTable::ThreadHistoryProjectionState => thread_history_projection_state(),
    }
}

/// Whether each of `part` is one of `columns`.
pub open spec fn within(part: Seq<Seq<char>>, columns: Seq<Seq<char>>) -> bool {
    forall|i: int| 0 <= i < part.len() ==> columns.contains(#[trigger] part[i])
}

/// Whether the columns that identify a row, those that are copied as booleans or integers, and the
/// one that holds the owner are all among the columns that are copied.
pub open spec fn is_consistent(copy: CopySpec) -> bool {
    &&& within(copy.conflict_columns, copy.columns)
    &&& within(copy.boolean_columns, copy.columns)
    &&& within(copy.integer_columns, copy.columns)
    &&& copy.owner_column matches Some(column) ==> copy.columns.contains(column)
}

/// Whatever a copy says of columns, it says of columns that it copies.
pub proof fn copies_are_consistent(table: MigratedTable)
    ensures
        is_consistent(copy_spec(table)),
{
    reveal(copy_spec);
    let columns = copy_spec(table).columns;
    match table {
        MigratedTable::Threads => {
            assert(columns[0] == "id"@);
            assert(columns[11] == "has_user_event"@);
            assert(columns[12] == "archived"@);
            assert(columns[33] == "is_pinned"@);
            assert(columns[2] == "created_at"@);
            assert(columns[3] == "updated_at"@);
            assert(columns[10] == "tokens_used"@);
            assert(columns[13] == "archived_at"@);
            assert(columns[25] == "created_at_ms"@);
            assert(columns[26] == "updated_at_ms"@);
            assert(columns[29] == "recency_at"@);
            assert(columns[30] == "recency_at_ms"@);
        },
        MigratedTable::ThreadDynamicTools => {
            assert(columns[0] == "thread_id"@);
            assert(columns[1] == "position"@);
            assert(columns[5] == "defer_loading"@);
        },
        MigratedTable::ThreadSpawnEdges => {
            assert(columns[1] == "child_thread_id"@);
        },
        MigratedTable::BackfillState => {
            assert(columns[0] == "id"@);
            assert(columns[3] == "last_success_at"@);
            assert(columns[4] == "updated_at"@);
        },
        MigratedTable::RemoteControlEnrollments => {
            assert(columns[0] == "websocket_url"@);
            assert(columns[1] == "account_id"@);
            assert(columns[2] == "app_server_client_name"@);
            assert(columns[7] == "remote_control_enabled"@);
            assert(columns[6] == "updated_at"@);
        },
        MigratedTable::ExternalAgentConfigImports => {
            assert(columns[0] == "import_id"@);
            assert(columns[1] == "completed_at_ms"@);
        },
        MigratedTable::AgentJobs => {
            assert(columns[0] == "id"@);
            assert(columns[8] == "auto_export"@);
            assert(columns[9] == "created_at"@);
            assert(columns[10] == "updated_at"@);
            assert(columns[11] == "started_at"@);
            assert(columns[12] == "completed_at"@);
            assert(columns[14] == "max_runtime_seconds"@);
        },
        MigratedTable::AgentJobItems => {
            assert(columns[0] == "job_id"@);
            assert(columns[1] == "item_id"@);
            assert(columns[2] == "row_index"@);
            assert(columns[7] == "attempt_count"@);
            assert(columns[10] == "created_at"@);
            assert(columns[11] == "updated_at"@);
            assert(columns[12] == "completed_at"@);
            assert(columns[13] == "reported_at"@);
        },
        MigratedTable::ThreadGoals => {
            assert(columns[0] == "thread_id"@);
            assert(columns[4] == "token_budget"@);
            assert(columns[5] == "tokens_used"@);
            assert(columns[6] == "time_used_seconds"@);
            assert(columns[7] == "created_at_ms"@);
            assert(columns[8] == "updated_at_ms"@);
        },
        MigratedTable::ThreadGoalContinuationDeferrals => {
            assert(columns[0] == "thread_id"@);
        },
        MigratedTable::Stage1Outputs => {
            assert(columns[0] == "thread_id"@);
            assert(columns[8] == "selected_for_phase2"@);
            assert(columns[1] == "source_updated_at"@);
            assert(columns[5] == "generated_at"@);
            assert(columns[6] == "usage_count"@);
            assert(columns[7] == "last_usage"@);
            assert(columns[9] == "selected_for_phase2_source_updated_at"@);
        },
        MigratedTable::MemoryJobs => {
            assert(columns[0] == "kind"@);
            assert(columns[1] == "job_key"@);
            assert(columns[5] == "started_at"@);
            assert(columns[6] == "finished_at"@);
            assert(columns[7] == "lease_until"@);
            assert(columns[8] == "retry_at"@);
            assert(columns[9] == "retry_remaining"@);
            assert(columns[11] == "input_watermark"@);
            assert(columns[12] == "last_success_watermark"@);
        },
        MigratedTable::Logs => {
            assert(columns[0] == "id"@);
            assert(columns[1] == "ts"@);
            assert(columns[2] == "ts_nanos"@);
            assert(columns[8] == "line"@);
            assert(columns[11] == "estimated_bytes"@);
            assert(columns[9] == "thread_id"@);
        },
        MigratedTable::ThreadTurns => {
            assert(columns[0] == "thread_id"@);
            assert(columns[1] == "turn_id"@);
            assert(columns[2] == "rollout_ordinal"@);
            assert(columns[5] == "started_at"@);
            assert(columns[6] == "completed_at"@);
            assert(columns[7] == "duration_ms"@);
            assert(columns[10] == "rollout_byte_offset"@);
            assert(columns[11] == "rollout_end_ordinal"@);
            assert(columns[12] == "rollout_end_byte_offset"@);
        },
        MigratedTable::ThreadItems => {
            assert(columns[0] == "thread_id"@);
            assert(columns[1] == "turn_id"@);
            assert(columns[2] == "item_id"@);
            assert(columns[3] == "rollout_ordinal"@);
            assert(columns[4] == "created_at_ms"@);
        },
        MigratedTable::ThreadHistoryProjectionState => {
            assert(columns[0] == "thread_id"@);
            assert(columns[1] == "next_rollout_byte_offset"@);
            assert(columns[2] == "next_rollout_ordinal"@);
        },
    }
}

/// Different tables are copied to different tables.
pub proof fn destinations_differ(table: MigratedTable, other: MigratedTable)
    requires
        copy_spec(table).destination == copy_spec(other).destination,
    ensures
        table == other,
{
    reveal(copy_spec);
    reveal_strlit("threads");
    reveal_strlit("thread_dynamic_tools");
    reveal_strlit("thread_spawn_edges");
    reveal_strlit("backfill_state");
    reveal_strlit("remote_control_enrollments");
    reveal_strlit("external_agent_config_imports");
    reveal_strlit("legacy_agent_jobs");
    reveal_strlit("legacy_agent_job_items");
    reveal_strlit("thread_goals");
    reveal_strlit("thread_goal_continuation_deferrals");
    reveal_strlit("stage1_outputs");
    reveal_strlit("jobs");
    reveal_strlit("logs");
    reveal_strlit("thread_turns");
    reveal_strlit("thread_items");
    reveal_strlit("thread_history_projection_state");
    assert("threads"@.len() == 7);
    assert("thread_dynamic_tools"@.len() == 20);
    assert("thread_spawn_edges"@.len() == 18);
    assert("backfill_state"@.len() == 14);
    assert("remote_control_enrollments"@.len() == 26);
    assert("external_agent_config_imports"@.len() == 29);
    assert("legacy_agent_jobs"@.len() == 17);
    assert("legacy_agent_job_items"@.len() == 22);
    assert("thread_goals"@.len() == 12);
    assert("thread_goal_continuation_deferrals"@.len() == 34);
    assert("stage1_outputs"@.len() == 14);
    assert("jobs"@.len() == 4);
    assert("logs"@.len() == 4);
    assert("thread_turns"@.len() == 12);
    assert("thread_items"@.len() == 12);
    assert("thread_history_projection_state"@.len() == 31);
    assert("backfill_state"@[0] == 'b');
    assert("stage1_outputs"@[0] == 's');
    assert("thread_goals"@[7] == 'g');
    assert("thread_turns"@[7] == 't');
    assert("thread_items"@[7] == 'i');
    assert("jobs"@[0] == 'j');
    assert("logs"@[0] == 'l');
}

/// The tables of a database follow one another in the order of the migration, and the first table of
/// the next database follows the last one.
pub proof fn tables_follow_one_another(table: MigratedTable)
    ensures
        match next_table(table) {
            Some(next) => database_of(next) == database_of(table) && place(next) == place(table)
                + 1,
            None => match next_database(database_of(table)) {
                Some(database) => place(first_table(database)) == place(table) + 1,
                None => forall|other: MigratedTable| place(other) <= place(table),
            },
        },
        database_of(first_table(database_of(table))) == database_of(table),
{
}

} // verus!
