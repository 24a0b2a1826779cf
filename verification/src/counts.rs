//! How many rows a migration copied, and whether they have arrived.
use crate::schema::{table, table_text};
use crate::tables::{copy_spec, place, table_copy, MigratedTable};
use crate::text::{decimal, push_decimal, push_signed_decimal, signed_decimal};
use vstd::prelude::*;

verus! {

/// The number of rows that were copied of each table.
#[derive(Debug, Clone, Copy)]
pub struct MigrationCounts {
    pub threads: u64,
    pub thread_dynamic_tools: u64,
    pub thread_spawn_edges: u64,
    pub backfill_state: u64,
    pub remote_control_enrollments: u64,
    pub external_agent_config_imports: u64,
    pub agent_jobs: u64,
    pub agent_job_items: u64,
    pub thread_goals: u64,
    pub thread_goal_continuation_deferrals: u64,
    pub stage1_outputs: u64,
    pub memory_jobs: u64,
    pub logs: u64,
    pub thread_turns: u64,
    pub thread_items: u64,
    pub thread_history_projection_state: u64,
}

/// The number of rows that were copied of a table.
pub open spec fn count_of(counts: MigrationCounts, table: MigratedTable) -> u64 {
    match table {
        MigratedTable::Threads => counts.threads,
        MigratedTable::ThreadDynamicTools => counts.thread_dynamic_tools,
        MigratedTable::ThreadSpawnEdges => counts.thread_spawn_edges,
        MigratedTable::BackfillState => counts.backfill_state,
        MigratedTable::RemoteControlEnrollments => counts.remote_control_enrollments,
        MigratedTable::ExternalAgentConfigImports => counts.external_agent_config_imports,
        MigratedTable::AgentJobs => counts.agent_jobs,
        MigratedTable::AgentJobItems => counts.agent_job_items,
        MigratedTable::ThreadGoals => counts.thread_goals,
        MigratedTable::ThreadGoalContinuationDeferrals => counts.thread_goal_continuation_deferrals,
        MigratedTable::Stage1Outputs => counts.stage1_outputs,
        MigratedTable::MemoryJobs => counts.memory_jobs,
        MigratedTable::Logs => counts.logs,
        MigratedTable::ThreadTurns => counts.thread_turns,
        MigratedTable::ThreadItems => counts.thread_items,
        MigratedTable::ThreadHistoryProjectionState => counts.thread_history_projection_state,
    }
}

/// The counts with that of one table replaced.
pub open spec fn with_count(
    counts: MigrationCounts,
    table: MigratedTable,
    count: u64,
) -> MigrationCounts {
    match table {
        MigratedTable::Threads => MigrationCounts { threads: count, ..counts },
        MigratedTable::ThreadDynamicTools => MigrationCounts {
            thread_dynamic_tools: count,
            ..counts
        },
        MigratedTable::ThreadSpawnEdges => MigrationCounts { thread_spawn_edges: count, ..counts },
        MigratedTable::BackfillState => MigrationCounts { backfill_state: count, ..counts },
        MigratedTable::RemoteControlEnrollments => MigrationCounts {
            remote_control_enrollments: count,
            ..counts
        },
        MigratedTable::ExternalAgentConfigImports => MigrationCounts {
            external_agent_config_imports: count,
            ..counts
        },
        MigratedTable::AgentJobs => MigrationCounts { agent_jobs: count, ..counts },
        MigratedTable::AgentJobItems => MigrationCounts { agent_job_items: count, ..counts },
        MigratedTable::ThreadGoals => MigrationCounts { thread_goals: count, ..counts },
        MigratedTable::ThreadGoalContinuationDeferrals => MigrationCounts {
            thread_goal_continuation_deferrals: count,
            ..counts
        },
        MigratedTable::Stage1Outputs => MigrationCounts { stage1_outputs: count, ..counts },
        MigratedTable::MemoryJobs => MigrationCounts { memory_jobs: count, ..counts },
        MigratedTable::Logs => MigrationCounts { logs: count, ..counts },
        MigratedTable::ThreadTurns => MigrationCounts { thread_turns: count, ..counts },
        MigratedTable::ThreadItems => MigrationCounts { thread_items: count, ..counts },
        MigratedTable::ThreadHistoryProjectionState => MigrationCounts {
            thread_history_projection_state: count,
            ..counts
        },
    }
}

impl Default for MigrationCounts {
    /// Nothing was copied.
    fn default() -> (counts: MigrationCounts)
        ensures
            forall|table: MigratedTable| #[trigger] count_of(counts, table) == 0,
    {
        MigrationCounts {
            threads: 0,
            thread_dynamic_tools: 0,
            thread_spawn_edges: 0,
            backfill_state: 0,
            remote_control_enrollments: 0,
            external_agent_config_imports: 0,
            agent_jobs: 0,
            agent_job_items: 0,
            thread_goals: 0,
            thread_goal_continuation_deferrals: 0,
            stage1_outputs: 0,
            memory_jobs: 0,
            logs: 0,
            thread_turns: 0,
            thread_items: 0,
            thread_history_projection_state: 0,
        }
    }
}

impl MigrationCounts {
    /// The number of rows that were copied of a table.
    pub fn get(&self, table: MigratedTable) -> (count: u64)
        ensures
            count == count_of(*self, table),
    {
        match table {
            MigratedTable::Threads => self.threads,
            MigratedTable::ThreadDynamicTools => self.thread_dynamic_tools,
            MigratedTable::ThreadSpawnEdges => self.thread_spawn_edges,
            MigratedTable::BackfillState => self.backfill_state,
            MigratedTable::RemoteControlEnrollments => self.remote_control_enrollments,
            MigratedTable::ExternalAgentConfigImports => self.external_agent_config_imports,
            MigratedTable::AgentJobs => self.agent_jobs,
            MigratedTable::AgentJobItems => self.agent_job_items,
            MigratedTable::ThreadGoals => self.thread_goals,
            MigratedTable::ThreadGoalContinuationDeferrals => self.thread_goal_continuation_deferrals,
            MigratedTable::Stage1Outputs => self.stage1_outputs,
            MigratedTable::MemoryJobs => self.memory_jobs,
            MigratedTable::Logs => self.logs,
            MigratedTable::ThreadTurns => self.thread_turns,
            MigratedTable::ThreadItems => self.thread_items,
            MigratedTable::ThreadHistoryProjectionState => self.thread_history_projection_state,
        }
    }

    /// Replaces the number of rows that were copied of a table.
    pub fn set(&mut self, table: MigratedTable, count: u64)
        ensures
            *final(self) == with_count(*old(self), table, count),
    {
        match table {
            MigratedTable::Threads => {
                self.threads = count;
            },
            MigratedTable::ThreadDynamicTools => {
                self.thread_dynamic_tools = count;
            },
            MigratedTable::ThreadSpawnEdges => {
                self.thread_spawn_edges = count;
            },
            MigratedTable::BackfillState => {
                self.backfill_state = count;
            },
            MigratedTable::RemoteControlEnrollments => {
                self.remote_control_enrollments = count;
            },
            MigratedTable::ExternalAgentConfigImports => {
                self.external_agent_config_imports = count;
            },
            MigratedTable::AgentJobs => {
                self.agent_jobs = count;
            },
            MigratedTable::AgentJobItems => {
                self.agent_job_items = count;
            },
            MigratedTable::ThreadGoals => {
                self.thread_goals = count;
            },
            MigratedTable::ThreadGoalContinuationDeferrals => {
                self.thread_goal_continuation_deferrals = count;
            },
            MigratedTable::Stage1Outputs => {
                self.stage1_outputs = count;
            },
            MigratedTable::MemoryJobs => {
                self.memory_jobs = count;
            },
            MigratedTable::Logs => {
                self.logs = count;
            },
            MigratedTable::ThreadTurns => {
                self.thread_turns = count;
            },
            MigratedTable::ThreadItems => {
                self.thread_items = count;
            },
            MigratedTable::ThreadHistoryProjectionState => {
                self.thread_history_projection_state = count;
            },
        }
    }
}

/// Replacing the count of a table sets that count and leaves the others.
pub proof fn replaced_count(
    counts: MigrationCounts,
    table: MigratedTable,
    count: u64,
    other: MigratedTable,
)
    ensures
        count_of(with_count(counts, table, count), other) == if other == table {
            count
        } else {
            count_of(counts, other)
        },
{
}

/// A table whose rows are to be counted, and how many there should be.
#[derive(Debug, Clone, Copy)]
pub struct CountCheck {
    pub table_name: &'static str,
    pub expected: u64,
}

/// How many tables are counted.
pub const CHECKS: usize = 16;

/// The table at a place in the order of the migration.
pub fn table_at(index: usize) -> (table: MigratedTable)
    requires
        index < CHECKS,
    ensures
        place(table) == index,
{
    match index {
        0 => MigratedTable::Threads,
        1 => MigratedTable::ThreadDynamicTools,
        2 => MigratedTable::ThreadSpawnEdges,
        3 => MigratedTable::BackfillState,
        4 => MigratedTable::RemoteControlEnrollments,
        5 => MigratedTable::ExternalAgentConfigImports,
        6 => MigratedTable::AgentJobs,
        7 => MigratedTable::AgentJobItems,
        8 => MigratedTable::ThreadGoals,
        9 => MigratedTable::ThreadGoalContinuationDeferrals,
        10 => MigratedTable::Stage1Outputs,
        11 => MigratedTable::MemoryJobs,
        12 => MigratedTable::Logs,
        13 => MigratedTable::ThreadTurns,
        14 => MigratedTable::ThreadItems,
        _ => MigratedTable::ThreadHistoryProjectionState,
    }
}

/// Whether a check is the one at a place in the order of the migration.
pub open spec fn is_check(check: CountCheck, counts: MigrationCounts, index: int) -> bool {
    exists|table: MigratedTable| #[trigger]
        place(table) == index && check.table_name@ == copy_spec(table).destination && check.expected
            == count_of(counts, table)
}

fn count_check(counts: &MigrationCounts, index: usize) -> (check: CountCheck)
    requires
        index < CHECKS,
    ensures
        is_check(check, *counts, index as int),
{
    let table = table_at(index);
    CountCheck { table_name: table_copy(table).destination, expected: counts.get(table) }
}

/// The query for the number of rows of a table.
pub open spec fn count_text(schema: Seq<char>, table_name: Seq<char>) -> Seq<char> {
    "SELECT COUNT(*) FROM "@ + table_text(schema, table_name)
}

/// Writes the query for the number of rows of a table.
pub fn count_sql(schema: &str, table_name: &str) -> (sql: String)
    ensures
        sql@ == count_text(schema@, table_name@),
{
    "SELECT COUNT(*) FROM ".to_owned().concat(table(schema, table_name).as_str())
}

/// Why the rows of a table have not arrived.
#[derive(Debug)]
pub enum CountError {
    /// The number of rows is below zero.
    OutOfRange,
    /// The number of rows is not the expected one.
    Mismatch { table_name: &'static str, expected: u64, actual: i64 },
}

/// The message of a failed check.
pub open spec fn count_message(error: CountError) -> Seq<char> {
    match error {
        CountError::OutOfRange => "out of range integral type conversion attempted"@,
        CountError::Mismatch { table_name, expected, actual } => {
            "count mismatch for "@ + table_name@ + ": source="@ + decimal(expected as nat)
                + ", destination="@ + signed_decimal(actual as int)
        },
    }
}

impl CountError {
    /// What to tell the user.
    pub fn message(&self) -> (message: String)
        ensures
            message@ == count_message(*self),
    {
        match self {
            CountError::OutOfRange => "out of range integral type conversion attempted".to_owned(),
            CountError::Mismatch { table_name, expected, actual } => {
                let mut message = "count mismatch for ".to_owned().concat(*table_name).concat(
                    ": source=",
                );
                push_decimal(&mut message, *expected);
                message.append(", destination=");
                push_signed_decimal(&mut message, *actual);
                message
            },
        }
    }
}

/// Compares the number of rows of a table with the expected one.
pub fn verify_count(check: &CountCheck, actual: i64) -> (result: Result<(), CountError>)
    ensures
        match result {
            Ok(()) => actual == check.expected,
            Err(CountError::OutOfRange) => actual < 0,
            Err(CountError::Mismatch { table_name, expected, actual: found }) => {
                &&& actual >= 0
                &&& actual != check.expected
                &&& table_name == check.table_name
                &&& expected == check.expected
                &&& found == actual
            },
        },
{
    if actual < 0 {
        Err(CountError::OutOfRange)
    } else if actual as u64 != check.expected {
        Err(
            CountError::Mismatch {
                table_name: check.table_name,
                expected: check.expected,
                actual,
            },
        )
    } else {
        Ok(())
    }
}

/// Whether the numbers of rows, in the order of the migration, are those that were copied.
pub open spec fn counts_match(counts: MigrationCounts, actual: Seq<i64>) -> bool {
    forall|table: MigratedTable|
        #[trigger] place(table) < actual.len() ==> actual[place(table) as int] == count_of(
            counts,
            table,
        )
}

/// Whether an error says that a table has the wrong number of rows.
pub open spec fn is_mismatch(
    error: CountError,
    counts: MigrationCounts,
    table: MigratedTable,
    actual: i64,
) -> bool {
    &&& actual != count_of(counts, table)
    &&& match error {
        CountError::OutOfRange => actual < 0,
        CountError::Mismatch { table_name, expected, actual: found } => {
            &&& actual >= 0
            &&& table_name@ == copy_spec(table).destination
            &&& expected == count_of(counts, table)
            &&& found == actual
        },
    }
}

/// Compares the numbers of rows that were found so far, in the order of the migration, with those
/// that were copied. Says which table to count next while all of them match.
pub fn verify_counts(expected: &MigrationCounts, actual: &Vec<i64>) -> (result: Result<
    Option<CountCheck>,
    CountError,
>)
    ensures
        match result {
            Ok(Some(check)) => {
                &&& actual@.len() < CHECKS
                &&& counts_match(*expected, actual@)
                &&& is_check(check, *expected, actual@.len() as int)
            },
            Ok(None) => actual@.len() >= CHECKS && counts_match(*expected, actual@),
            Err(error) => exists|table: MigratedTable| #[trigger]
                place(table) < actual@.len() && counts_match(
                    *expected,
                    actual@.take(place(table) as int),
                ) && is_mismatch(error, *expected, table, actual@[place(table) as int]),
        },
{
    let mut index: usize = 0;
    while index < actual.len() && index < CHECKS
        invariant
            index <= actual@.len(),
            index <= CHECKS,
            counts_match(*expected, actual@.take(index as int)),
        decreases actual@.len() - index,
    {
        let check = count_check(expected, index);
        let table = Ghost(choose|table: MigratedTable| #[trigger] place(table) == index);
        match verify_count(&check, actual[index]) {
            Ok(()) => {},
            Err(error) => {
                assert(is_mismatch(error, *expected, table@, actual@[place(table@) as int]));
                return Err(error);
            },
        }
        index += 1;
    }
    if index < CHECKS {
        assert(actual@.take(index as int) =~= actual@);
        Ok(Some(count_check(expected, index)))
    } else {
        Ok(None)
    }
}

/// The count of a table is the one under the table's name, and replacing it changes nothing else.
pub proof fn counts_have_their_names(counts: MigrationCounts, count: u64)
    ensures
        count_of(counts, MigratedTable::Threads) == counts.threads,
        count_of(counts, MigratedTable::ThreadDynamicTools) == counts.thread_dynamic_tools,
        count_of(counts, MigratedTable::ThreadSpawnEdges) == counts.thread_spawn_edges,
        count_of(counts, MigratedTable::BackfillState) == counts.backfill_state,
        count_of(counts, MigratedTable::RemoteControlEnrollments) == counts.remote_control_enrollments,
        count_of(counts, MigratedTable::ExternalAgentConfigImports) == counts.external_agent_config_imports,
        count_of(counts, MigratedTable::AgentJobs) == counts.agent_jobs,
        count_of(counts, MigratedTable::AgentJobItems) == counts.agent_job_items,
        count_of(counts, MigratedTable::ThreadGoals) == counts.thread_goals,
        count_of(counts, MigratedTable::ThreadGoalContinuationDeferrals) == counts.thread_goal_continuation_deferrals,
        count_of(counts, MigratedTable::Stage1Outputs) == counts.stage1_outputs,
        count_of(counts, MigratedTable::MemoryJobs) == counts.memory_jobs,
        count_of(counts, MigratedTable::Logs) == counts.logs,
        count_of(counts, MigratedTable::ThreadTurns) == counts.thread_turns,
        count_of(counts, MigratedTable::ThreadItems) == counts.thread_items,
        count_of(counts, MigratedTable::ThreadHistoryProjectionState) == counts.thread_history_projection_state,
        with_count(counts, MigratedTable::Threads, count) == (MigrationCounts {
            threads: count,
            ..counts
        }),
        with_count(counts, MigratedTable::ThreadDynamicTools, count) == (MigrationCounts {
            thread_dynamic_tools: count,
            ..counts
        }),
        with_count(counts, MigratedTable::ThreadSpawnEdges, count) == (MigrationCounts {
            thread_spawn_edges: count,
            ..counts
        }),
        with_count(counts, MigratedTable::BackfillState, count) == (MigrationCounts {
            backfill_state: count,
            ..counts
        }),
        with_count(counts, MigratedTable::RemoteControlEnrollments, count) == (MigrationCounts {
            remote_control_enrollments: count,
            ..counts
        }),
        with_count(counts, MigratedTable::ExternalAgentConfigImports, count) == (MigrationCounts {
            external_agent_config_imports: count,
            ..counts
        }),
        with_count(counts, MigratedTable::AgentJobs, count) == (MigrationCounts {
            agent_jobs: count,
            ..counts
        }),
        with_count(counts, MigratedTable::AgentJobItems, count) == (MigrationCounts {
            agent_job_items: count,
            ..counts
        }),
        with_count(counts, MigratedTable::ThreadGoals, count) == (MigrationCounts {
            thread_goals: count,
            ..counts
        }),
        with_count(counts, MigratedTable::ThreadGoalContinuationDeferrals, count) == (MigrationCounts {
            thread_goal_continuation_deferrals: count,
            ..counts
        }),
        with_count(counts, MigratedTable::Stage1Outputs, count) == (MigrationCounts {
            stage1_outputs: count,
            ..counts
        }),
        with_count(counts, MigratedTable::MemoryJobs, count) == (MigrationCounts {
            memory_jobs: count,
            ..counts
        }),
        with_count(counts, MigratedTable::Logs, count) == (MigrationCounts {
            logs: count,
            ..counts
        }),
        with_count(counts, MigratedTable::ThreadTurns, count) == (MigrationCounts {
            thread_turns: count,
            ..counts
        }),
        with_count(counts, MigratedTable::ThreadItems, count) == (MigrationCounts {
            thread_items: count,
            ..counts
        }),
        with_count(counts, MigratedTable::ThreadHistoryProjectionState, count) == (MigrationCounts {
            thread_history_projection_state: count,
            ..counts
        }),
{
}

/// The tables are counted in this order, each once.
pub proof fn order_of_counting(index: usize, table: MigratedTable)
    requires
        index < CHECKS,
        call_ensures(table_at, (index,), table),
    ensures
        table == match index {
            0usize => MigratedTable::Threads,
            1usize => MigratedTable::ThreadDynamicTools,
            2usize => MigratedTable::ThreadSpawnEdges,
            3usize => MigratedTable::BackfillState,
            4usize => MigratedTable::RemoteControlEnrollments,
            5usize => MigratedTable::ExternalAgentConfigImports,
            6usize => MigratedTable::AgentJobs,
            7usize => MigratedTable::AgentJobItems,
            8usize => MigratedTable::ThreadGoals,
            9usize => MigratedTable::ThreadGoalContinuationDeferrals,
            10usize => MigratedTable::Stage1Outputs,
            11usize => MigratedTable::MemoryJobs,
            12usize => MigratedTable::Logs,
            13usize => MigratedTable::ThreadTurns,
            14usize => MigratedTable::ThreadItems,
            _ => MigratedTable::ThreadHistoryProjectionState,
        },
{
}

/// Counting ends well exactly if the counts of all tables, in their order, are those that were copied.
pub proof fn counts_have_to_match(
    counts: &MigrationCounts,
    actual: &Vec<i64>,
    result: Result<Option<CountCheck>, CountError>,
)
    requires
        call_ensures(verify_counts, (counts, actual), result),
        actual@.len() == 16,
    ensures
        result is Ok <==> {
            &&& actual@[0] == counts.threads
            &&& actual@[1] == counts.thread_dynamic_tools
            &&& actual@[2] == counts.thread_spawn_edges
            &&& actual@[3] == counts.backfill_state
            &&& actual@[4] == counts.remote_control_enrollments
            &&& actual@[5] == counts.external_agent_config_imports
            &&& actual@[6] == counts.agent_jobs
            &&& actual@[7] == counts.agent_job_items
            &&& actual@[8] == counts.thread_goals
            &&& actual@[9] == counts.thread_goal_continuation_deferrals
            &&& actual@[10] == counts.stage1_outputs
            &&& actual@[11] == counts.memory_jobs
            &&& actual@[12] == counts.logs
            &&& actual@[13] == counts.thread_turns
            &&& actual@[14] == counts.thread_items
            &&& actual@[15] == counts.thread_history_projection_state
        },
        result matches Ok(next) ==> next is None,
{
    assert(place(MigratedTable::Threads) == 0);
    assert(place(MigratedTable::ThreadDynamicTools) == 1);
    assert(place(MigratedTable::ThreadSpawnEdges) == 2);
    assert(place(MigratedTable::BackfillState) == 3);
    assert(place(MigratedTable::RemoteControlEnrollments) == 4);
    assert(place(MigratedTable::ExternalAgentConfigImports) == 5);
    assert(place(MigratedTable::AgentJobs) == 6);
    assert(place(MigratedTable::AgentJobItems) == 7);
    assert(place(MigratedTable::ThreadGoals) == 8);
    assert(place(MigratedTable::ThreadGoalContinuationDeferrals) == 9);
    assert(place(MigratedTable::Stage1Outputs) == 10);
    assert(place(MigratedTable::MemoryJobs) == 11);
    assert(place(MigratedTable::Logs) == 12);
    assert(place(MigratedTable::ThreadTurns) == 13);
    assert(place(MigratedTable::ThreadItems) == 14);
    assert(place(MigratedTable::ThreadHistoryProjectionState) == 15);
}

/// What a check that fails says: which table has how many rows, and how many it should have.
pub proof fn failed_check_names_its_table(
    check: &CountCheck,
    actual: i64,
    result: Result<(), CountError>,
)
    requires
        call_ensures(verify_count, (check, actual), result),
    ensures
        result is Ok <==> actual == check.expected,
        result matches Err(error) ==> count_message(error) == if actual < 0 {
            "out of range integral type conversion attempted"@
        } else {
            "count mismatch for "@ + check.table_name@ + ": source="@ + decimal(
                check.expected as nat,
            ) + ", destination="@ + decimal(actual as nat)
        },
{
}

/// The first table with the wrong number of rows is the one that is reported.
pub proof fn first_mismatch_is_reported(
    counts: &MigrationCounts,
    actual: &Vec<i64>,
    result: Result<Option<CountCheck>, CountError>,
    table: MigratedTable,
)
    requires
        call_ensures(verify_counts, (counts, actual), result),
        place(table) < actual@.len(),
        actual@[place(table) as int] != count_of(*counts, table),
        forall|other: MigratedTable| #[trigger]
            place(other) < place(table) ==> actual@[place(other) as int] == count_of(
                *counts,
                other,
            ),
    ensures
        result matches Err(error) && count_message(error) == if actual@[place(table) as int] < 0 {
            "out of range integral type conversion attempted"@
        } else {
            "count mismatch for "@ + copy_spec(table).destination + ": source="@ + decimal(
                count_of(*counts, table) as nat,
            ) + ", destination="@ + decimal(actual@[place(table) as int] as nat)
        },
{
    let index = place(table) as int;
    assert(!counts_match(*counts, actual@));
    if let Err(error) = result {
        let found = choose|found: MigratedTable| #[trigger]
            place(found) < actual@.len() && counts_match(
                *counts,
                actual@.take(place(found) as int),
            ) && is_mismatch(error, *counts, found, actual@[place(found) as int]);
        if place(found) > index {
            assert(actual@.take(place(found) as int)[index] == actual@[index]);
            assert(place(table) < actual@.take(place(found) as int).len());
        }
        assert(place(found) == place(table));
        assert(found == table);
    }
}

/// The rows of a table are counted by its name in its schema.
pub proof fn parts_of_count(schema: &str, table_name: &str, sql: String)
    requires
        call_ensures(count_sql, (schema, table_name), sql),
    ensures
        sql@ == "SELECT COUNT(*) FROM "@ + ("\""@ + schema@ + "\".\""@ + table_name@ + "\""@),
{
}

} // verus!
