//! Appending rollout lines and projecting them in order.
use crate::error::{
    internal, out_of_range, sqlite_integer, thread_history_error, Failure, ThreadStoreError,
    ThreadStoreResult,
};
use crate::history::{
    all_item_statements, all_turn_statements, apply_change_set, bound, change_set_statements,
    delete_statements, integer_datum, item_statements, text_datum, turn_statements, BoundSql,
    ItemChange, LinePosition, Statement, ThreadHistoryChangeSet, TurnChange,
};
use crate::history_sql::{UPSERT_PROJECTION_STATE, UPSERT_ROLLOUT_EVENT};
use crate::rollout::{
    line_type_text, payload_type_text, rollout_line_type, rollout_payload_type,
};
use crate::text::{push_signed_decimal, signed_decimal};
use crate::time::{parse_rfc3339_millis, rfc3339_millis};
use crate::value::{optional_text, SqlDatum, SqlValue};
use serde_json::Value;
use vstd::prelude::*;

verus! {

/// A valid complete rollout line with its absolute byte span in durable JSONL.
///
/// `start_byte_offset..end_byte_offset` includes the terminating newline. Blank and rejected
/// lines do not produce a value here, but still advance later spans.
#[derive(Debug)]
pub struct ProjectedRolloutLine {
    pub ordinal: u64,
    pub start_byte_offset: u64,
    pub end_byte_offset: u64,
    pub created_at_ms: i64,
    pub line_type: String,
    pub payload_type: Option<String>,
    pub raw_json: String,
    pub changes: ThreadHistoryChangeSet,
}

/// What is known of the stored progress of a projection.
#[derive(Debug, Clone, Copy)]
pub enum StoredProgress {
    /// There is no history database yet.
    NoDatabase,
    /// The number stored for the thread, if there is one.
    Stored(Option<i64>),
}

/// Whether there is nothing to look up: only a local database can be missing.
pub fn history_is_absent(database_url_is_set: bool, database_file_exists: bool) -> (absent: bool)
    ensures
        absent == (!database_url_is_set && !database_file_exists),
{
    !database_url_is_set && !database_file_exists
}

/// The number that a projection goes on with: zero where nothing is stored.
pub open spec fn progress(stored: StoredProgress) -> int {
    match stored {
        StoredProgress::Stored(Some(number)) => number as int,
        _ => 0,
    }
}

/// The message of a stored number below zero.
pub open spec fn negative_progress(thread_id: Seq<char>, what: Seq<char>) -> Seq<char> {
    "thread history projection for "@ + thread_id + " has a negative "@ + what
}

fn next_number(thread_id: &str, stored: StoredProgress, what: &str) -> (result: ThreadStoreResult<
    u64,
>)
    ensures
        match result {
            Ok(number) => number == progress(stored),
            Err(error) => progress(stored) < 0 && error@ == Failure::Internal(
                negative_progress(thread_id@, what@),
            ),
        },
{
    let number: i64 = match stored {
        StoredProgress::Stored(Some(number)) => number,
        StoredProgress::Stored(None) => 0,
        StoredProgress::NoDatabase => 0,
    };
    if number >= 0 {
        Ok(number as u64)
    } else {
        Err(
            internal(
                "thread history projection for ".to_owned().concat(thread_id).concat(
                    " has a negative ",
                ).concat(what),
            ),
        )
    }
}

/// The byte offset where the next rollout line of a thread starts.
pub fn next_rollout_byte_offset(thread_id: &str, stored: StoredProgress) -> (result:
    ThreadStoreResult<u64>)
    ensures
        match result {
            Ok(offset) => offset == progress(stored),
            Err(error) => progress(stored) < 0 && error@ == Failure::Internal(
                negative_progress(thread_id@, "byte offset"@),
            ),
        },
{
    next_number(thread_id, stored, "byte offset")
}

/// The ordinal of the next rollout line of a thread.
pub fn next_rollout_ordinal(thread_id: &str, stored: StoredProgress) -> (result: ThreadStoreResult<
    u64,
>)
    ensures
        match result {
            Ok(ordinal) => ordinal == progress(stored),
            Err(error) => progress(stored) < 0 && error@ == Failure::Internal(
                negative_progress(thread_id@, "ordinal"@),
            ),
        },
{
    next_number(thread_id, stored, "ordinal")
}

/// The bytes of a text in UTF-8.
pub open spec fn byte_length(text: Seq<char>) -> int {
    vstd::utf8::encode_utf8(text).len() as usize as int
}

/// Whether the line at `index` follows the one before it, where the first line has the given offset
/// and ordinal. A line spans its text and a newline.
pub open spec fn follows(
    lines: Seq<ProjectedRolloutLine>,
    start_offset: int,
    first_ordinal: int,
    index: int,
) -> bool {
    &&& lines[index].ordinal == first_ordinal + index
    &&& lines[index].start_byte_offset == (if index == 0 {
        start_offset
    } else {
        lines[index - 1].end_byte_offset as int
    })
    &&& lines[index].end_byte_offset == lines[index].start_byte_offset + byte_length(
        lines[index].raw_json@,
    ) + 1
}

/// Whether `lines` follow each other from the given offset and ordinal on.
pub open spec fn consecutive(
    lines: Seq<ProjectedRolloutLine>,
    start_offset: int,
    first_ordinal: int,
) -> bool {
    forall|i: int|
        0 <= i < lines.len() ==> #[trigger] follows(lines, start_offset, first_ordinal, i)
}

/// Rollout lines that are appended to a thread together.
pub struct RolloutBatch {
    start_offset: u64,
    first_ordinal: u64,
    next_offset: u64,
    lines: Vec<ProjectedRolloutLine>,
}

/// What a [`RolloutBatch`] holds.
#[verifier::ext_equal]
pub struct Batch {
    pub start_offset: int,
    pub first_ordinal: int,
    pub next_offset: int,
    pub lines: Seq<ProjectedRolloutLine>,
}

impl Batch {
    /// The lines follow each other, and the batch ends where its last line does.
    pub open spec fn well_formed(self) -> bool {
        &&& consecutive(self.lines, self.start_offset, self.first_ordinal)
        &&& self.next_offset == (if self.lines.len() == 0 {
            self.start_offset
        } else {
            self.lines.last().end_byte_offset as int
        })
    }
}

impl View for RolloutBatch {
    type V = Batch;

    closed spec fn view(&self) -> Batch {
        Batch {
            start_offset: self.start_offset as int,
            first_ordinal: self.first_ordinal as int,
            next_offset: self.next_offset as int,
            lines: self.lines@,
        }
    }
}

/// Rollout lines with the byte span that they cover.
pub struct Projection {
    pub start_offset: u64,
    pub next_offset: u64,
    pub lines: Vec<ProjectedRolloutLine>,
}

impl RolloutBatch {
    /// A batch without lines, which starts at the given offset and ordinal.
    pub fn new(start_offset: u64, first_ordinal: u64) -> (batch: Self)
        ensures
            batch@ == (Batch {
                start_offset: start_offset as int,
                first_ordinal: first_ordinal as int,
                next_offset: start_offset as int,
                lines: Seq::empty(),
            }),
            batch@.well_formed(),
    {
        RolloutBatch { start_offset, first_ordinal, next_offset: start_offset, lines: Vec::new() }
    }

    /// The ordinal that the next line has to carry.
    pub fn next_ordinal(&self) -> (result: ThreadStoreResult<u64>)
        ensures
            match result {
                Ok(ordinal) => ordinal == self@.first_ordinal + self@.lines.len(),
                Err(error) => self@.first_ordinal + self@.lines.len() > u64::MAX && error@
                    == Failure::Internal("PostgreSQL rollout ordinal overflow"@),
            },
    {
        match self.first_ordinal.checked_add(self.lines.len() as u64) {
            Some(ordinal) => Ok(ordinal),
            None => Err(internal("PostgreSQL rollout ordinal overflow".to_owned())),
        }
    }

    /// Appends a line: its timestamp, its JSON text, its JSON form where it has one, and what it
    /// changes in the history.
    pub fn push(
        &mut self,
        timestamp: &str,
        raw_json: String,
        line: &Option<Value>,
        changes: ThreadHistoryChangeSet,
    ) -> (result: ThreadStoreResult<()>)
        requires
            old(self)@.well_formed(),
        ensures
            final(self)@.well_formed(),
            match result {
                Ok(_) => {
                    &&& final(self)@ == (Batch {
                        next_offset: old(self)@.next_offset + byte_length(raw_json@) + 1,
                        lines: final(self)@.lines,
                        ..old(self)@
                    })
                    &&& final(self)@.lines.drop_last() == old(self)@.lines
                    &&& final(self)@.lines.len() == old(self)@.lines.len() + 1
                    &&& rfc3339_millis(timestamp@) == Ok::<i64, Seq<char>>(
                        final(self)@.lines.last().created_at_ms,
                    )
                    &&& final(self)@.lines.last().line_type@ == line_type_text(*line)
                    &&& optional_text(final(self)@.lines.last().payload_type) == payload_type_text(
                        *line,
                    )
                    &&& final(self)@.lines.last().raw_json == raw_json
                    &&& final(self)@.lines.last().changes == changes
                },
                Err(error) => {
                    &&& final(self)@ == old(self)@
                    &&& if old(self)@.first_ordinal + old(self)@.lines.len() > u64::MAX {
                        error@ == Failure::Internal("PostgreSQL rollout ordinal overflow"@)
                    } else if old(self)@.next_offset + byte_length(raw_json@) + 1 > u64::MAX {
                        error@ == Failure::Internal("PostgreSQL rollout byte position overflow"@)
                    } else {
                        rfc3339_millis(timestamp@) matches Err(message) && error@
                            == Failure::Internal("failed to access thread history: "@ + message)
                    }
                },
            },
    {
        let ordinal = match self.next_ordinal() {
            Ok(ordinal) => ordinal,
            Err(error) => {
                return Err(error);
            },
        };
        let end = match self.next_offset.checked_add(raw_json.as_str().len() as u64) {
            Some(end) => end.checked_add(1),
            None => None,
        };
        let end = match end {
            Some(end) => end,
            None => {
                return Err(internal("PostgreSQL rollout byte position overflow".to_owned()));
            },
        };
        let created_at_ms = match parse_rfc3339_millis(timestamp) {
            Ok(millis) => millis,
            Err(error) => {
                return Err(thread_history_error(&error));
            },
        };
        self.lines.push(
            ProjectedRolloutLine {
                ordinal,
                start_byte_offset: self.next_offset,
                end_byte_offset: end,
                created_at_ms,
                line_type: rollout_line_type(line),
                payload_type: rollout_payload_type(line),
                raw_json,
                changes,
            },
        );
        self.next_offset = end;
        assert(self@.lines.drop_last() =~= old(self)@.lines);
        proof {
            let lines = self@.lines;
            let before = old(self)@.lines;
            assert forall|i: int| 0 <= i < lines.len() implies #[trigger] follows(
                lines,
                self@.start_offset,
                self@.first_ordinal,
                i,
            ) by {
                if i < before.len() {
                    assert(follows(before, self@.start_offset, self@.first_ordinal, i));
                }
            }
        }
        Ok(())
    }

    /// The lines that were appended, or nothing if there is none to project.
    pub fn into_projection(self) -> (projection: Option<Projection>)
        ensures
            match projection {
                Some(projection) => {
                    &&& self@.lines.len() > 0
                    &&& projection.start_offset == self@.start_offset
                    &&& projection.next_offset == self@.next_offset
                    &&& projection.lines@ == self@.lines
                },
                None => self@.lines.len() == 0,
            },
    {
        if self.lines.len() == 0 {
            None
        } else {
            Some(
                Projection {
                    start_offset: self.start_offset,
                    next_offset: self.next_offset,
                    lines: self.lines,
                },
            )
        }
    }
}

/// The message of a projection that does not start where the stored one ends.
pub open spec fn behind_message(thread_id: Seq<char>) -> Seq<char> {
    "thread history projection for "@ + thread_id + " is behind durable rollout"@
}

/// The message of a line that is not the next one.
pub open spec fn ordinal_message(thread_id: Seq<char>, expected: int, ordinal: int) -> Seq<char> {
    "thread history projection for "@ + thread_id + " expected ordinal "@ + signed_decimal(expected)
        + ", got "@ + signed_decimal(ordinal)
}

/// Why a line cannot be projected as the one with ordinal `expected`, if it cannot.
pub open spec fn line_problem(
    thread_id: Seq<char>,
    expected: int,
    line: ProjectedRolloutLine,
) -> Option<Seq<char>> {
    if line.ordinal > i64::MAX {
        Some(out_of_range("rollout ordinal"@))
    } else if line.ordinal != expected {
        Some(ordinal_message(thread_id, expected, line.ordinal as int))
    } else if line.start_byte_offset > i64::MAX || line.end_byte_offset > i64::MAX {
        Some(out_of_range("rollout byte offset"@))
    } else {
        None
    }
}

/// The statements to execute in order, and why the projection fails after them, if it does.
#[verifier::ext_equal]
pub struct Plan {
    pub statements: Seq<BoundSql>,
    pub failure: Option<Seq<char>>,
}

/// Where a line stands, in the integers that the database stores.
pub open spec fn stored_position(line: ProjectedRolloutLine) -> LinePosition {
    LinePosition {
        ordinal: line.ordinal as i64,
        byte_offset: line.start_byte_offset as i64,
        end_byte_offset: line.end_byte_offset as i64,
        created_at_ms: line.created_at_ms,
    }
}

/// The statement that stores a line itself.
pub open spec fn event_statement(thread_id: Seq<char>, line: ProjectedRolloutLine) -> BoundSql {
    BoundSql {
        sql: UPSERT_ROLLOUT_EVENT@,
        values: seq![
            text_datum(thread_id),
            integer_datum(line.ordinal as i64),
            integer_datum(line.start_byte_offset as i64),
            integer_datum(line.end_byte_offset as i64),
            integer_datum(line.created_at_ms),
            text_datum(line.line_type@),
            SqlDatum::Text(optional_text(line.payload_type)),
            text_datum(line.raw_json@),
        ],
    }
}

/// The statements that project a line. The line itself is stored where the rollout lives in the
/// database.
pub open spec fn line_statements(
    thread_id: Seq<char>,
    store_lines: bool,
    line: ProjectedRolloutLine,
) -> Seq<BoundSql> {
    let changes = change_set_statements(thread_id, stored_position(line), line.changes);
    if store_lines {
        changes.push(event_statement(thread_id, line))
    } else {
        changes
    }
}

/// The plan that projects `lines` from the ordinal `first` on, up to the first problem. A line without
/// an ordinal after it is the last one that can be projected.
pub open spec fn lines_plan(
    thread_id: Seq<char>,
    first: int,
    store_lines: bool,
    lines: Seq<ProjectedRolloutLine>,
) -> Plan
    decreases lines.len(),
{
    if lines.len() == 0 {
        Plan { statements: Seq::empty(), failure: None }
    } else {
        let done = lines_plan(thread_id, first, store_lines, lines.drop_last());
        let expected = first + lines.len() - 1;
        if done.failure is Some {
            done
        } else if line_problem(thread_id, expected, lines.last()) is Some {
            Plan { failure: line_problem(thread_id, expected, lines.last()), ..done }
        } else {
            Plan {
                statements: done.statements + line_statements(
                    thread_id,
                    store_lines,
                    lines.last(),
                ),
                failure: if expected == i64::MAX {
                    Some(out_of_range("rollout ordinal"@))
                } else {
                    None
                },
            }
        }
    }
}

/// The statement that stores how far a thread is projected.
pub open spec fn progress_statement(
    thread_id: Seq<char>,
    next_offset: i64,
    next_ordinal: i64,
) -> BoundSql {
    BoundSql {
        sql: UPSERT_PROJECTION_STATE@,
        values: seq![
            text_datum(thread_id),
            integer_datum(next_offset),
            integer_datum(next_ordinal),
        ],
    }
}

/// The plan of a projection. `state` is the stored byte offset and ordinal that the projection has to
/// go on from.
pub open spec fn projection_plan(
    thread_id: Seq<char>,
    start_offset: int,
    next_offset: int,
    state: Option<(i64, i64)>,
    store_lines: bool,
    lines: Seq<ProjectedRolloutLine>,
) -> Plan {
    let (offset, ordinal) = match state {
        Some(state) => state,
        None => (0i64, 0i64),
    };
    if start_offset > i64::MAX {
        Plan { statements: Seq::empty(), failure: Some(out_of_range("rollout byte offset"@)) }
    } else if offset != start_offset {
        Plan { statements: Seq::empty(), failure: Some(behind_message(thread_id)) }
    } else {
        let done = lines_plan(thread_id, ordinal as int, store_lines, lines);
        if done.failure is Some {
            done
        } else if next_offset > i64::MAX {
            Plan { failure: Some(out_of_range("rollout byte offset"@)), ..done }
        } else {
            Plan {
                statements: done.statements.push(
                    progress_statement(
                        thread_id,
                        next_offset as i64,
                        (ordinal + lines.len()) as i64,
                    ),
                ),
                ..done
            }
        }
    }
}

proof fn problem_stays(
    thread_id: Seq<char>,
    first: int,
    store_lines: bool,
    lines: Seq<ProjectedRolloutLine>,
    count: int,
)
    requires
        0 <= count <= lines.len(),
        lines_plan(thread_id, first, store_lines, lines.take(count)).failure is Some,
    ensures
        lines_plan(thread_id, first, store_lines, lines) == lines_plan(
            thread_id,
            first,
            store_lines,
            lines.take(count),
        ),
    decreases lines.len(),
{
    if count == lines.len() {
        assert(lines.take(count) =~= lines);
    } else {
        assert(lines.drop_last().take(count) =~= lines.take(count));
        problem_stays(thread_id, first, store_lines, lines.drop_last(), count);
    }
}

fn plan_event(thread_id: &str, position: LinePosition, line: &ProjectedRolloutLine) -> (statement:
    Statement)
    requires
        position == stored_position(*line),
    ensures
        statement@ == event_statement(thread_id@, *line),
{
    let statement = Statement {
        sql: UPSERT_ROLLOUT_EVENT,
        values: vec![
            SqlValue::Text(Some(thread_id.to_owned())),
            SqlValue::Integer(Some(position.ordinal)),
            SqlValue::Integer(Some(position.byte_offset)),
            SqlValue::Integer(Some(position.end_byte_offset)),
            SqlValue::Integer(Some(position.created_at_ms)),
            SqlValue::Text(Some(line.line_type.clone())),
            SqlValue::Text(line.payload_type.clone()),
            SqlValue::Text(Some(line.raw_json.clone())),
        ],
    };
    assert(statement@.values =~= event_statement(thread_id@, *line).values);
    statement
}

/// Where a line stands, or why it cannot be projected as the one with ordinal `expected`.
fn check_line(thread_id: &str, expected: i64, line: &ProjectedRolloutLine) -> (result:
    ThreadStoreResult<LinePosition>)
    ensures
        match result {
            Ok(position) => line_problem(thread_id@, expected as int, *line) is None && position
                == stored_position(*line),
            Err(error) => line_problem(thread_id@, expected as int, *line) is Some && error@
                == Failure::Internal(line_problem(thread_id@, expected as int, *line)->0),
        },
{
    let ordinal = match sqlite_integer(line.ordinal, "rollout ordinal") {
        Ok(ordinal) => ordinal,
        Err(error) => {
            return Err(error);
        },
    };
    if ordinal != expected {
        let mut message = "thread history projection for ".to_owned().concat(thread_id).concat(
            " expected ordinal ",
        );
        push_signed_decimal(&mut message, expected);
        message.append(", got ");
        push_signed_decimal(&mut message, ordinal);
        return Err(internal(message));
    }
    let byte_offset = match sqlite_integer(line.start_byte_offset, "rollout byte offset") {
        Ok(offset) => offset,
        Err(error) => {
            return Err(error);
        },
    };
    let end_byte_offset = match sqlite_integer(line.end_byte_offset, "rollout byte offset") {
        Ok(offset) => offset,
        Err(error) => {
            return Err(error);
        },
    };
    Ok(LinePosition { ordinal, byte_offset, end_byte_offset, created_at_ms: line.created_at_ms })
}

/// The statements of a projection to execute in order in one transaction. If there is a failure, it is
/// reported after them and nothing is committed.
#[derive(Debug)]
pub struct PlannedProjection {
    pub statements: Vec<Statement>,
    pub failure: Option<ThreadStoreError>,
}

/// Whether a planned projection is what a plan says.
pub open spec fn is_planned(planned: PlannedProjection, plan: Plan) -> bool {
    &&& bound(planned.statements@) == plan.statements
    &&& match (planned.failure, plan.failure) {
        (Some(error), Some(message)) => error@ == Failure::Internal(message),
        (None, None) => true,
        _ => false,
    }
}

/// Plans the projection of rollout lines: the statements to execute in order in the transaction
/// that read `state`, the stored byte offset and ordinal. They write the projected rows and advance
/// the stored progress together, so that a database that fails stays behind the durable rollout
/// instead of claiming data that it did not materialize.
pub fn apply_projection(
    thread_id: &str,
    start_offset: u64,
    next_offset: u64,
    state: Option<(i64, i64)>,
    store_lines: bool,
    projections: &Vec<ProjectedRolloutLine>,
) -> (planned: PlannedProjection)
    ensures
        is_planned(
            planned,
            projection_plan(
                thread_id@,
                start_offset as int,
                next_offset as int,
                state,
                store_lines,
                projections@,
            ),
        ),
{
    let (expected_offset, first_ordinal): (i64, i64) = match state {
        Some(state) => state,
        None => (0, 0),
    };
    let mut statements: Vec<Statement> = Vec::new();
    assert(bound(statements@) =~= Seq::<BoundSql>::empty());
    let stored_start = match sqlite_integer(start_offset, "rollout byte offset") {
        Ok(offset) => offset,
        Err(error) => {
            return PlannedProjection { statements, failure: Some(error) };
        },
    };
    if expected_offset != stored_start {
        let error = internal(
            "thread history projection for ".to_owned().concat(thread_id).concat(
                " is behind durable rollout",
            ),
        );
        return PlannedProjection { statements, failure: Some(error) };
    }
    let mut next_ordinal: i64 = first_ordinal;
    let mut index: usize = 0;
    while index < projections.len()
        invariant
            index <= projections.len(),
            next_ordinal == first_ordinal + index,
            lines_plan(
                thread_id@,
                first_ordinal as int,
                store_lines,
                projections@.take(index as int),
            ) == (Plan { statements: bound(statements@), failure: None }),
            start_offset == expected_offset,
            (expected_offset, first_ordinal) == (match state {
                Some(state) => state,
                None => (0i64, 0i64),
            }),
        decreases projections.len() - index,
    {
        let projection = &projections[index];
        let ghost before = bound(statements@);
        let ghost taken = projections@.take(index + 1);
        assert(taken.drop_last() =~= projections@.take(index as int));
        let position = match check_line(thread_id, next_ordinal, projection) {
            Ok(position) => position,
            Err(error) => {
                proof {
                    problem_stays(
                        thread_id@,
                        first_ordinal as int,
                        store_lines,
                        projections@,
                        index + 1,
                    );
                }
                return PlannedProjection { statements, failure: Some(error) };
            },
        };
        apply_change_set(&mut statements, thread_id, position, &projection.changes);
        if store_lines {
            let ghost changed = bound(statements@);
            statements.push(plan_event(thread_id, position, projection));
            assert(bound(statements@) =~= changed.push(event_statement(thread_id@, *projection)));
        }
        assert(bound(statements@) =~= before + line_statements(
            thread_id@,
            store_lines,
            *projection,
        ));
        if next_ordinal == i64::MAX {
            let error = internal(
                "rollout ordinal".to_owned().concat(" exceeds SQLite integer range"),
            );
            proof {
                problem_stays(
                    thread_id@,
                    first_ordinal as int,
                    store_lines,
                    projections@,
                    index + 1,
                );
            }
            return PlannedProjection { statements, failure: Some(error) };
        }
        next_ordinal += 1;
        index += 1;
    }
    assert(projections@.take(index as int) =~= projections@);
    let stored_next = match sqlite_integer(next_offset, "rollout byte offset") {
        Ok(offset) => offset,
        Err(error) => {
            return PlannedProjection { statements, failure: Some(error) };
        },
    };
    let ghost done = bound(statements@);
    let statement = Statement {
        sql: UPSERT_PROJECTION_STATE,
        values: vec![
            SqlValue::Text(Some(thread_id.to_owned())),
            SqlValue::Integer(Some(stored_next)),
            SqlValue::Integer(Some(next_ordinal)),
        ],
    };
    proof {
        let expected = progress_statement(thread_id@, stored_next, next_ordinal);
        assert(statement@.values =~= expected.values);
    }
    statements.push(statement);
    assert(bound(statements@) =~= done.push(
        progress_statement(thread_id@, stored_next, next_ordinal),
    ));
    PlannedProjection { statements, failure: None }
}

/// The lines of a batch that starts where the stored progress ends are all accepted, as long as the
/// database can store the offset and the ordinal that the batch ends with. The last statement then
/// stores these two as the progress, which is where the next batch starts.
pub proof fn batch_is_projected(thread_id: Seq<char>, store_lines: bool, batch: Batch)
    requires
        batch.well_formed(),
        batch.start_offset >= 0,
        batch.first_ordinal >= 0,
        batch.next_offset <= i64::MAX,
        batch.first_ordinal + batch.lines.len() <= i64::MAX,
    ensures
        ({
            let plan = projection_plan(
                thread_id,
                batch.start_offset,
                batch.next_offset,
                Some((batch.start_offset as i64, batch.first_ordinal as i64)),
                store_lines,
                batch.lines,
            );
            &&& plan.failure is None
            &&& plan.statements.last() == progress_statement(
                thread_id,
                batch.next_offset as i64,
                (batch.first_ordinal + batch.lines.len()) as i64,
            )
        }),
{
    offsets_grow(batch.lines, batch.start_offset, batch.first_ordinal);
    assert forall|i: int| 0 <= i < batch.lines.len() implies (
    #[trigger] batch.lines[i]).ordinal == batch.first_ordinal + i by {
        assert(follows(batch.lines, batch.start_offset, batch.first_ordinal, i));
    }
    accepted(thread_id, store_lines, batch.lines, batch.first_ordinal);
}

proof fn offsets_grow(lines: Seq<ProjectedRolloutLine>, start_offset: int, first_ordinal: int)
    requires
        consecutive(lines, start_offset, first_ordinal),
        start_offset >= 0,
    ensures
        lines.len() > 0 ==> start_offset < lines.last().end_byte_offset,
        forall|i: int|
            0 <= i < lines.len() ==> start_offset <= (#[trigger] lines[i]).start_byte_offset
                < lines[i].end_byte_offset <= lines.last().end_byte_offset,
    decreases lines.len(),
{
    if lines.len() > 0 {
        let before = lines.drop_last();
        assert forall|i: int| 0 <= i < before.len() implies #[trigger] follows(
            before,
            start_offset,
            first_ordinal,
            i,
        ) by {
            assert(follows(lines, start_offset, first_ordinal, i));
        }
        offsets_grow(before, start_offset, first_ordinal);
        assert(follows(lines, start_offset, first_ordinal, lines.len() - 1));
        if before.len() > 0 {
            assert(before.last() == lines[lines.len() - 2]);
        }
        assert forall|i: int| 0 <= i < lines.len() implies start_offset <= (
        #[trigger] lines[i]).start_byte_offset < lines[i].end_byte_offset
            <= lines.last().end_byte_offset by {
            if i < before.len() {
                assert(before[i] == lines[i]);
            }
        }
    }
}

proof fn accepted(
    thread_id: Seq<char>,
    store_lines: bool,
    lines: Seq<ProjectedRolloutLine>,
    first_ordinal: int,
)
    requires
        forall|i: int|
            0 <= i < lines.len() ==> (#[trigger] lines[i]).ordinal == first_ordinal + i
                && lines[i].start_byte_offset <= i64::MAX && lines[i].end_byte_offset <= i64::MAX,
        first_ordinal + lines.len() <= i64::MAX,
    ensures
        lines_plan(thread_id, first_ordinal, store_lines, lines).failure is None,
    decreases lines.len(),
{
    if lines.len() > 0 {
        let before = lines.drop_last();
        assert forall|i: int| 0 <= i < before.len() implies #[trigger] before[i] == lines[i] by {}
        accepted(thread_id, store_lines, before, first_ordinal);
        assert(lines.last() == lines[lines.len() - 1]);
    }
}

/// Only lines in order are accepted: the first has the stored ordinal, and each next one the ordinal
/// after it.
pub proof fn projected_lines_are_in_order(
    thread_id: Seq<char>,
    first: int,
    store_lines: bool,
    lines: Seq<ProjectedRolloutLine>,
)
    requires
        lines_plan(thread_id, first, store_lines, lines).failure is None,
    ensures
        forall|i: int| 0 <= i < lines.len() ==> (#[trigger] lines[i]).ordinal == first + i,
    decreases lines.len(),
{
    if lines.len() > 0 {
        let before = lines.drop_last();
        projected_lines_are_in_order(thread_id, first, store_lines, before);
        assert forall|i: int| 0 <= i < lines.len() implies (#[trigger] lines[i]).ordinal == first
            + i by {
            if i < before.len() {
                assert(before[i] == lines[i]);
            }
        }
    }
}

/// Whether every statement is bound to the given thread.
pub open spec fn only_about(thread_id: Seq<char>, statements: Seq<BoundSql>) -> bool {
    forall|i: int|
        0 <= i < statements.len() ==> (#[trigger] statements[i]).values.contains(
            text_datum(thread_id),
        )
}

/// Every statement of a projection is bound to the thread that is projected.
pub proof fn projection_is_about_its_thread(
    thread_id: Seq<char>,
    start_offset: int,
    next_offset: int,
    state: Option<(i64, i64)>,
    store_lines: bool,
    lines: Seq<ProjectedRolloutLine>,
)
    ensures
        only_about(
            thread_id,
            projection_plan(
                thread_id,
                start_offset,
                next_offset,
                state,
                store_lines,
                lines,
            ).statements,
        ),
{
    let first = match state {
        Some(state) => state.1 as int,
        None => 0,
    };
    lines_are_about_their_thread(thread_id, first, store_lines, lines);
    let stored = progress_statement(thread_id, next_offset as i64, (first + lines.len()) as i64);
    assert(stored.values[0] == text_datum(thread_id));
}

proof fn lines_are_about_their_thread(
    thread_id: Seq<char>,
    first: int,
    store_lines: bool,
    lines: Seq<ProjectedRolloutLine>,
)
    ensures
        only_about(thread_id, lines_plan(thread_id, first, store_lines, lines).statements),
    decreases lines.len(),
{
    if lines.len() > 0 {
        lines_are_about_their_thread(thread_id, first, store_lines, lines.drop_last());
        let line = lines.last();
        let position = stored_position(line);
        turns_are_about_their_thread(thread_id, position, line.changes.changed_turns@);
        items_are_about_their_thread(thread_id, position, line.changes.changed_items@);
        assert(event_statement(thread_id, line).values[0] == text_datum(thread_id));
    }
}

proof fn turns_are_about_their_thread(
    thread_id: Seq<char>,
    position: LinePosition,
    turns: Seq<TurnChange>,
)
    ensures
        only_about(thread_id, all_turn_statements(thread_id, position, turns)),
    decreases turns.len(),
{
    if turns.len() > 0 {
        turns_are_about_their_thread(thread_id, position, turns.drop_last());
        let added = turn_statements(thread_id, position, turns.last());
        assert(added[0].values[0] == text_datum(thread_id));
        assert(added[1].values[0] == text_datum(thread_id));
        assert(only_about(thread_id, added));
    }
}

proof fn items_are_about_their_thread(
    thread_id: Seq<char>,
    position: LinePosition,
    items: Seq<ItemChange>,
)
    ensures
        only_about(thread_id, all_item_statements(thread_id, position, items)),
    decreases items.len(),
{
    if items.len() > 0 {
        items_are_about_their_thread(thread_id, position, items.drop_last());
        let added = item_statements(thread_id, position, items.last());
        assert(added[0].values[0] == text_datum(thread_id));
        if added.len() > 1 {
            assert(added[1].values[1] == text_datum(thread_id));
        }
        assert(only_about(thread_id, added));
    }
}

/// Every statement of a deletion is bound to the thread that is deleted.
pub proof fn deletion_is_about_its_thread(thread_id: Seq<char>)
    ensures
        only_about(thread_id, delete_statements(thread_id)),
{
    let statements = delete_statements(thread_id);
    assert forall|i: int| 0 <= i < statements.len() implies (
    #[trigger] statements[i]).values.contains(text_datum(thread_id)) by {
        assert(statements[i].values[0] == text_datum(thread_id));
    }
}

/// The bytes of a text are those of its UTF-8 encoding.
pub proof fn bytes_are_those_of_utf8(text: &str)
    requires
        vstd::utf8::encode_utf8(text@).len() <= usize::MAX,
    ensures
        byte_length(text@) == vstd::utf8::encode_utf8(text@).len(),
{
}

/// A line that is pushed takes the next ordinal and starts where the batch ended. It ends after its text
/// and a newline, which is where the batch ends then. It keeps its text, its changes and the time of
/// its timestamp, and the lines before it stay.
pub proof fn pushed_line_goes_to_the_end(
    timestamp: &str,
    raw_json: String,
    line: &Option<Value>,
    changes: ThreadHistoryChangeSet,
)
    ensures
        forall|batch: &mut RolloutBatch|
            #![trigger call_ensures(RolloutBatch::push, (batch, timestamp, raw_json, line, changes), Ok(()))]
            batch@.well_formed() && call_ensures(
                RolloutBatch::push,
                (batch, timestamp, raw_json, line, changes),
                Ok(()),
            ) ==> {
                let before = batch@;
                let after = final(batch)@;
                let pushed = after.lines.last();
                &&& after.lines.len() == before.lines.len() + 1
                &&& forall|i: int|
                    0 <= i < before.lines.len() ==> #[trigger] after.lines[i] == before.lines[i]
                &&& after.start_offset == before.start_offset
                &&& after.first_ordinal == before.first_ordinal
                &&& pushed.ordinal == before.first_ordinal + before.lines.len()
                &&& pushed.start_byte_offset == before.next_offset
                &&& pushed.end_byte_offset == before.next_offset + byte_length(raw_json@) + 1
                &&& after.next_offset == pushed.end_byte_offset
                &&& rfc3339_millis(timestamp@) == Ok::<i64, Seq<char>>(pushed.created_at_ms)
                &&& pushed.line_type@ == line_type_text(*line)
                &&& optional_text(pushed.payload_type) == payload_type_text(*line)
                &&& pushed.raw_json@ == raw_json@
                &&& pushed.changes.changed_turns@ == changes.changed_turns@
                &&& pushed.changes.changed_items@ == changes.changed_items@
            },
{
    assert forall|batch: &mut RolloutBatch|
        #![trigger call_ensures(RolloutBatch::push, (batch, timestamp, raw_json, line, changes), Ok(()))]
        batch@.well_formed() && call_ensures(
            RolloutBatch::push,
            (batch, timestamp, raw_json, line, changes),
            Ok(()),
        ) implies {
        let before = batch@;
        let after = final(batch)@;
        let pushed = after.lines.last();
        &&& pushed.ordinal == before.first_ordinal + before.lines.len()
        &&& pushed.start_byte_offset == before.next_offset
        &&& pushed.end_byte_offset == before.next_offset + byte_length(raw_json@) + 1
        &&& forall|i: int|
            0 <= i < before.lines.len() ==> #[trigger] after.lines[i] == before.lines[i]
    } by {
        let before = batch@;
        let after = final(batch)@;
        let last = after.lines.len() - 1;
        assert(follows(after.lines, after.start_offset, after.first_ordinal, last));
        assert forall|i: int| 0 <= i < before.lines.len() implies #[trigger] after.lines[i]
            == before.lines[i] by {
            assert(after.lines.drop_last()[i] == before.lines[i]);
        }
    }
}

/// A line is refused exactly if its ordinal or its end is too large, or its timestamp is none. The batch
/// then stays as it is.
pub proof fn refused_line_changes_nothing(
    timestamp: &str,
    raw_json: String,
    line: &Option<Value>,
    changes: ThreadHistoryChangeSet,
    result: ThreadStoreResult<()>,
)
    ensures
        forall|batch: &mut RolloutBatch|
            #![trigger call_ensures(RolloutBatch::push, (batch, timestamp, raw_json, line, changes), result)]
            batch@.well_formed() && call_ensures(
                RolloutBatch::push,
                (batch, timestamp, raw_json, line, changes),
                result,
            ) ==> {
                &&& result is Err <==> {
                    ||| batch@.first_ordinal + batch@.lines.len() > u64::MAX
                    ||| batch@.next_offset + byte_length(raw_json@) + 1 > u64::MAX
                    ||| rfc3339_millis(timestamp@) is Err
                }
                &&& result is Err ==> final(batch)@ == batch@
            },
{
    assert forall|batch: &mut RolloutBatch|
        #![trigger call_ensures(RolloutBatch::push, (batch, timestamp, raw_json, line, changes), result)]
        batch@.well_formed() && call_ensures(
            RolloutBatch::push,
            (batch, timestamp, raw_json, line, changes),
            result,
        ) && result is Ok implies batch@.first_ordinal + batch@.lines.len() <= u64::MAX
        && batch@.next_offset + byte_length(raw_json@) + 1 <= u64::MAX by {
        let after = final(batch)@;
        let last = after.lines.len() - 1;
        assert(follows(after.lines, after.start_offset, after.first_ordinal, last));
    }
}

/// What a batch covers is what its lines cover: they follow one another without gaps from the batch's
/// start to its end.
pub proof fn lines_cover_the_batch(batch: Batch, index: int)
    requires
        batch.well_formed(),
        0 <= index < batch.lines.len(),
    ensures
        batch.lines[index].ordinal == batch.first_ordinal + index,
        batch.lines[index].end_byte_offset - batch.lines[index].start_byte_offset == byte_length(
            batch.lines[index].raw_json@,
        ) + 1,
        index == 0 ==> batch.lines[index].start_byte_offset == batch.start_offset,
        index > 0 ==> batch.lines[index].start_byte_offset == batch.lines[index
            - 1].end_byte_offset,
        index == batch.lines.len() - 1 ==> batch.next_offset == batch.lines[index].end_byte_offset,
{
    assert(follows(batch.lines, batch.start_offset, batch.first_ordinal, index));
}

/// A projection goes on with the number that is stored, or with zero if none is. A number below zero is
/// refused.
pub proof fn projection_goes_on_with_the_stored_number(
    thread_id: &str,
    stored: StoredProgress,
    offset: ThreadStoreResult<u64>,
    ordinal: ThreadStoreResult<u64>,
)
    requires
        call_ensures(next_rollout_byte_offset, (thread_id, stored), offset),
        call_ensures(next_rollout_ordinal, (thread_id, stored), ordinal),
    ensures
        stored is NoDatabase ==> offset == Ok::<u64, ThreadStoreError>(0) && ordinal == Ok::<
            u64,
            ThreadStoreError,
        >(0),
        stored matches StoredProgress::Stored(None) ==> offset == Ok::<u64, ThreadStoreError>(0)
            && ordinal == Ok::<u64, ThreadStoreError>(0),
        stored matches StoredProgress::Stored(Some(number)) ==> if number >= 0 {
            &&& offset == Ok::<u64, ThreadStoreError>(number as u64)
            &&& ordinal == Ok::<u64, ThreadStoreError>(number as u64)
        } else {
            &&& offset matches Err(error) && error@ == Failure::Internal(
                "thread history projection for "@ + thread_id@ + " has a negative "@
                    + "byte offset"@,
            )
            &&& ordinal matches Err(error) && error@ == Failure::Internal(
                "thread history projection for "@ + thread_id@ + " has a negative "@ + "ordinal"@,
            )
        },
{
}

/// Only a local history can be absent.
pub proof fn only_local_history_can_be_absent(url_is_set: bool, file_exists: bool, absent: bool)
    requires
        call_ensures(history_is_absent, (url_is_set, file_exists), absent),
    ensures
        url_is_set || file_exists ==> !absent,
        !url_is_set && !file_exists ==> absent,
{
}

/// A batch without lines gives nothing to project, and any other batch gives its lines with the span
/// that it covers.
pub proof fn batch_gives_its_lines(batch: RolloutBatch, projection: Option<Projection>)
    requires
        call_ensures(RolloutBatch::into_projection, (batch,), projection),
    ensures
        projection is None <==> batch@.lines.len() == 0,
        projection matches Some(projection) ==> projection.start_offset == batch@.start_offset
            && projection.next_offset == batch@.next_offset && projection.lines@
            == batch@.lines,
{
}

/// A projection is planned as the plan says, statement by statement, and fails exactly if the plan does.
pub proof fn projection_is_planned(
    thread_id: &str,
    start_offset: u64,
    next_offset: u64,
    state: Option<(i64, i64)>,
    store_lines: bool,
    lines: &Vec<ProjectedRolloutLine>,
    planned: PlannedProjection,
)
    requires
        call_ensures(
            apply_projection,
            (thread_id, start_offset, next_offset, state, store_lines, lines),
            planned,
        ),
    ensures
        ({
            let plan = projection_plan(
                thread_id@,
                start_offset as int,
                next_offset as int,
                state,
                store_lines,
                lines@,
            );
            &&& planned.statements@.len() == plan.statements.len()
            &&& forall|i: int|
                0 <= i < plan.statements.len() ==> (#[trigger] planned.statements@[i]).sql@
                    == plan.statements[i].sql && planned.statements@[i]@.values
                    == plan.statements[i].values
            &&& planned.failure is None <==> plan.failure is None
            &&& planned.failure matches Some(error) ==> plan.failure matches Some(message)
                && error@ == Failure::Internal(message)
        }),
{
    let plan = projection_plan(
        thread_id@,
        start_offset as int,
        next_offset as int,
        state,
        store_lines,
        lines@,
    );
    assert forall|i: int| 0 <= i < plan.statements.len() implies (
    #[trigger] planned.statements@[i]).sql@ == plan.statements[i].sql
        && planned.statements@[i]@.values == plan.statements[i].values by {
        assert(bound(planned.statements@)[i] == planned.statements@[i]@);
    }
}

/// A projection that does not start at the stored offset is refused before anything is written, and so
/// is one whose offset a database cannot store.
pub proof fn projection_behind_is_refused(
    thread_id: Seq<char>,
    start_offset: int,
    next_offset: int,
    offset: i64,
    first: i64,
    store_lines: bool,
    lines: Seq<ProjectedRolloutLine>,
)
    requires
        start_offset != offset,
    ensures
        ({
            let plan = projection_plan(
                thread_id,
                start_offset,
                next_offset,
                Some((offset, first)),
                store_lines,
                lines,
            );
            &&& plan.statements.len() == 0
            &&& plan.failure == Some(
                if start_offset > i64::MAX {
                    "rollout byte offset"@ + " exceeds SQLite integer range"@
                } else {
                    "thread history projection for "@ + thread_id + " is behind durable rollout"@
                },
            )
        }),
{
}

/// The first line that cannot be projected is refused, with the statements of the lines before it
/// planned: because its ordinal cannot be stored, is not the next one, or because its offsets cannot
/// be stored.
pub proof fn first_bad_line_is_refused(
    thread_id: Seq<char>,
    first: int,
    store_lines: bool,
    lines: Seq<ProjectedRolloutLine>,
    index: int,
)
    requires
        0 <= index < lines.len(),
        lines_plan(thread_id, first, store_lines, lines.take(index)).failure is None,
        ({
            let line = lines[index];
            line.ordinal != first + index || line.ordinal > i64::MAX || line.start_byte_offset
                > i64::MAX || line.end_byte_offset > i64::MAX
        }),
    ensures
        ({
            let line = lines[index];
            let plan = lines_plan(thread_id, first, store_lines, lines);
            &&& plan.statements == lines_plan(
                thread_id,
                first,
                store_lines,
                lines.take(index),
            ).statements
            &&& line.ordinal > i64::MAX ==> plan.failure == Some(
                "rollout ordinal"@ + " exceeds SQLite integer range"@,
            )
            &&& line.ordinal <= i64::MAX && line.ordinal != first + index ==> plan.failure == Some(
                "thread history projection for "@ + thread_id + " expected ordinal "@
                    + signed_decimal(first + index) + ", got "@ + signed_decimal(
                    line.ordinal as int,
                ),
            )
            &&& line.ordinal <= i64::MAX && line.ordinal == first + index ==> plan.failure == Some(
                "rollout byte offset"@ + " exceeds SQLite integer range"@,
            )
        }),
{
    assert(lines.take(index + 1).drop_last() =~= lines.take(index));
    problem_stays(thread_id, first, store_lines, lines, index + 1);
}

/// The ordinal that the next line has to carry is the one that a line gets when it is pushed.
pub proof fn pushed_line_gets_the_next_ordinal(
    timestamp: &str,
    raw_json: String,
    line: &Option<Value>,
    changes: ThreadHistoryChangeSet,
    ordinal: u64,
)
    ensures
        forall|batch: &mut RolloutBatch|
            #![trigger call_ensures(RolloutBatch::push, (batch, timestamp, raw_json, line, changes), Ok(()))]
            batch@.well_formed() && call_ensures(
                RolloutBatch::next_ordinal,
                (&*batch,),
                Ok(ordinal),
            ) && call_ensures(
                RolloutBatch::push,
                (batch, timestamp, raw_json, line, changes),
                Ok(()),
            ) ==> final(batch)@.lines.last().ordinal == ordinal,
{
    pushed_line_goes_to_the_end(timestamp, raw_json, line, changes);
}

/// A new batch has no lines and ends where it starts.
pub proof fn new_batch_is_empty(start_offset: u64, first_ordinal: u64, batch: RolloutBatch)
    requires
        call_ensures(RolloutBatch::new, (start_offset, first_ordinal), batch),
    ensures
        batch@.lines.len() == 0,
        batch@.start_offset == start_offset,
        batch@.next_offset == start_offset,
        batch@.first_ordinal == first_ordinal,
        batch@.well_formed(),
{
}

} // verus!
