//! What the statements of the thread history do to its tables.
//!
//! The specifications here read the SQL of [`crate::history_sql`], as far as SQLite and PostgreSQL
//! agree on it. The laws hold of any database that executes the statements this way.
use crate::db::Row;
use crate::history::{
    all_item_statements, all_turn_statements, change_set_statements, delete_statements,
    item_statements, item_type_text, status_text, summary_statements, turn_statements, BoundSql,
    ItemChange, LinePosition, MessagePhase, ThreadHistoryChangeSet, ThreadItem, TurnChange,
};
use crate::history_sql::{
    DELETE_ITEMS, DELETE_PROJECTION_STATE, DELETE_TURNS, SET_FINAL_AGENT_ITEM, SET_FIRST_USER_ITEM,
    UPDATE_TURN_SUMMARY, UPSERT_ITEM, UPSERT_PROJECTION_STATE, UPSERT_ROLLOUT_EVENT, UPSERT_TURN,
};
use crate::json::parsed_json;
use crate::projection::{
    event_statement, line_statements, lines_plan, progress_statement, projected_lines_are_in_order,
    projection_plan, stored_position, ProjectedRolloutLine,
};
use crate::rollout::{raw_line, row_item, stored_item};
use crate::value::{optional_text, SqlDatum};
use vstd::prelude::*;

verus! {

/// A row of `thread_turns`.
#[verifier::ext_equal]
pub struct TurnRow {
    pub rollout_ordinal: i64,
    pub rollout_byte_offset: i64,
    pub rollout_end_ordinal: Option<i64>,
    pub rollout_end_byte_offset: Option<i64>,
    pub status: Seq<char>,
    pub error_json: Option<Seq<char>>,
    pub started_at: Option<i64>,
    pub completed_at: Option<i64>,
    pub duration_ms: Option<i64>,
    pub first_user_item_id: Option<Seq<char>>,
    pub final_agent_item_id: Option<Seq<char>>,
}

/// A row of `thread_items`.
#[verifier::ext_equal]
pub struct ItemRow {
    pub rollout_ordinal: i64,
    pub updated_at_ordinal: i64,
    pub created_at_ms: i64,
    pub item_type: Seq<char>,
    pub item_json: Seq<char>,
}

/// A row of `thread_rollout_events`.
#[verifier::ext_equal]
pub struct EventRow {
    pub rollout_byte_offset: i64,
    pub rollout_end_byte_offset: i64,
    pub created_at_ms: i64,
    pub line_type: Seq<char>,
    pub payload_type: Option<Seq<char>>,
    /// The text that the stored JSON value was written as.
    pub raw_json: Seq<char>,
}

/// A database that keeps the thread history.
#[derive(Debug, Clone, Copy, PartialEq, Eq, Structural)]
pub enum Backend {
    Sqlite,
    Postgres,
}

/// The tables of the thread history.
#[verifier::ext_equal]
pub struct HistoryTables {
    pub backend: Backend,
    /// Turns by thread and turn.
    pub turns: Map<(Seq<char>, Seq<char>), TurnRow>,
    /// Items by thread, turn and item.
    pub items: Map<(Seq<char>, Seq<char>, Seq<char>), ItemRow>,
    /// Rollout lines by thread and ordinal.
    pub events: Map<(Seq<char>, i64), EventRow>,
    /// The next byte offset and ordinal by thread.
    pub progress: Map<Seq<char>, (i64, i64)>,
}

/// The text of a parameter that is bound to one.
pub open spec fn text(datum: SqlDatum) -> Seq<char> {
    datum->Text_0->0
}

/// The integer of a parameter that is bound to one.
pub open spec fn integer(datum: SqlDatum) -> i64 {
    datum->Integer_0->0
}

/// Whether a turn can still change.
pub open spec fn is_open(row: TurnRow) -> bool {
    row.rollout_end_ordinal is None && row.status == "inProgress"@
}

/// `UPSERT_TURN`: a new turn is inserted, and one that can still change is updated, but keeps its
/// ordinal, its offset and its messages.
pub open spec fn after_upsert_turn(tables: HistoryTables, values: Seq<SqlDatum>) -> HistoryTables {
    let key = (text(values[0]), text(values[1]));
    let row = TurnRow {
        rollout_ordinal: integer(values[2]),
        rollout_byte_offset: integer(values[3]),
        rollout_end_ordinal: values[4]->Integer_0,
        rollout_end_byte_offset: values[5]->Integer_0,
        status: text(values[6]),
        error_json: values[7]->Text_0,
        started_at: values[8]->Integer_0,
        completed_at: values[9]->Integer_0,
        duration_ms: values[10]->Integer_0,
        first_user_item_id: None,
        final_agent_item_id: None,
    };
    if !tables.turns.contains_key(key) {
        HistoryTables { turns: tables.turns.insert(key, row), ..tables }
    } else if is_open(tables.turns[key]) {
        let stored = tables.turns[key];
        let updated = TurnRow {
            rollout_ordinal: stored.rollout_ordinal,
            rollout_byte_offset: stored.rollout_byte_offset,
            first_user_item_id: stored.first_user_item_id,
            final_agent_item_id: stored.final_agent_item_id,
            ..row
        };
        HistoryTables { turns: tables.turns.insert(key, updated), ..tables }
    } else {
        tables
    }
}

/// A letter of the ASCII alphabet in lower case, and any other character as it is.
pub open spec fn lower(character: char) -> char {
    if 'A' <= character <= 'Z' {
        (character as int + 32) as char
    } else {
        character
    }
}

/// Whether `LIKE` takes two characters as the same: SQLite makes no difference between the cases of
/// ASCII letters.
pub open spec fn same_character(backend: Backend, left: char, right: char) -> bool {
    match backend {
        Backend::Sqlite => lower(left) == lower(right),
        Backend::Postgres => left == right,
    }
}

/// Whether a text is `LIKE` a pattern without a backslash: `%` stands for any characters, and `_` for
/// any one.
pub open spec fn like(backend: Backend, text: Seq<char>, pattern: Seq<char>) -> bool
    decreases pattern.len(),
{
    if pattern.len() == 0 {
        text.len() == 0
    } else if pattern[0] == '%' {
        exists|i: int|
            0 <= i <= text.len() && like(backend, #[trigger] text.skip(i), pattern.skip(1))
    } else {
        &&& text.len() > 0
        &&& pattern[0] == '_' || same_character(backend, text[0], pattern[0])
        &&& like(backend, text.skip(1), pattern.skip(1))
    }
}

/// What the summary of a turn looks for among its messages.
pub enum Wanted {
    UserMessage,
    /// An agent message of the final answer.
    FinalAnswer,
    /// An agent message that has no phase.
    Unphased,
}

/// Whether an item is a message that is looked for.
pub open spec fn is_wanted(backend: Backend, wanted: Wanted, row: ItemRow) -> bool {
    match wanted {
        Wanted::UserMessage => row.item_type == "userMessage"@,
        Wanted::FinalAnswer => row.item_type == "agentMessage"@ && like(
            backend,
            row.item_json,
            "%\"phase\":\"final_answer\"%"@,
        ),
        Wanted::Unphased => row.item_type == "agentMessage"@ && (like(
            backend,
            row.item_json,
            "%\"phase\":null%"@,
        ) || !like(backend, row.item_json, "%\"phase\":%"@)),
    }
}

/// Whether a turn has a message that is looked for, under the given id.
pub open spec fn has_message(
    tables: HistoryTables,
    turn: (Seq<char>, Seq<char>),
    wanted: Wanted,
    id: Seq<char>,
) -> bool {
    &&& tables.items.contains_key((turn.0, turn.1, id))
    &&& is_wanted(tables.backend, wanted, tables.items[(turn.0, turn.1, id)])
}

/// Whether a turn has any message that is looked for.
pub open spec fn has_any(
    tables: HistoryTables,
    turn: (Seq<char>, Seq<char>),
    wanted: Wanted,
) -> bool {
    exists|id: Seq<char>| #[trigger] has_message(tables, turn, wanted, id)
}

/// The ordinal of an item of a turn.
pub open spec fn item_ordinal(
    tables: HistoryTables,
    turn: (Seq<char>, Seq<char>),
    id: Seq<char>,
) -> i64 {
    tables.items[(turn.0, turn.1, id)].rollout_ordinal
}

/// Whether a message is one of those that are looked for, and none of them has a lower ordinal.
pub open spec fn is_earliest(
    tables: HistoryTables,
    turn: (Seq<char>, Seq<char>),
    wanted: Wanted,
    id: Seq<char>,
) -> bool {
    &&& has_message(tables, turn, wanted, id)
    &&& forall|other: Seq<char>| #[trigger]
        has_message(tables, turn, wanted, other) ==> item_ordinal(tables, turn, id)
            <= item_ordinal(tables, turn, other)
}

/// Whether a message is one of those that are looked for, and none of them has a higher ordinal.
pub open spec fn is_latest(
    tables: HistoryTables,
    turn: (Seq<char>, Seq<char>),
    wanted: Wanted,
    id: Seq<char>,
) -> bool {
    &&& has_message(tables, turn, wanted, id)
    &&& forall|other: Seq<char>| #[trigger]
        has_message(tables, turn, wanted, other) ==> item_ordinal(tables, turn, other)
            <= item_ordinal(tables, turn, id)
}

/// Whether a turn of a status has ended.
pub open spec fn is_end(status: Seq<char>) -> bool {
    status == "completed"@ || status == "interrupted"@ || status == "failed"@
}

/// Whether `first` is the first user message of a turn: the one that it has already, or the earliest
/// of its user messages.
pub open spec fn is_first_user_message(
    tables: HistoryTables,
    turn: (Seq<char>, Seq<char>),
    stored: Option<Seq<char>>,
    first: Option<Seq<char>>,
) -> bool {
    match (stored, first) {
        (Some(stored), _) => first == Some(stored),
        (None, Some(id)) => is_earliest(tables, turn, Wanted::UserMessage, id),
        (None, None) => !has_any(tables, turn, Wanted::UserMessage),
    }
}

/// Whether `last` is the final agent message of a turn: the latest of its final answers, else, if the
/// turn has ended, the latest of its agent messages without a phase, else the one that it has
/// already. The two kinds are looked for among the items of the turns that are given for them.
pub open spec fn is_final_agent_message(
    tables: HistoryTables,
    answered: (Seq<char>, Seq<char>),
    unphased: (Seq<char>, Seq<char>),
    ended: bool,
    stored: Option<Seq<char>>,
    last: Option<Seq<char>>,
) -> bool {
    if has_any(tables, answered, Wanted::FinalAnswer) {
        last matches Some(id) && is_latest(tables, answered, Wanted::FinalAnswer, id)
    } else if ended && has_any(tables, unphased, Wanted::Unphased) {
        last matches Some(id) && is_latest(tables, unphased, Wanted::Unphased, id)
    } else {
        last == stored
    }
}

/// Whether `UPDATE_TURN_SUMMARY` leaves `after`: if the line ended the turn or the turn is in progress,
/// the turn gets its first user message and its final agent message. Among messages of one ordinal
/// the database has the choice.
pub open spec fn is_after_summary(
    tables: HistoryTables,
    values: Seq<SqlDatum>,
    after: HistoryTables,
) -> bool {
    let turn = (text(values[6]), text(values[7]));
    let row = tables.turns[turn];
    if tables.turns.contains_key(turn) && (row.rollout_end_ordinal == Some(integer(values[8]))
        || row.status == "inProgress"@) {
        exists|first: Option<Seq<char>>, last: Option<Seq<char>>|
            #![trigger with_messages(row, first, last)]
            {
                &&& is_first_user_message(
                    tables,
                    (text(values[0]), text(values[1])),
                    row.first_user_item_id,
                    first,
                )
                &&& is_final_agent_message(
                    tables,
                    (text(values[2]), text(values[3])),
                    (text(values[4]), text(values[5])),
                    is_end(row.status),
                    row.final_agent_item_id,
                    last,
                )
                &&& after == (HistoryTables {
                    turns: tables.turns.insert(turn, with_messages(row, first, last)),
                    ..tables
                })
            }
    } else {
        after == tables
    }
}

/// A turn with other messages.
pub open spec fn with_messages(
    row: TurnRow,
    first: Option<Seq<char>>,
    last: Option<Seq<char>>,
) -> TurnRow {
    TurnRow { first_user_item_id: first, final_agent_item_id: last, ..row }
}

/// `UPSERT_ITEM`: a new item is inserted, and a snapshot of one that is there replaces the last one,
/// but the item keeps the ordinal and the time of its creation.
pub open spec fn after_upsert_item(tables: HistoryTables, values: Seq<SqlDatum>) -> HistoryTables {
    let key = (text(values[0]), text(values[1]), text(values[2]));
    let row = ItemRow {
        rollout_ordinal: integer(values[3]),
        updated_at_ordinal: integer(values[4]),
        created_at_ms: integer(values[5]),
        item_type: text(values[6]),
        item_json: text(values[7]),
    };
    let updated = if tables.items.contains_key(key) {
        ItemRow {
            rollout_ordinal: tables.items[key].rollout_ordinal,
            created_at_ms: tables.items[key].created_at_ms,
            ..row
        }
    } else {
        row
    };
    HistoryTables { items: tables.items.insert(key, updated), ..tables }
}

/// `SET_FIRST_USER_ITEM`: a turn that can still change gets its first user message.
pub open spec fn after_set_first(tables: HistoryTables, values: Seq<SqlDatum>) -> HistoryTables {
    let key = (text(values[1]), text(values[2]));
    let row = tables.turns[key];
    if tables.turns.contains_key(key) && is_open(row) && row.first_user_item_id is None {
        HistoryTables {
            turns: tables.turns.insert(
                key,
                TurnRow { first_user_item_id: Some(text(values[0])), ..row },
            ),
            ..tables
        }
    } else {
        tables
    }
}

/// `SET_FINAL_AGENT_ITEM`: a turn that can still change gets its final agent message.
pub open spec fn after_set_final(tables: HistoryTables, values: Seq<SqlDatum>) -> HistoryTables {
    let key = (text(values[1]), text(values[2]));
    let row = tables.turns[key];
    if tables.turns.contains_key(key) && is_open(row) {
        HistoryTables {
            turns: tables.turns.insert(
                key,
                TurnRow { final_agent_item_id: Some(text(values[0])), ..row },
            ),
            ..tables
        }
    } else {
        tables
    }
}

/// `UPSERT_ROLLOUT_EVENT`: a line replaces one of the same ordinal.
pub open spec fn after_upsert_event(tables: HistoryTables, values: Seq<SqlDatum>) -> HistoryTables {
    let key = (text(values[0]), integer(values[1]));
    let row = EventRow {
        rollout_byte_offset: integer(values[2]),
        rollout_end_byte_offset: integer(values[3]),
        created_at_ms: integer(values[4]),
        line_type: text(values[5]),
        payload_type: values[6]->Text_0,
        raw_json: text(values[7]),
    };
    HistoryTables { events: tables.events.insert(key, row), ..tables }
}

/// `UPSERT_PROJECTION_STATE`: the progress of a thread is replaced.
pub open spec fn after_upsert_progress(
    tables: HistoryTables,
    values: Seq<SqlDatum>,
) -> HistoryTables {
    HistoryTables {
        progress: tables.progress.insert(
            text(values[0]),
            (integer(values[1]), integer(values[2])),
        ),
        ..tables
    }
}

/// `DELETE_ITEMS`.
pub open spec fn after_delete_items(tables: HistoryTables, values: Seq<SqlDatum>) -> HistoryTables {
    HistoryTables {
        items: Map::new(
            |key: (Seq<char>, Seq<char>, Seq<char>)|
                tables.items.contains_key(key) && key.0 != text(values[0]),
            |key: (Seq<char>, Seq<char>, Seq<char>)| tables.items[key],
        ),
        ..tables
    }
}

/// `DELETE_TURNS`.
pub open spec fn after_delete_turns(tables: HistoryTables, values: Seq<SqlDatum>) -> HistoryTables {
    HistoryTables {
        turns: Map::new(
            |key: (Seq<char>, Seq<char>)|
                tables.turns.contains_key(key) && key.0 != text(values[0]),
            |key: (Seq<char>, Seq<char>)| tables.turns[key],
        ),
        ..tables
    }
}

/// `DELETE_PROJECTION_STATE`.
pub open spec fn after_delete_progress(
    tables: HistoryTables,
    values: Seq<SqlDatum>,
) -> HistoryTables {
    HistoryTables { progress: tables.progress.remove(text(values[0])), ..tables }
}

/// Whether a statement of the thread history takes the tables from `before` to `after`.
pub open spec fn executes(
    statement: BoundSql,
    before: HistoryTables,
    after: HistoryTables,
) -> bool {
    let values = statement.values;
    &&& statement.sql == UPSERT_TURN@ ==> after == after_upsert_turn(before, values)
    &&& statement.sql == UPDATE_TURN_SUMMARY@ ==> is_after_summary(before, values, after)
    &&& statement.sql == UPSERT_ITEM@ ==> after == after_upsert_item(before, values)
    &&& statement.sql == SET_FIRST_USER_ITEM@ ==> after == after_set_first(before, values)
    &&& statement.sql == SET_FINAL_AGENT_ITEM@ ==> after == after_set_final(before, values)
    &&& statement.sql == UPSERT_ROLLOUT_EVENT@ ==> after == after_upsert_event(before, values)
    &&& statement.sql == UPSERT_PROJECTION_STATE@ ==> after == after_upsert_progress(
        before,
        values,
    )
    &&& statement.sql == DELETE_ITEMS@ ==> after == after_delete_items(before, values)
    &&& statement.sql == DELETE_TURNS@ ==> after == after_delete_turns(before, values)
    &&& statement.sql == DELETE_PROJECTION_STATE@ ==> after == after_delete_progress(
        before,
        values,
    )
}

/// Whether the statement at `index` takes the tables from one state to the next.
pub open spec fn step_executes(
    statements: Seq<BoundSql>,
    states: Seq<HistoryTables>,
    index: int,
) -> bool {
    executes(statements[index], states[index], states[index + 1])
}

/// Whether the tables go through `states` when the statements are executed in order.
pub open spec fn goes_through(statements: Seq<BoundSql>, states: Seq<HistoryTables>) -> bool {
    &&& states.len() == statements.len() + 1
    &&& forall|i: int|
        0 <= i < statements.len() ==> #[trigger] step_executes(statements, states, i)
}

/// Whether statements in order take the tables from `before` to `after`.
pub open spec fn executes_all(
    statements: Seq<BoundSql>,
    before: HistoryTables,
    after: HistoryTables,
) -> bool {
    exists|states: Seq<HistoryTables>| #[trigger]
        goes_through(statements, states) && states[0] == before && states.last() == after
}

pub(crate) proof fn executes_in_parts(
    first: Seq<BoundSql>,
    second: Seq<BoundSql>,
    before: HistoryTables,
    after: HistoryTables,
) -> (middle: HistoryTables)
    requires
        executes_all(first + second, before, after),
    ensures
        executes_all(first, before, middle),
        executes_all(second, middle, after),
{
    let both = first + second;
    let states = choose|states: Seq<HistoryTables>| #[trigger]
        goes_through(both, states) && states[0] == before && states.last() == after;
    let count = first.len() as int;
    let head = states.take(count + 1);
    let tail = states.skip(count);
    assert forall|i: int| 0 <= i < first.len() implies #[trigger] step_executes(
        first,
        head,
        i,
    ) by {
        assert(step_executes(both, states, i));
    }
    assert forall|i: int| 0 <= i < second.len() implies #[trigger] step_executes(
        second,
        tail,
        i,
    ) by {
        assert(step_executes(both, states, count + i));
    }
    assert(goes_through(first, head));
    assert(goes_through(second, tail));
    states[count]
}

pub(crate) proof fn executes_one(statement: BoundSql, before: HistoryTables, after: HistoryTables)
    requires
        executes_all(seq![statement], before, after),
    ensures
        executes(statement, before, after),
{
    let statements = seq![statement];
    let states = choose|states: Seq<HistoryTables>| #[trigger]
        goes_through(statements, states) && states[0] == before && states.last() == after;
    assert(step_executes(statements, states, 0));
}

pub(crate) proof fn executes_none(before: HistoryTables, after: HistoryTables)
    requires
        executes_all(Seq::empty(), before, after),
    ensures
        after == before,
{
}

/// A turn that is seen again while it is in progress gets the status, the error and the times of the
/// newer record, and its end if the record ended it. It keeps the ordinal and the offset of the first
/// record and its first user message, and gets its final agent message. There is no second row for it.
pub proof fn turn_seen_again_keeps_its_place(
    thread_id: Seq<char>,
    position: LinePosition,
    changes: ThreadHistoryChangeSet,
    turn: TurnChange,
    before: HistoryTables,
    after: HistoryTables,
)
    requires
        changes.changed_turns@ == seq![turn],
        changes.changed_items@.len() == 0,
        before.turns.contains_key((thread_id, turn.turn_id@)),
        is_open(before.turns[(thread_id, turn.turn_id@)]),
        executes_all(change_set_statements(thread_id, position, changes), before, after),
    ensures
        after.turns.dom() == before.turns.dom(),
        forall|key: (Seq<char>, Seq<char>)|
            key != (thread_id, turn.turn_id@) ==> #[trigger] after.turns[key] == before.turns[key],
        after.items == before.items,
        after.events == before.events,
        after.progress == before.progress,
        ({
            let key = (thread_id, turn.turn_id@);
            let row = after.turns[key];
            &&& row.rollout_ordinal == before.turns[key].rollout_ordinal
            &&& row.rollout_byte_offset == before.turns[key].rollout_byte_offset
            &&& row.status == status_text(turn.status)
            &&& row.error_json == optional_text(turn.error_json)
            &&& row.started_at == turn.started_at
            &&& row.completed_at == turn.completed_at
            &&& row.duration_ms == turn.duration_ms
            &&& row.rollout_end_ordinal == if turn.status is InProgress {
                None
            } else {
                Some(position.ordinal)
            }
            &&& row.rollout_end_byte_offset == if turn.status is InProgress {
                None
            } else {
                Some(position.end_byte_offset)
            }
            &&& is_first_user_message(
                before,
                key,
                before.turns[key].first_user_item_id,
                row.first_user_item_id,
            )
            &&& is_final_agent_message(
                before,
                key,
                key,
                !(turn.status is InProgress),
                before.turns[key].final_agent_item_id,
                row.final_agent_item_id,
            )
        }),
{
    let key = (thread_id, turn.turn_id@);
    let statements = turn_statements(thread_id, position, turn);
    assert(seq![turn].drop_last().len() == 0);
    assert(all_turn_statements(thread_id, position, seq![turn].drop_last()) =~= Seq::empty());
    assert(change_set_statements(thread_id, position, changes) =~= seq![statements[0]] + seq![
        statements[1],
    ]);
    let middle = executes_in_parts(seq![statements[0]], seq![statements[1]], before, after);
    executes_one(statements[0], before, middle);
    executes_one(statements[1], middle, after);
    assert(after.turns.dom() =~= before.turns.dom());
    only_ended_turns_have_ended(turn);
    same_items_have_the_same_messages(
        middle,
        before,
        key,
        !(turn.status is InProgress),
        before.turns[key].first_user_item_id,
        after.turns[key].first_user_item_id,
        before.turns[key].final_agent_item_id,
        after.turns[key].final_agent_item_id,
    );
}

/// Whether a statement changes only turns that can still change, and those that the line with the
/// given ordinal ended.
pub(crate) open spec fn spares_ended_turns(statement: BoundSql, ordinal: i64) -> bool {
    ||| statement.sql == UPSERT_TURN@
    ||| statement.sql == UPDATE_TURN_SUMMARY@ && statement.values[8] == SqlDatum::Integer(
        Some(ordinal),
    )
    ||| statement.sql == UPSERT_ITEM@
    ||| statement.sql == SET_FIRST_USER_ITEM@
    ||| statement.sql == SET_FINAL_AGENT_ITEM@
}

pub(crate) open spec fn all_spare_ended_turns(statements: Seq<BoundSql>, ordinal: i64) -> bool {
    forall|i: int|
        0 <= i < statements.len() ==> spares_ended_turns(#[trigger] statements[i], ordinal)
}

proof fn ended_turn_survives(
    statements: Seq<BoundSql>,
    ordinal: i64,
    key: (Seq<char>, Seq<char>),
    before: HistoryTables,
    after: HistoryTables,
)
    requires
        all_spare_ended_turns(statements, ordinal),
        executes_all(statements, before, after),
        before.turns.contains_key(key),
        before.turns[key].status != "inProgress"@,
        before.turns[key].rollout_end_ordinal != Some(ordinal),
    ensures
        after.turns.contains_key(key),
        after.turns[key] == before.turns[key],
    decreases statements.len(),
{
    if statements.len() == 0 {
        assert(statements =~= Seq::empty());
        executes_none(before, after);
    } else {
        let earlier = statements.drop_last();
        assert(statements =~= earlier + seq![statements.last()]);
        let middle = executes_in_parts(earlier, seq![statements.last()], before, after);
        executes_one(statements.last(), middle, after);
        assert(all_spare_ended_turns(earlier, ordinal)) by {
            assert forall|i: int| 0 <= i < earlier.len() implies #[trigger] earlier[i]
                == statements[i] by {}
        }
        ended_turn_survives(earlier, ordinal, key, before, middle);
        assert(spares_ended_turns(statements[statements.len() - 1], ordinal));
    }
}

pub(crate) proof fn turn_statements_spare_ended_turns(
    thread_id: Seq<char>,
    position: LinePosition,
    turns: Seq<TurnChange>,
)
    ensures
        all_spare_ended_turns(
            all_turn_statements(thread_id, position, turns),
            position.ordinal,
        ),
    decreases turns.len(),
{
    if turns.len() > 0 {
        turn_statements_spare_ended_turns(thread_id, position, turns.drop_last());
        assert(all_spare_ended_turns(
            turn_statements(thread_id, position, turns.last()),
            position.ordinal,
        ));
    }
}

pub(crate) proof fn item_statements_spare_ended_turns(
    thread_id: Seq<char>,
    position: LinePosition,
    items: Seq<ItemChange>,
)
    ensures
        all_spare_ended_turns(
            all_item_statements(thread_id, position, items),
            position.ordinal,
        ),
    decreases items.len(),
{
    if items.len() > 0 {
        item_statements_spare_ended_turns(thread_id, position, items.drop_last());
        let added = item_statements(thread_id, position, items.last());
        assert forall|i: int| 0 <= i < added.len() implies spares_ended_turns(
            #[trigger] added[i],
            position.ordinal,
        ) by {
            if i > 0 {
                assert(added[i] == summary_statements(thread_id, items.last())[i - 1]);
            }
        }
    }
}

/// A turn that has ended is never reopened: whatever another line changes, the turn's row stays as
/// it is.
pub proof fn ended_turn_stays(
    thread_id: Seq<char>,
    position: LinePosition,
    changes: ThreadHistoryChangeSet,
    turn_id: Seq<char>,
    before: HistoryTables,
    after: HistoryTables,
)
    requires
        before.turns.contains_key((thread_id, turn_id)),
        before.turns[(thread_id, turn_id)].status != "inProgress"@,
        before.turns[(thread_id, turn_id)].rollout_end_ordinal != Some(position.ordinal),
        executes_all(change_set_statements(thread_id, position, changes), before, after),
    ensures
        after.turns.contains_key((thread_id, turn_id)),
        after.turns[(thread_id, turn_id)] == before.turns[(thread_id, turn_id)],
{
    let statements = change_set_statements(thread_id, position, changes);
    turn_statements_spare_ended_turns(thread_id, position, changes.changed_turns@);
    item_statements_spare_ended_turns(thread_id, position, changes.changed_items@);
    ended_turn_survives(statements, position.ordinal, (thread_id, turn_id), before, after);
}

proof fn turns_leave_items(
    thread_id: Seq<char>,
    position: LinePosition,
    turns: Seq<TurnChange>,
    before: HistoryTables,
    after: HistoryTables,
)
    requires
        executes_all(all_turn_statements(thread_id, position, turns), before, after),
    ensures
        after.items == before.items,
        after.backend == before.backend,
    decreases turns.len(),
{
    if turns.len() == 0 {
        executes_none(before, after);
    } else {
        let added = turn_statements(thread_id, position, turns.last());
        let earlier = all_turn_statements(thread_id, position, turns.drop_last());
        assert(added =~= seq![added[0]] + seq![added[1]]);
        let middle = executes_in_parts(earlier, added, before, after);
        let upserted = executes_in_parts(seq![added[0]], seq![added[1]], middle, after);
        executes_one(added[0], middle, upserted);
        executes_one(added[1], upserted, after);
        turns_leave_items(thread_id, position, turns.drop_last(), before, middle);
    }
}

/// Whether every turn and every item that is stored before is stored after, with the place and the
/// age of its first record.
pub open spec fn keeps_first_records(before: HistoryTables, after: HistoryTables) -> bool {
    &&& forall|key: (Seq<char>, Seq<char>)| #[trigger]
        before.turns.contains_key(key) ==> {
            &&& after.turns.contains_key(key)
            &&& after.turns[key].rollout_ordinal == before.turns[key].rollout_ordinal
            &&& after.turns[key].rollout_byte_offset == before.turns[key].rollout_byte_offset
        }
    &&& forall|key: (Seq<char>, Seq<char>, Seq<char>)| #[trigger]
        before.items.contains_key(key) ==> {
            &&& after.items.contains_key(key)
            &&& after.items[key].rollout_ordinal == before.items[key].rollout_ordinal
            &&& after.items[key].created_at_ms == before.items[key].created_at_ms
        }
}

pub(crate) proof fn first_records_survive(
    statements: Seq<BoundSql>,
    ordinal: i64,
    before: HistoryTables,
    after: HistoryTables,
)
    requires
        all_spare_ended_turns(statements, ordinal),
        executes_all(statements, before, after),
    ensures
        keeps_first_records(before, after),
    decreases statements.len(),
{
    if statements.len() == 0 {
        assert(statements =~= Seq::empty());
        executes_none(before, after);
    } else {
        let earlier = statements.drop_last();
        assert(statements =~= earlier + seq![statements.last()]);
        let middle = executes_in_parts(earlier, seq![statements.last()], before, after);
        executes_one(statements.last(), middle, after);
        assert(all_spare_ended_turns(earlier, ordinal)) by {
            assert forall|i: int| 0 <= i < earlier.len() implies #[trigger] earlier[i]
                == statements[i] by {}
        }
        first_records_survive(earlier, ordinal, before, middle);
        assert(spares_ended_turns(statements[statements.len() - 1], ordinal));
        assert(keeps_first_records(middle, after));
    }
}

/// Whatever a line changes, the turns and items that are stored already keep the ordinal, the offset
/// and the time of the records that created them.
pub proof fn first_records_stay(
    thread_id: Seq<char>,
    position: LinePosition,
    changes: ThreadHistoryChangeSet,
    before: HistoryTables,
    after: HistoryTables,
)
    requires
        executes_all(change_set_statements(thread_id, position, changes), before, after),
    ensures
        keeps_first_records(before, after),
{
    turn_statements_spare_ended_turns(thread_id, position, changes.changed_turns@);
    item_statements_spare_ended_turns(thread_id, position, changes.changed_items@);
    first_records_survive(
        change_set_statements(thread_id, position, changes),
        position.ordinal,
        before,
        after,
    );
}

proof fn only_ended_turns_have_ended(turn: TurnChange)
    ensures
        is_end(status_text(turn.status)) == !(turn.status is InProgress),
{
    reveal_strlit("inProgress");
    reveal_strlit("completed");
    reveal_strlit("interrupted");
    reveal_strlit("failed");
    assert("inProgress"@.len() == 10);
    assert("completed"@.len() == 9);
    assert("interrupted"@.len() == 11);
    assert("failed"@.len() == 6);
}

proof fn same_items_have_the_same_messages(
    left: HistoryTables,
    right: HistoryTables,
    key: (Seq<char>, Seq<char>),
    ended: bool,
    stored_first: Option<Seq<char>>,
    first: Option<Seq<char>>,
    stored_last: Option<Seq<char>>,
    last: Option<Seq<char>>,
)
    requires
        left.backend == right.backend,
        left.items == right.items,
        is_first_user_message(left, key, stored_first, first),
        is_final_agent_message(left, key, key, ended, stored_last, last),
    ensures
        is_first_user_message(right, key, stored_first, first),
        is_final_agent_message(right, key, key, ended, stored_last, last),
{
    assert forall|wanted: Wanted, id: Seq<char>|
        #[trigger] has_message(left, key, wanted, id) == has_message(right, key, wanted, id) by {}
    assert forall|wanted: Wanted| #[trigger] has_any(left, key, wanted) == has_any(
        right,
        key,
        wanted,
    ) by {
        if has_any(right, key, wanted) {
            let id = choose|id: Seq<char>| #[trigger] has_message(right, key, wanted, id);
            assert(has_message(left, key, wanted, id));
        }
    }
    assert forall|wanted: Wanted, id: Seq<char>|
        #[trigger] is_earliest(left, key, wanted, id) ==> is_earliest(right, key, wanted, id) by {
        if is_earliest(left, key, wanted, id) {
            assert forall|other: Seq<char>| #[trigger]
                has_message(right, key, wanted, other) implies item_ordinal(right, key, id)
                <= item_ordinal(right, key, other) by {
                assert(has_message(left, key, wanted, other));
            }
        }
    }
    assert forall|wanted: Wanted, id: Seq<char>|
        #[trigger] is_latest(left, key, wanted, id) ==> is_latest(right, key, wanted, id) by {
        if is_latest(left, key, wanted, id) {
            assert forall|other: Seq<char>| #[trigger]
                has_message(right, key, wanted, other) implies item_ordinal(right, key, other)
                <= item_ordinal(right, key, id) by {
                assert(has_message(left, key, wanted, other));
            }
        }
    }
}

/// A turn that is recorded after its items gets the earliest of its user messages, and the latest of
/// its final answers, or else, if it has ended, the latest of its agent messages without a phase.
pub proof fn late_turn_gets_its_messages(
    thread_id: Seq<char>,
    position: LinePosition,
    changes: ThreadHistoryChangeSet,
    turn: TurnChange,
    before: HistoryTables,
    after: HistoryTables,
)
    requires
        changes.changed_turns@ == seq![turn],
        changes.changed_items@.len() == 0,
        !before.turns.contains_key((thread_id, turn.turn_id@)),
        executes_all(change_set_statements(thread_id, position, changes), before, after),
    ensures
        ({
            let key = (thread_id, turn.turn_id@);
            let row = after.turns[key];
            &&& after.turns.contains_key(key)
            &&& row.rollout_ordinal == position.ordinal
            &&& row.rollout_byte_offset == position.byte_offset
            &&& row.status == status_text(turn.status)
            &&& is_first_user_message(before, key, None, row.first_user_item_id)
            &&& is_final_agent_message(
                before,
                key,
                key,
                !(turn.status is InProgress),
                None,
                row.final_agent_item_id,
            )
        }),
        after.items == before.items,
{
    let key = (thread_id, turn.turn_id@);
    let statements = turn_statements(thread_id, position, turn);
    assert(seq![turn].drop_last().len() == 0);
    assert(all_turn_statements(thread_id, position, seq![turn].drop_last()) =~= Seq::empty());
    assert(change_set_statements(thread_id, position, changes) =~= seq![statements[0]] + seq![
        statements[1],
    ]);
    let middle = executes_in_parts(seq![statements[0]], seq![statements[1]], before, after);
    executes_one(statements[0], before, middle);
    executes_one(statements[1], middle, after);
    only_ended_turns_have_ended(turn);
    same_items_have_the_same_messages(
        middle,
        before,
        key,
        !(turn.status is InProgress),
        None,
        after.turns[key].first_user_item_id,
        None,
        after.turns[key].final_agent_item_id,
    );
}

/// What the items are after one item was stored at a place of the rollout.
pub open spec fn with_item(
    items: Map<(Seq<char>, Seq<char>, Seq<char>), ItemRow>,
    thread_id: Seq<char>,
    position: LinePosition,
    item: ItemChange,
) -> Map<(Seq<char>, Seq<char>, Seq<char>), ItemRow> {
    let key = (thread_id, item.turn_id@, item.item_id@);
    let is_new = !items.contains_key(key);
    items.insert(
        key,
        ItemRow {
            rollout_ordinal: if is_new {
                position.ordinal
            } else {
                items[key].rollout_ordinal
            },
            created_at_ms: if is_new {
                position.created_at_ms
            } else {
                items[key].created_at_ms
            },
            updated_at_ordinal: position.ordinal,
            item_type: match item.item {
                ThreadItem::UserMessage => "userMessage"@,
                ThreadItem::AgentMessage { .. } => "agentMessage"@,
                ThreadItem::Other => ""@,
            },
            item_json: item.item_json@,
        },
    )
}

proof fn one_item_is_stored(
    thread_id: Seq<char>,
    position: LinePosition,
    changes: ThreadHistoryChangeSet,
    item: ItemChange,
    before: HistoryTables,
    after: HistoryTables,
)
    requires
        changes.changed_items@ == seq![item],
        executes_all(change_set_statements(thread_id, position, changes), before, after),
    ensures
        after.items == with_item(before.items, thread_id, position, item),
{
    let turns = all_turn_statements(thread_id, position, changes.changed_turns@);
    let statements = item_statements(thread_id, position, item);
    let summary = summary_statements(thread_id, item);
    assert(seq![item].drop_last().len() == 0);
    assert(all_item_statements(thread_id, position, seq![item].drop_last()) =~= Seq::empty());
    assert(change_set_statements(thread_id, position, changes) =~= turns + (seq![statements[0]]
        + summary));
    let start = executes_in_parts(turns, seq![statements[0]] + summary, before, after);
    turns_leave_items(thread_id, position, changes.changed_turns@, before, start);
    let middle = executes_in_parts(seq![statements[0]], summary, start, after);
    executes_one(statements[0], start, middle);
    if summary.len() == 0 {
        assert(summary =~= Seq::empty());
        executes_none(middle, after);
    } else {
        assert(summary =~= seq![summary[0]]);
        executes_one(summary[0], middle, after);
    }
}

/// An item of any kind that is new to the tables gets the place and the time of its line, and no other
/// item changes.
pub proof fn new_item_gets_the_place_of_its_line(
    thread_id: Seq<char>,
    position: LinePosition,
    changes: ThreadHistoryChangeSet,
    item: ItemChange,
    before: HistoryTables,
    after: HistoryTables,
)
    requires
        changes.changed_items@ == seq![item],
        !before.items.contains_key((thread_id, item.turn_id@, item.item_id@)),
        executes_all(change_set_statements(thread_id, position, changes), before, after),
    ensures
        ({
            let key = (thread_id, item.turn_id@, item.item_id@);
            let row = after.items[key];
            &&& after.items.dom() == before.items.dom().insert(key)
            &&& row.rollout_ordinal == position.ordinal
            &&& row.updated_at_ordinal == position.ordinal
            &&& row.created_at_ms == position.created_at_ms
            &&& row.item_json == item.item_json@
            &&& item.item is UserMessage ==> row.item_type == "userMessage"@
            &&& item.item is AgentMessage ==> row.item_type == "agentMessage"@
            &&& item.item is Other ==> row.item_type == ""@
            &&& forall|other: (Seq<char>, Seq<char>, Seq<char>)|
                other != key ==> #[trigger] after.items[other] == before.items[other]
        }),
{
    one_item_is_stored(thread_id, position, changes, item, before, after);
    assert(after.items.dom() =~= before.items.dom().insert(
        (thread_id, item.turn_id@, item.item_id@),
    ));
}

/// An item that is seen again gets the newer snapshot. It keeps the ordinal and the time of its
/// creation, and there is no second row for it.
pub proof fn item_seen_again_keeps_its_age(
    thread_id: Seq<char>,
    position: LinePosition,
    changes: ThreadHistoryChangeSet,
    item: ItemChange,
    before: HistoryTables,
    after: HistoryTables,
)
    requires
        changes.changed_items@ == seq![item],
        before.items.contains_key((thread_id, item.turn_id@, item.item_id@)),
        executes_all(change_set_statements(thread_id, position, changes), before, after),
    ensures
        after.items.dom() == before.items.dom(),
        forall|key: (Seq<char>, Seq<char>, Seq<char>)|
            key != (thread_id, item.turn_id@, item.item_id@) ==> #[trigger] after.items[key]
                == before.items[key],
        after.items[(thread_id, item.turn_id@, item.item_id@)] == (ItemRow {
            rollout_ordinal: before.items[(
                thread_id,
                item.turn_id@,
                item.item_id@,
            )].rollout_ordinal,
            created_at_ms: before.items[(thread_id, item.turn_id@, item.item_id@)].created_at_ms,
            updated_at_ordinal: position.ordinal,
            item_type: match item.item {
                ThreadItem::UserMessage => "userMessage"@,
                ThreadItem::AgentMessage { .. } => "agentMessage"@,
                ThreadItem::Other => ""@,
            },
            item_json: item.item_json@,
        }),
{
    one_item_is_stored(thread_id, position, changes, item, before, after);
    assert(after.items.dom() =~= before.items.dom());
}

/// A message reaches the row of its turn while the turn can still change: a user message if the turn
/// has none yet, and a final answer in any case. Other items, other turns and turns that have ended
/// stay as they are.
pub proof fn message_reaches_its_turn(
    thread_id: Seq<char>,
    position: LinePosition,
    changes: ThreadHistoryChangeSet,
    item: ItemChange,
    before: HistoryTables,
    after: HistoryTables,
)
    requires
        changes.changed_turns@.len() == 0,
        changes.changed_items@ == seq![item],
        executes_all(change_set_statements(thread_id, position, changes), before, after),
    ensures
        after.turns.dom() == before.turns.dom(),
        after.events == before.events,
        after.progress == before.progress,
        forall|key: (Seq<char>, Seq<char>)|
            key != (thread_id, item.turn_id@) ==> #[trigger] after.turns[key] == before.turns[key],
        before.turns.contains_key((thread_id, item.turn_id@)) ==> {
            let stored = before.turns[(thread_id, item.turn_id@)];
            let row = after.turns[(thread_id, item.turn_id@)];
            let can_change = stored.rollout_end_ordinal is None && stored.status == "inProgress"@;
            let is_first = can_change && item.item is UserMessage && stored.first_user_item_id is None;
            let is_final = can_change && item.item == (ThreadItem::AgentMessage {
                phase: Some(MessagePhase::FinalAnswer),
            });
            row == TurnRow {
                first_user_item_id: if is_first {
                    Some(item.item_id@)
                } else {
                    stored.first_user_item_id
                },
                final_agent_item_id: if is_final {
                    Some(item.item_id@)
                } else {
                    stored.final_agent_item_id
                },
                ..stored
            }
        },
{
    let statements = item_statements(thread_id, position, item);
    let summary = summary_statements(thread_id, item);
    assert(seq![item].drop_last().len() == 0);
    assert(all_item_statements(thread_id, position, seq![item].drop_last()) =~= Seq::empty());
    assert(change_set_statements(thread_id, position, changes) =~= seq![statements[0]] + summary);
    let middle = executes_in_parts(seq![statements[0]], summary, before, after);
    executes_one(statements[0], before, middle);
    if summary.len() == 0 {
        assert(summary =~= Seq::empty());
        executes_none(middle, after);
    } else {
        assert(summary =~= seq![summary[0]]);
        executes_one(summary[0], middle, after);
    }
    assert(after.turns.dom() =~= before.turns.dom());
}

/// A turn that is new to the tables gets the place of its line, what the record says of it, and its end
/// if the record ended it. No other turn changes, and no item.
pub proof fn new_turn_gets_the_place_of_its_line(
    thread_id: Seq<char>,
    position: LinePosition,
    changes: ThreadHistoryChangeSet,
    turn: TurnChange,
    before: HistoryTables,
    after: HistoryTables,
)
    requires
        changes.changed_turns@ == seq![turn],
        changes.changed_items@.len() == 0,
        !before.turns.contains_key((thread_id, turn.turn_id@)),
        executes_all(change_set_statements(thread_id, position, changes), before, after),
    ensures
        ({
            let key = (thread_id, turn.turn_id@);
            let row = after.turns[key];
            &&& after.turns.dom() == before.turns.dom().insert(key)
            &&& row.rollout_ordinal == position.ordinal
            &&& row.rollout_byte_offset == position.byte_offset
            &&& row.error_json == optional_text(turn.error_json)
            &&& row.started_at == turn.started_at
            &&& row.completed_at == turn.completed_at
            &&& row.duration_ms == turn.duration_ms
            &&& turn.status is InProgress ==> row.status == "inProgress"@
                && row.rollout_end_ordinal is None && row.rollout_end_byte_offset is None
            &&& !(turn.status is InProgress) ==> row.rollout_end_ordinal == Some(position.ordinal)
                && row.rollout_end_byte_offset == Some(position.end_byte_offset)
            &&& turn.status is Completed ==> row.status == "completed"@
            &&& turn.status is Interrupted ==> row.status == "interrupted"@
            &&& turn.status is Failed ==> row.status == "failed"@
            &&& forall|other: (Seq<char>, Seq<char>)|
                other != key ==> #[trigger] after.turns[other] == before.turns[other]
        }),
        after.items == before.items,
        after.events == before.events,
        after.progress == before.progress,
{
    let statements = turn_statements(thread_id, position, turn);
    assert(seq![turn].drop_last().len() == 0);
    assert(all_turn_statements(thread_id, position, seq![turn].drop_last()) =~= Seq::empty());
    assert(change_set_statements(thread_id, position, changes) =~= seq![statements[0]] + seq![
        statements[1],
    ]);
    let middle = executes_in_parts(seq![statements[0]], seq![statements[1]], before, after);
    executes_one(statements[0], before, middle);
    executes_one(statements[1], middle, after);
    assert(after.turns.dom() =~= before.turns.dom().insert((thread_id, turn.turn_id@)));
}

/// The kinds of turns and items have the names that the tables are searched for.
pub proof fn kinds_have_their_names(turn: TurnChange, item: ItemChange)
    ensures
        turn.status is Completed ==> status_text(turn.status) == "completed"@,
        turn.status is Interrupted ==> status_text(turn.status) == "interrupted"@,
        turn.status is Failed ==> status_text(turn.status) == "failed"@,
        turn.status is InProgress ==> status_text(turn.status) == "inProgress"@,
        item.item is UserMessage ==> item_type_text(item.item) == "userMessage"@,
        item.item is AgentMessage ==> item_type_text(item.item) == "agentMessage"@,
        item.item is Other ==> item_type_text(item.item) == ""@,
{
}

pub(crate) proof fn changes_leave_lines(
    statements: Seq<BoundSql>,
    ordinal: i64,
    before: HistoryTables,
    after: HistoryTables,
)
    requires
        all_spare_ended_turns(statements, ordinal),
        executes_all(statements, before, after),
    ensures
        after.events == before.events,
        after.progress == before.progress,
    decreases statements.len(),
{
    if statements.len() == 0 {
        assert(statements =~= Seq::empty());
        executes_none(before, after);
    } else {
        let earlier = statements.drop_last();
        assert(statements =~= earlier + seq![statements.last()]);
        let middle = executes_in_parts(earlier, seq![statements.last()], before, after);
        executes_one(statements.last(), middle, after);
        assert(all_spare_ended_turns(earlier, ordinal)) by {
            assert forall|i: int| 0 <= i < earlier.len() implies #[trigger] earlier[i]
                == statements[i] by {}
        }
        changes_leave_lines(earlier, ordinal, before, middle);
        assert(spares_ended_turns(statements[statements.len() - 1], ordinal));
    }
}

/// The row of a rollout line.
pub open spec fn event_row(line: ProjectedRolloutLine) -> EventRow {
    EventRow {
        rollout_byte_offset: line.start_byte_offset as i64,
        rollout_end_byte_offset: line.end_byte_offset as i64,
        created_at_ms: line.created_at_ms,
        line_type: line.line_type@,
        payload_type: optional_text(line.payload_type),
        raw_json: line.raw_json@,
    }
}

/// The stored rollout lines with those of a thread added.
pub open spec fn with_lines(
    events: Map<(Seq<char>, i64), EventRow>,
    thread_id: Seq<char>,
    lines: Seq<ProjectedRolloutLine>,
) -> Map<(Seq<char>, i64), EventRow>
    decreases lines.len(),
{
    if lines.len() == 0 {
        events
    } else {
        with_lines(events, thread_id, lines.drop_last()).insert(
            (thread_id, lines.last().ordinal as i64),
            event_row(lines.last()),
        )
    }
}

proof fn lines_are_stored(
    thread_id: Seq<char>,
    first: int,
    lines: Seq<ProjectedRolloutLine>,
    before: HistoryTables,
    after: HistoryTables,
)
    requires
        lines_plan(thread_id, first, true, lines).failure is None,
        executes_all(lines_plan(thread_id, first, true, lines).statements, before, after),
    ensures
        after.events == with_lines(before.events, thread_id, lines),
        after.progress == before.progress,
    decreases lines.len(),
{
    if lines.len() == 0 {
        executes_none(before, after);
    } else {
        let line = lines.last();
        let position = stored_position(line);
        let earlier = lines_plan(thread_id, first, true, lines.drop_last()).statements;
        let changes = change_set_statements(thread_id, position, line.changes);
        let event = event_statement(thread_id, line);
        assert(line_statements(thread_id, true, line) =~= changes + seq![event]);
        let middle = executes_in_parts(
            earlier,
            line_statements(thread_id, true, line),
            before,
            after,
        );
        let changed = executes_in_parts(changes, seq![event], middle, after);
        executes_one(event, changed, after);
        lines_are_stored(thread_id, first, lines.drop_last(), before, middle);
        turn_statements_spare_ended_turns(thread_id, position, line.changes.changed_turns@);
        item_statements_spare_ended_turns(thread_id, position, line.changes.changed_items@);
        changes_leave_lines(changes, position.ordinal, middle, changed);
    }
}

proof fn added_line(
    events: Map<(Seq<char>, i64), EventRow>,
    thread_id: Seq<char>,
    first: int,
    lines: Seq<ProjectedRolloutLine>,
    ordinal: i64,
)
    requires
        0 <= first,
        first + lines.len() <= i64::MAX,
        forall|i: int| 0 <= i < lines.len() ==> (#[trigger] lines[i]).ordinal == first + i,
    ensures
        ({
            let key = (thread_id, ordinal);
            let after = with_lines(events, thread_id, lines);
            if first <= ordinal < first + lines.len() {
                after.contains_key(key) && after[key] == event_row(lines[ordinal - first])
            } else {
                after.contains_key(key) == events.contains_key(key) && after[key] == events[key]
            }
        }),
    decreases lines.len(),
{
    if lines.len() > 0 {
        let earlier = lines.drop_last();
        assert forall|i: int| 0 <= i < earlier.len() implies (#[trigger] earlier[i]).ordinal
            == first + i by {
            assert(earlier[i] == lines[i]);
        }
        added_line(events, thread_id, first, earlier, ordinal);
        assert(lines.last() == lines[lines.len() - 1]);
    }
}

/// Whether the rollout lines that are stored of a thread are those with the ordinals below `count`.
pub open spec fn has_lines(tables: HistoryTables, thread_id: Seq<char>, count: int) -> bool {
    forall|ordinal: i64|
        #[trigger] tables.events.contains_key((thread_id, ordinal)) <==> 0 <= ordinal < count
}

/// Whether `rows` are what the database gives of the rollout lines of a thread: one for each line in
/// the order of the ordinals, with a text of the JSON value that was stored.
pub open spec fn reads_lines(
    tables: HistoryTables,
    thread_id: Seq<char>,
    count: int,
    rows: Seq<Row>,
) -> bool {
    &&& rows.len() == count
    &&& forall|i: int|
        0 <= i < count ==> (raw_line(#[trigger] rows[i]) matches Some(raw) && parsed_json(raw)
            == parsed_json(tables.events[(thread_id, i as i64)].raw_json))
}

/// What is appended is read back: after a projection that stores its lines, the rollout of the thread
/// is the one before it and then the appended lines, and the stored progress goes on after them.
pub proof fn appended_lines_follow_the_stored_ones(
    thread_id: Seq<char>,
    start_offset: int,
    next_offset: int,
    state: Option<(i64, i64)>,
    count: int,
    lines: Seq<ProjectedRolloutLine>,
    before: HistoryTables,
    after: HistoryTables,
)
    requires
        count == match state {
            Some(state) => state.1 as int,
            None => 0,
        },
        count >= 0,
        has_lines(before, thread_id, count),
        projection_plan(
            thread_id,
            start_offset,
            next_offset,
            state,
            true,
            lines,
        ).failure is None,
        executes_all(
            projection_plan(
                thread_id,
                start_offset,
                next_offset,
                state,
                true,
                lines,
            ).statements,
            before,
            after,
        ),
    ensures
        has_lines(after, thread_id, count + lines.len()),
        forall|i: int|
            0 <= i < count ==> #[trigger] after.events[(thread_id, i as i64)] == before.events[(
                thread_id,
                i as i64,
            )],
        forall|i: int|
            0 <= i < lines.len() ==> after.events[(thread_id, (count + i) as i64)] == event_row(
                #[trigger] lines[i],
            ),
        after.progress == before.progress.insert(
            thread_id,
            (next_offset as i64, (count + lines.len()) as i64),
        ),
{
    let done = lines_plan(thread_id, count, true, lines).statements;
    let stored = progress_statement(thread_id, next_offset as i64, (count + lines.len()) as i64);
    assert(done.push(stored) =~= done + seq![stored]);
    let middle = executes_in_parts(done, seq![stored], before, after);
    executes_one(stored, middle, after);
    lines_are_stored(thread_id, count, lines, before, middle);
    projected_lines_are_in_order(thread_id, count, true, lines);
    ordinals_fit(thread_id, count, true, lines);
    assert forall|ordinal: i64|
        #[trigger] after.events.contains_key((thread_id, ordinal)) <==> 0 <= ordinal < count
            + lines.len() by {
        added_line(before.events, thread_id, count, lines, ordinal);
        assert(before.events.contains_key((thread_id, ordinal)) <==> 0 <= ordinal < count);
    }
    assert forall|i: int| 0 <= i < count implies #[trigger] after.events[(thread_id, i as i64)]
        == before.events[(thread_id, i as i64)] by {
        added_line(before.events, thread_id, count, lines, i as i64);
    }
    assert forall|i: int| 0 <= i < lines.len() implies after.events[(
        thread_id,
        (count + i) as i64,
    )] == event_row(#[trigger] lines[i]) by {
        added_line(before.events, thread_id, count, lines, (count + i) as i64);
    }
}

pub(crate) proof fn ordinals_fit(
    thread_id: Seq<char>,
    first: int,
    store_lines: bool,
    lines: Seq<ProjectedRolloutLine>,
)
    requires
        0 <= first <= i64::MAX,
        lines_plan(thread_id, first, store_lines, lines).failure is None,
    ensures
        first + lines.len() <= i64::MAX,
{
    if lines.len() > 0 {
        assert(lines.last().ordinal == first + lines.len() - 1);
    }
}

/// The item of a rollout line, if its JSON text is one.
pub open spec fn line_item(line: ProjectedRolloutLine) -> Option<Seq<char>> {
    match row_item(line.raw_json@) {
        Ok(item) => Some(item),
        Err(_) => None,
    }
}

/// Loading after appending gives the items that loading gave before, and then those of the appended
/// lines.
pub proof fn loading_after_appending(
    thread_id: Seq<char>,
    start_offset: int,
    next_offset: int,
    state: Option<(i64, i64)>,
    count: int,
    lines: Seq<ProjectedRolloutLine>,
    before: HistoryTables,
    after: HistoryTables,
    old_rows: Seq<Row>,
    new_rows: Seq<Row>,
)
    requires
        count == match state {
            Some(state) => state.1 as int,
            None => 0,
        },
        count >= 0,
        has_lines(before, thread_id, count),
        projection_plan(
            thread_id,
            start_offset,
            next_offset,
            state,
            true,
            lines,
        ).failure is None,
        executes_all(
            projection_plan(
                thread_id,
                start_offset,
                next_offset,
                state,
                true,
                lines,
            ).statements,
            before,
            after,
        ),
        reads_lines(before, thread_id, count, old_rows),
        reads_lines(after, thread_id, count + lines.len(), new_rows),
    ensures
        new_rows.len() == old_rows.len() + lines.len(),
        forall|i: int|
            0 <= i < old_rows.len() ==> stored_item(#[trigger] new_rows[i]) == stored_item(
                old_rows[i],
            ),
        forall|i: int|
            0 <= i < lines.len() ==> stored_item(new_rows[old_rows.len() + i]) == line_item(
                #[trigger] lines[i],
            ),
{
    appended_lines_follow_the_stored_ones(
        thread_id,
        start_offset,
        next_offset,
        state,
        count,
        lines,
        before,
        after,
    );
    assert forall|i: int| 0 <= i < old_rows.len() implies stored_item(#[trigger] new_rows[i])
        == stored_item(old_rows[i]) by {
        assert(raw_line(old_rows[i]) is Some);
        assert(after.events[(thread_id, i as i64)] == before.events[(thread_id, i as i64)]);
    }
    assert forall|i: int| 0 <= i < lines.len() implies stored_item(new_rows[old_rows.len() + i])
        == line_item(#[trigger] lines[i]) by {
        assert(raw_line(new_rows[count + i]) is Some);
    }
}

/// A deletion leaves nothing of the thread's turns, items and progress, and everything else as it
/// was.
pub proof fn deletion_removes_the_thread(
    thread_id: Seq<char>,
    before: HistoryTables,
    after: HistoryTables,
)
    requires
        executes_all(delete_statements(thread_id), before, after),
    ensures
        forall|key: (Seq<char>, Seq<char>)| #[trigger]
            after.turns.contains_key(key) <==> before.turns.contains_key(key) && key.0 != thread_id,
        forall|key: (Seq<char>, Seq<char>)|
            key.0 != thread_id && before.turns.contains_key(key) ==> #[trigger] after.turns[key]
                == before.turns[key],
        forall|key: (Seq<char>, Seq<char>, Seq<char>)| #[trigger]
            after.items.contains_key(key) <==> before.items.contains_key(key) && key.0 != thread_id,
        forall|key: (Seq<char>, Seq<char>, Seq<char>)|
            key.0 != thread_id && before.items.contains_key(key) ==> #[trigger] after.items[key]
                == before.items[key],
        after.progress == before.progress.remove(thread_id),
        after.events == before.events,
{
    let statements = delete_statements(thread_id);
    assert(statements =~= seq![statements[0]] + (seq![statements[1]] + seq![statements[2]]));
    let first = executes_in_parts(
        seq![statements[0]],
        seq![statements[1]] + seq![statements[2]],
        before,
        after,
    );
    let second = executes_in_parts(seq![statements[1]], seq![statements[2]], first, after);
    executes_one(statements[0], before, first);
    executes_one(statements[1], first, second);
    executes_one(statements[2], second, after);
}

} // verus!
