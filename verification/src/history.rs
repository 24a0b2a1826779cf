//! Projection of rollout lines into the tables of the thread history.
use crate::history_sql::{
    DELETE_ITEMS, DELETE_PROJECTION_STATE, DELETE_TURNS, SET_FINAL_AGENT_ITEM, SET_FIRST_USER_ITEM,
    UPDATE_TURN_SUMMARY, UPSERT_ITEM, UPSERT_TURN,
};
use crate::value::{optional_text, SqlDatum, SqlValue};
use vstd::prelude::*;

verus! {

/// An SQL statement with anonymous parameters and the values for them, in order.
#[derive(Debug)]
pub struct Statement {
    pub sql: &'static str,
    pub values: Vec<SqlValue>,
}

/// What a [`Statement`] stands for.
#[verifier::ext_equal]
pub struct BoundSql {
    pub sql: Seq<char>,
    pub values: Seq<SqlDatum>,
}

/// What a list of values stands for.
pub open spec fn data(values: Seq<SqlValue>) -> Seq<SqlDatum> {
    values.map_values(|value: SqlValue| value@)
}

impl View for Statement {
    type V = BoundSql;

    open spec fn view(&self) -> BoundSql {
        BoundSql { sql: self.sql@, values: data(self.values@) }
    }
}

/// What a list of statements stands for.
pub open spec fn bound(statements: Seq<Statement>) -> Seq<BoundSql> {
    statements.map_values(|statement: Statement| statement@)
}

/// Where a turn stands.
#[derive(Debug, Clone, Copy)]
pub enum TurnStatus {
    Completed,
    Interrupted,
    Failed,
    InProgress,
}

/// A turn that a rollout line created or changed.
#[derive(Debug)]
pub struct TurnChange {
    pub turn_id: String,
    pub status: TurnStatus,
    /// The error that ended the turn, as JSON text.
    pub error_json: Option<String>,
    pub started_at: Option<i64>,
    pub completed_at: Option<i64>,
    pub duration_ms: Option<i64>,
}

/// Where in its turn an agent message stands.
#[derive(Debug, Clone, Copy)]
pub enum MessagePhase {
    Commentary,
    FinalAnswer,
}

/// What the history tells apart among the items of a turn.
#[derive(Debug, Clone, Copy)]
pub enum ThreadItem {
    UserMessage,
    AgentMessage { phase: Option<MessagePhase> },
    /// An item of another kind.
    Other,
}

/// An item that a rollout line created or changed.
#[derive(Debug)]
pub struct ItemChange {
    pub turn_id: String,
    pub item_id: String,
    pub item: ThreadItem,
    /// The item, as JSON text.
    pub item_json: String,
}

/// What a rollout line changes in the history of its thread.
#[derive(Debug)]
pub struct ThreadHistoryChangeSet {
    pub changed_turns: Vec<TurnChange>,
    pub changed_items: Vec<ItemChange>,
}

/// The stored name of a turn status.
pub open spec fn status_text(status: TurnStatus) -> Seq<char> {
    match status {
        TurnStatus::Completed => "completed"@,
        TurnStatus::Interrupted => "interrupted"@,
        TurnStatus::Failed => "failed"@,
        TurnStatus::InProgress => "inProgress"@,
    }
}

/// The stored name of an item's kind, which only messages have.
pub open spec fn item_type_text(item: ThreadItem) -> Seq<char> {
    match item {
        ThreadItem::UserMessage => "userMessage"@,
        ThreadItem::AgentMessage { .. } => "agentMessage"@,
        ThreadItem::Other => ""@,
    }
}

/// The stored name of a turn status.
pub fn turn_status(status: &TurnStatus) -> (text: &'static str)
    ensures
        text@ == status_text(*status),
{
    match status {
        TurnStatus::Completed => "completed",
        TurnStatus::Interrupted => "interrupted",
        TurnStatus::Failed => "failed",
        TurnStatus::InProgress => "inProgress",
    }
}

fn item_type(item: &ThreadItem) -> (text: &'static str)
    ensures
        text@ == item_type_text(*item),
{
    match item {
        ThreadItem::UserMessage => "userMessage",
        ThreadItem::AgentMessage { .. } => "agentMessage",
        ThreadItem::Other => "",
    }
}

/// Where the rollout line that is projected stands, in the integers that the database stores.
#[derive(Debug, Clone, Copy)]
pub struct LinePosition {
    pub ordinal: i64,
    pub byte_offset: i64,
    pub end_byte_offset: i64,
    pub created_at_ms: i64,
}

/// A text parameter.
pub open spec fn text_datum(text: Seq<char>) -> SqlDatum {
    SqlDatum::Text(Some(text))
}

/// An integer parameter.
pub open spec fn integer_datum(value: i64) -> SqlDatum {
    SqlDatum::Integer(Some(value))
}

/// The end of a turn: the line that ended it, or nothing while it is in progress.
pub open spec fn ending(status: TurnStatus, value: i64) -> SqlDatum {
    SqlDatum::Integer(
        if status is InProgress {
            None
        } else {
            Some(value)
        },
    )
}

/// The statements that store a changed turn.
pub open spec fn turn_statements(
    thread_id: Seq<char>,
    position: LinePosition,
    turn: TurnChange,
) -> Seq<BoundSql> {
    seq![
        BoundSql {
            sql: UPSERT_TURN@,
            values: seq![
                text_datum(thread_id),
                text_datum(turn.turn_id@),
                integer_datum(position.ordinal),
                integer_datum(position.byte_offset),
                ending(turn.status, position.ordinal),
                ending(turn.status, position.end_byte_offset),
                text_datum(status_text(turn.status)),
                SqlDatum::Text(optional_text(turn.error_json)),
                SqlDatum::Integer(turn.started_at),
                SqlDatum::Integer(turn.completed_at),
                SqlDatum::Integer(turn.duration_ms),
            ],
        },
        BoundSql {
            sql: UPDATE_TURN_SUMMARY@,
            values: seq![
                text_datum(thread_id),
                text_datum(turn.turn_id@),
                text_datum(thread_id),
                text_datum(turn.turn_id@),
                text_datum(thread_id),
                text_datum(turn.turn_id@),
                text_datum(thread_id),
                text_datum(turn.turn_id@),
                integer_datum(position.ordinal),
            ],
        },
    ]
}

/// The statement that keeps a message on the row of its turn, for the messages that are kept there.
pub open spec fn summary_statements(thread_id: Seq<char>, change: ItemChange) -> Seq<BoundSql> {
    let values = seq![
        text_datum(change.item_id@),
        text_datum(thread_id),
        text_datum(change.turn_id@),
    ];
    match change.item {
        ThreadItem::UserMessage => seq![BoundSql { sql: SET_FIRST_USER_ITEM@, values }],
        ThreadItem::AgentMessage { phase: Some(MessagePhase::FinalAnswer) } => seq![
            BoundSql { sql: SET_FINAL_AGENT_ITEM@, values },
        ],
        _ => Seq::empty(),
    }
}

/// The statements that store a changed item.
pub open spec fn item_statements(
    thread_id: Seq<char>,
    position: LinePosition,
    change: ItemChange,
) -> Seq<BoundSql> {
    seq![
        BoundSql {
            sql: UPSERT_ITEM@,
            values: seq![
                text_datum(thread_id),
                text_datum(change.turn_id@),
                text_datum(change.item_id@),
                integer_datum(position.ordinal),
                integer_datum(position.ordinal),
                integer_datum(position.created_at_ms),
                text_datum(item_type_text(change.item)),
                text_datum(change.item_json@),
            ],
        },
    ] + summary_statements(thread_id, change)
}

/// The statements that store the turns of a change set, in order.
pub open spec fn all_turn_statements(
    thread_id: Seq<char>,
    position: LinePosition,
    turns: Seq<TurnChange>,
) -> Seq<BoundSql>
    decreases turns.len(),
{
    if turns.len() == 0 {
        Seq::empty()
    } else {
        all_turn_statements(thread_id, position, turns.drop_last()) + turn_statements(
            thread_id,
            position,
            turns.last(),
        )
    }
}

/// The statements that store the items of a change set, in order.
pub open spec fn all_item_statements(
    thread_id: Seq<char>,
    position: LinePosition,
    items: Seq<ItemChange>,
) -> Seq<BoundSql>
    decreases items.len(),
{
    if items.len() == 0 {
        Seq::empty()
    } else {
        all_item_statements(thread_id, position, items.drop_last()) + item_statements(
            thread_id,
            position,
            items.last(),
        )
    }
}

/// The statements that store what a rollout line changes: first its turns, then its items.
pub open spec fn change_set_statements(
    thread_id: Seq<char>,
    position: LinePosition,
    changes: ThreadHistoryChangeSet,
) -> Seq<BoundSql> {
    all_turn_statements(thread_id, position, changes.changed_turns@) + all_item_statements(
        thread_id,
        position,
        changes.changed_items@,
    )
}

fn text_value(text: &str) -> (value: SqlValue)
    ensures
        value@ == text_datum(text@),
{
    SqlValue::Text(Some(text.to_owned()))
}

fn integer_value(integer: i64) -> (value: SqlValue)
    ensures
        value@ == integer_datum(integer),
{
    SqlValue::Integer(Some(integer))
}

fn ending_value(status: &TurnStatus, integer: i64) -> (value: SqlValue)
    ensures
        value@ == ending(*status, integer),
{
    match status {
        TurnStatus::Completed | TurnStatus::Interrupted | TurnStatus::Failed => SqlValue::Integer(
            Some(integer),
        ),
        TurnStatus::InProgress => SqlValue::Integer(None),
    }
}

/// The statements that store a changed turn.
fn plan_turn(thread_id: &str, position: LinePosition, turn: &TurnChange) -> (statements: (
    Statement,
    Statement,
))
    ensures
        seq![statements.0@, statements.1@] == turn_statements(thread_id@, position, *turn),
{
    let turn_id = turn.turn_id.as_str();
    let upsert = Statement {
        sql: UPSERT_TURN,
        values: vec![
            text_value(thread_id),
            text_value(turn_id),
            integer_value(position.ordinal),
            integer_value(position.byte_offset),
            ending_value(&turn.status, position.ordinal),
            ending_value(&turn.status, position.end_byte_offset),
            text_value(turn_status(&turn.status)),
            SqlValue::Text(turn.error_json.clone()),
            SqlValue::Integer(turn.started_at),
            SqlValue::Integer(turn.completed_at),
            SqlValue::Integer(turn.duration_ms),
        ],
    };
    let summary = Statement {
        sql: UPDATE_TURN_SUMMARY,
        values: vec![
            text_value(thread_id),
            text_value(turn_id),
            text_value(thread_id),
            text_value(turn_id),
            text_value(thread_id),
            text_value(turn_id),
            text_value(thread_id),
            text_value(turn_id),
            integer_value(position.ordinal),
        ],
    };
    proof {
        let expected = turn_statements(thread_id@, position, *turn);
        assert(upsert@.values =~= expected[0].values);
        assert(summary@.values =~= expected[1].values);
    }
    (upsert, summary)
}

/// The statement that stores a changed item.
fn plan_item(thread_id: &str, position: LinePosition, change: &ItemChange) -> (statement: Statement)
    ensures
        seq![statement@] + summary_statements(thread_id@, *change) == item_statements(
            thread_id@,
            position,
            *change,
        ),
{
    let statement = Statement {
        sql: UPSERT_ITEM,
        values: vec![
            text_value(thread_id),
            text_value(change.turn_id.as_str()),
            text_value(change.item_id.as_str()),
            integer_value(position.ordinal),
            integer_value(position.ordinal),
            integer_value(position.created_at_ms),
            text_value(item_type(&change.item)),
            text_value(change.item_json.as_str()),
        ],
    };
    assert(statement@.values =~= item_statements(thread_id@, position, *change)[0].values);
    statement
}

/// The statement that keeps a message on the row of its turn, so that reads do not need to scan
/// every item of the turn.
fn plan_summary(thread_id: &str, change: &ItemChange) -> (statement: Option<Statement>)
    ensures
        summary_statements(thread_id@, *change) == match statement {
            Some(statement) => seq![statement@],
            None => Seq::empty(),
        },
{
    let sql = match &change.item {
        ThreadItem::UserMessage => SET_FIRST_USER_ITEM,
        ThreadItem::AgentMessage { phase: Some(MessagePhase::FinalAnswer) } => SET_FINAL_AGENT_ITEM,
        ThreadItem::AgentMessage { phase: Some(MessagePhase::Commentary) }
        | ThreadItem::AgentMessage { phase: None }
        | ThreadItem::Other => {
            return None;
        },
    };
    let statement = Statement {
        sql,
        values: vec![
            text_value(change.item_id.as_str()),
            text_value(thread_id),
            text_value(change.turn_id.as_str()),
        ],
    };
    assert(statement@.values =~= summary_statements(thread_id@, *change)[0].values);
    Some(statement)
}

/// Appends the statements that store what a rollout line changes, to be executed in order.
pub fn apply_change_set(
    statements: &mut Vec<Statement>,
    thread_id: &str,
    position: LinePosition,
    changes: &ThreadHistoryChangeSet,
)
    ensures
        bound(final(statements)@) == bound(old(statements)@) + change_set_statements(
            thread_id@,
            position,
            *changes,
        ),
{
    let ghost start = bound(statements@);
    let turns = &changes.changed_turns;
    let mut index: usize = 0;
    while index < turns.len()
        invariant
            index <= turns.len(),
            bound(statements@) == start + all_turn_statements(
                thread_id@,
                position,
                turns@.take(index as int),
            ),
        decreases turns.len() - index,
    {
        let ghost before = bound(statements@);
        let (upsert, summary) = plan_turn(thread_id, position, &turns[index]);
        statements.push(upsert);
        statements.push(summary);
        proof {
            let taken = turns@.take(index + 1);
            assert(taken.drop_last() =~= turns@.take(index as int));
            assert(bound(statements@) =~= before + turn_statements(
                thread_id@,
                position,
                turns@[index as int],
            ));
            assert(bound(statements@) =~= start + all_turn_statements(thread_id@, position, taken));
        }
        index += 1;
    }
    assert(turns@.take(index as int) =~= turns@);
    let ghost turns_done = bound(statements@);
    let items = &changes.changed_items;
    index = 0;
    while index < items.len()
        invariant
            index <= items.len(),
            bound(statements@) == turns_done + all_item_statements(
                thread_id@,
                position,
                items@.take(index as int),
            ),
        decreases items.len() - index,
    {
        let ghost before = bound(statements@);
        let change = &items[index];
        statements.push(plan_item(thread_id, position, change));
        if let Some(summary) = plan_summary(thread_id, change) {
            statements.push(summary);
        }
        proof {
            let taken = items@.take(index + 1);
            assert(taken.drop_last() =~= items@.take(index as int));
            assert(bound(statements@) =~= before + item_statements(thread_id@, position, *change));
            assert(bound(statements@) =~= turns_done + all_item_statements(
                thread_id@,
                position,
                taken,
            ));
        }
        index += 1;
    }
    assert(items@.take(index as int) =~= items@);
    assert(bound(statements@) =~= start + change_set_statements(thread_id@, position, *changes));
}

/// The statements that delete what is projected of a thread.
pub open spec fn delete_statements(thread_id: Seq<char>) -> Seq<BoundSql> {
    seq![
        BoundSql { sql: DELETE_ITEMS@, values: seq![text_datum(thread_id)] },
        BoundSql { sql: DELETE_TURNS@, values: seq![text_datum(thread_id)] },
        BoundSql { sql: DELETE_PROJECTION_STATE@, values: seq![text_datum(thread_id)] },
    ]
}

fn delete_where(sql: &'static str, thread_id: &str) -> (statement: Statement)
    ensures
        statement@ == (BoundSql { sql: sql@, values: seq![text_datum(thread_id@)] }),
{
    let statement = Statement { sql, values: vec![text_value(thread_id)] };
    assert(statement@.values =~= seq![text_datum(thread_id@)]);
    statement
}

/// The statements that delete what is projected of a thread, to be executed in order in one
/// transaction.
pub fn delete_thread(thread_id: &str) -> (statements: Vec<Statement>)
    ensures
        bound(statements@) == delete_statements(thread_id@),
{
    let statements = vec![
        delete_where(DELETE_ITEMS, thread_id),
        delete_where(DELETE_TURNS, thread_id),
        delete_where(DELETE_PROJECTION_STATE, thread_id),
    ];
    assert(bound(statements@) =~= delete_statements(thread_id@));
    statements
}

/// Statements stand for their texts and values, one by one.
pub proof fn statements_stand_for_themselves(statements: Seq<Statement>, index: int)
    requires
        0 <= index < statements.len(),
    ensures
        bound(statements).len() == statements.len(),
        bound(statements)[index].sql == statements[index].sql@,
        bound(statements)[index].values.len() == statements[index].values@.len(),
        forall|i: int|
            0 <= i < statements[index].values@.len()
                ==> #[trigger] bound(statements)[index].values[i] == statements[index].values@[i]@,
{
}

/// What a line changes is appended to the statements that are there.
pub proof fn changes_are_appended(
    thread_id: &str,
    position: LinePosition,
    changes: &ThreadHistoryChangeSet,
)
    ensures
        forall|statements: &mut Vec<Statement>|
            #![trigger call_ensures(apply_change_set, (statements, thread_id, position, changes), ())]
            call_ensures(apply_change_set, (statements, thread_id, position, changes), ())
                ==> bound(final(statements)@) == bound(statements@) + change_set_statements(
                thread_id@,
                position,
                *changes,
            ),
{
}

/// A deletion is planned as the statements that delete what is projected of the thread.
pub proof fn deletion_is_planned(thread_id: &str, statements: Vec<Statement>)
    requires
        call_ensures(delete_thread, (thread_id,), statements),
    ensures
        bound(statements@) == delete_statements(thread_id@),
{
}

} // verus!
