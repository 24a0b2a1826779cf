//! What a projection leaves in the tables of the thread history.
use crate::db::Row;
use crate::history::{
    all_item_statements, all_turn_statements, change_set_statements, item_statements,
    summary_statements, turn_statements, BoundSql, ItemChange, LinePosition,
    ThreadHistoryChangeSet, ThreadItem, TurnChange,
};
use crate::history_sql::UPSERT_ROLLOUT_EVENT;
use crate::json::parsed_json;
use crate::projection::{
    event_statement, line_problem, line_statements, lines_plan, progress_statement,
    projected_lines_are_in_order, projection_plan, stored_position, ProjectedRolloutLine,
};
use crate::rollout::{
    has_string, line_type_is_the_lines_own, line_type_text, raw_line, stored_item,
};
use crate::stored_history::{
    appended_lines_follow_the_stored_ones, changes_leave_lines, executes_all, executes_in_parts, executes_none, executes_one,
    first_records_survive, has_lines, item_statements_spare_ended_turns, keeps_first_records, line_item,
    new_item_gets_the_place_of_its_line, new_turn_gets_the_place_of_its_line, ordinals_fit,
    turn_statements_spare_ended_turns, HistoryTables,
};
use crate::value::optional_text;
use serde_json::Value;
use vstd::prelude::*;

verus! {

/// Whether the tables hold the same turns and items.
pub open spec fn same_history(left: HistoryTables, right: HistoryTables) -> bool {
    &&& left.backend == right.backend
    &&& left.turns == right.turns
    &&& left.items == right.items
}

/// Whether a position is that of a line.
pub open spec fn stands_at(position: LinePosition, line: ProjectedRolloutLine) -> bool {
    &&& position.ordinal == line.ordinal
    &&& position.byte_offset == line.start_byte_offset
    &&& position.end_byte_offset == line.end_byte_offset
    &&& position.created_at_ms == line.created_at_ms
}

/// Whether executing the changes of a line at the line's position leaves the turns and the items of
/// `after`.
pub open spec fn applies_line(
    thread_id: Seq<char>,
    line: ProjectedRolloutLine,
    before: HistoryTables,
    after: HistoryTables,
) -> bool {
    exists|position: LinePosition, changed: HistoryTables|
        {
            &&& stands_at(position, line)
            &&& #[trigger] executes_all(
                change_set_statements(thread_id, position, line.changes),
                before,
                changed,
            )
            &&& same_history(changed, after)
        }
}

/// Whether the turns and the items go through `states` when the changes of each line are executed in
/// order.
pub open spec fn applies_lines(
    thread_id: Seq<char>,
    lines: Seq<ProjectedRolloutLine>,
    states: Seq<HistoryTables>,
) -> bool {
    &&& states.len() == lines.len() + 1
    &&& forall|i: int|
        0 <= i < lines.len() ==> applies_line(
            thread_id,
            #[trigger] lines[i],
            states[i],
            states[i + 1],
        )
}

/// Whether every turn and every item that a change set names is stored.
pub open spec fn names_stored_rows(
    thread_id: Seq<char>,
    changes: ThreadHistoryChangeSet,
    tables: HistoryTables,
) -> bool {
    &&& forall|i: int|
        0 <= i < changes.changed_turns@.len() ==> tables.turns.contains_key(
            (thread_id, (#[trigger] changes.changed_turns@[i]).turn_id@),
        )
    &&& forall|i: int|
        0 <= i < changes.changed_items@.len() ==> tables.items.contains_key(
            (
                thread_id,
                (#[trigger] changes.changed_items@[i]).turn_id@,
                changes.changed_items@[i].item_id@,
            ),
        )
}

proof fn turns_are_stored(
    thread_id: Seq<char>,
    position: LinePosition,
    turns: Seq<TurnChange>,
    before: HistoryTables,
    after: HistoryTables,
)
    requires
        executes_all(all_turn_statements(thread_id, position, turns), before, after),
    ensures
        forall|i: int|
            0 <= i < turns.len() ==> after.turns.contains_key(
                (thread_id, (#[trigger] turns[i]).turn_id@),
            ),
    decreases turns.len(),
{
    if turns.len() > 0 {
        let added = turn_statements(thread_id, position, turns.last());
        let earlier = all_turn_statements(thread_id, position, turns.drop_last());
        assert(added =~= seq![added[0]] + seq![added[1]]);
        let middle = executes_in_parts(earlier, added, before, after);
        turns_are_stored(thread_id, position, turns.drop_last(), before, middle);
        let upserted = executes_in_parts(seq![added[0]], seq![added[1]], middle, after);
        executes_one(added[0], middle, upserted);
        executes_one(added[1], upserted, after);
        assert forall|i: int| 0 <= i < turns.len() implies after.turns.contains_key(
            (thread_id, (#[trigger] turns[i]).turn_id@),
        ) by {
            if i < turns.len() - 1 {
                assert(turns.drop_last()[i] == turns[i]);
            }
        }
    }
}

proof fn items_are_stored(
    thread_id: Seq<char>,
    position: LinePosition,
    items: Seq<ItemChange>,
    before: HistoryTables,
    after: HistoryTables,
)
    requires
        executes_all(all_item_statements(thread_id, position, items), before, after),
    ensures
        forall|i: int|
            0 <= i < items.len() ==> after.items.contains_key(
                (thread_id, (#[trigger] items[i]).turn_id@, items[i].item_id@),
            ),
    decreases items.len(),
{
    if items.len() > 0 {
        let added = item_statements(thread_id, position, items.last());
        let summary = summary_statements(thread_id, items.last());
        let earlier = all_item_statements(thread_id, position, items.drop_last());
        assert(added =~= seq![added[0]] + summary);
        let middle = executes_in_parts(earlier, added, before, after);
        items_are_stored(thread_id, position, items.drop_last(), before, middle);
        let upserted = executes_in_parts(seq![added[0]], summary, middle, after);
        executes_one(added[0], middle, upserted);
        if summary.len() == 0 {
            assert(summary =~= Seq::empty());
            executes_none(upserted, after);
        } else {
            assert(summary =~= seq![summary[0]]);
            executes_one(summary[0], upserted, after);
        }
        assert forall|i: int| 0 <= i < items.len() implies after.items.contains_key(
            (thread_id, (#[trigger] items[i]).turn_id@, items[i].item_id@),
        ) by {
            if i < items.len() - 1 {
                assert(items.drop_last()[i] == items[i]);
            }
        }
    }
}

/// Every turn and every item that a change set names has a row after its statements are executed.
pub proof fn changes_are_stored(
    thread_id: Seq<char>,
    position: LinePosition,
    changes: ThreadHistoryChangeSet,
    before: HistoryTables,
    after: HistoryTables,
)
    requires
        executes_all(change_set_statements(thread_id, position, changes), before, after),
    ensures
        names_stored_rows(thread_id, changes, after),
{
    let turns = all_turn_statements(thread_id, position, changes.changed_turns@);
    let items = all_item_statements(thread_id, position, changes.changed_items@);
    let middle = executes_in_parts(turns, items, before, after);
    turns_are_stored(thread_id, position, changes.changed_turns@, before, middle);
    items_are_stored(thread_id, position, changes.changed_items@, middle, after);
    item_statements_spare_ended_turns(thread_id, position, changes.changed_items@);
    first_records_survive(items, position.ordinal, middle, after);
}

proof fn turns_in_parts(
    thread_id: Seq<char>,
    position: LinePosition,
    first: Seq<TurnChange>,
    second: Seq<TurnChange>,
)
    ensures
        all_turn_statements(thread_id, position, first + second) == all_turn_statements(
            thread_id,
            position,
            first,
        ) + all_turn_statements(thread_id, position, second),
    decreases second.len(),
{
    if second.len() == 0 {
        assert(first + second =~= first);
        assert(all_turn_statements(thread_id, position, first) + Seq::<BoundSql>::empty()
            =~= all_turn_statements(thread_id, position, first));
    } else {
        let both = first + second;
        assert(both.drop_last() =~= first + second.drop_last());
        turns_in_parts(thread_id, position, first, second.drop_last());
        assert(all_turn_statements(thread_id, position, both) =~= all_turn_statements(
            thread_id,
            position,
            first,
        ) + all_turn_statements(thread_id, position, second));
    }
}

proof fn items_in_parts(
    thread_id: Seq<char>,
    position: LinePosition,
    first: Seq<ItemChange>,
    second: Seq<ItemChange>,
)
    ensures
        all_item_statements(thread_id, position, first + second) == all_item_statements(
            thread_id,
            position,
            first,
        ) + all_item_statements(thread_id, position, second),
    decreases second.len(),
{
    if second.len() == 0 {
        assert(first + second =~= first);
        assert(all_item_statements(thread_id, position, first) + Seq::<BoundSql>::empty()
            =~= all_item_statements(thread_id, position, first));
    } else {
        let both = first + second;
        assert(both.drop_last() =~= first + second.drop_last());
        items_in_parts(thread_id, position, first, second.drop_last());
        assert(all_item_statements(thread_id, position, both) =~= all_item_statements(
            thread_id,
            position,
            first,
        ) + all_item_statements(thread_id, position, second));
    }
}

/// A change set does what two change sets at the same place do one after the other, if it holds the
/// turns and then the items of both and nothing but items follows an item.
pub proof fn changes_apply_in_parts(
    thread_id: Seq<char>,
    position: LinePosition,
    changes: ThreadHistoryChangeSet,
    first: ThreadHistoryChangeSet,
    second: ThreadHistoryChangeSet,
)
    requires
        changes.changed_turns@ == first.changed_turns@ + second.changed_turns@,
        changes.changed_items@ == first.changed_items@ + second.changed_items@,
        first.changed_items@.len() == 0 || second.changed_turns@.len() == 0,
    ensures
        change_set_statements(thread_id, position, changes) == change_set_statements(
            thread_id,
            position,
            first,
        ) + change_set_statements(thread_id, position, second),
{
    turns_in_parts(thread_id, position, first.changed_turns@, second.changed_turns@);
    items_in_parts(thread_id, position, first.changed_items@, second.changed_items@);
    assert(change_set_statements(thread_id, position, changes) =~= change_set_statements(
        thread_id,
        position,
        first,
    ) + change_set_statements(thread_id, position, second));
}

proof fn line_is_applied(
    thread_id: Seq<char>,
    store_lines: bool,
    line: ProjectedRolloutLine,
    before: HistoryTables,
    after: HistoryTables,
) -> (changed: HistoryTables)
    requires
        line.ordinal <= i64::MAX,
        line.start_byte_offset <= i64::MAX,
        line.end_byte_offset <= i64::MAX,
        executes_all(line_statements(thread_id, store_lines, line), before, after),
    ensures
        executes_all(
            change_set_statements(thread_id, stored_position(line), line.changes),
            before,
            changed,
        ),
        same_history(changed, after),
        applies_line(thread_id, line, before, after),
        keeps_first_records(before, after),
        names_stored_rows(thread_id, line.changes, after),
        after.progress == before.progress,
        !store_lines ==> after.events == before.events,
{
    let position = stored_position(line);
    let changes = change_set_statements(thread_id, position, line.changes);
    let changed = if store_lines {
        let event = event_statement(thread_id, line);
        assert(line_statements(thread_id, store_lines, line) =~= changes + seq![event]);
        let changed = executes_in_parts(changes, seq![event], before, after);
        executes_one(event, changed, after);
        changed
    } else {
        after
    };
    turn_statements_spare_ended_turns(thread_id, position, line.changes.changed_turns@);
    item_statements_spare_ended_turns(thread_id, position, line.changes.changed_items@);
    first_records_survive(changes, position.ordinal, before, changed);
    changes_leave_lines(changes, position.ordinal, before, changed);
    changes_are_stored(thread_id, position, line.changes, before, changed);
    assert(stands_at(position, line));
    changed
}

proof fn lines_are_applied(
    thread_id: Seq<char>,
    first: int,
    store_lines: bool,
    lines: Seq<ProjectedRolloutLine>,
    before: HistoryTables,
    after: HistoryTables,
) -> (states: Seq<HistoryTables>)
    requires
        lines_plan(thread_id, first, store_lines, lines).failure is None,
        executes_all(lines_plan(thread_id, first, store_lines, lines).statements, before, after),
    ensures
        applies_lines(thread_id, lines, states),
        states[0] == before,
        states.last() == after,
        keeps_first_records(before, after),
        forall|i: int|
            0 <= i < lines.len() ==> names_stored_rows(
                thread_id,
                (#[trigger] lines[i]).changes,
                after,
            ),
        after.progress == before.progress,
        !store_lines ==> after.events == before.events,
    decreases lines.len(),
{
    if lines.len() == 0 {
        executes_none(before, after);
        seq![before]
    } else {
        let line = lines.last();
        let earlier = lines.drop_last();
        let middle = executes_in_parts(
            lines_plan(thread_id, first, store_lines, earlier).statements,
            line_statements(thread_id, store_lines, line),
            before,
            after,
        );
        let states = lines_are_applied(thread_id, first, store_lines, earlier, before, middle);
        let changed = line_is_applied(thread_id, store_lines, line, middle, after);
        let all = states.push(after);
        assert forall|i: int| 0 <= i < lines.len() implies applies_line(
            thread_id,
            #[trigger] lines[i],
            all[i],
            all[i + 1],
        ) by {
            if i < earlier.len() {
                assert(earlier[i] == lines[i]);
            }
        }
        assert forall|i: int| 0 <= i < lines.len() implies names_stored_rows(
            thread_id,
            (#[trigger] lines[i]).changes,
            after,
        ) by {
            if i < earlier.len() {
                assert(earlier[i] == lines[i]);
                assert(names_stored_rows(thread_id, lines[i].changes, middle));
            }
        }
        all
    }
}

/// Whether or not the lines themselves are stored, a projection that does not fail leaves the turns
/// and the items that executing the changes of each line in order, at the line's position, leaves.
/// Every turn and every item that a line names is stored, nothing that was stored is lost, and the
/// progress goes on after the lines. Where the lines are not stored, the stored ones stay as they
/// are.
pub proof fn projection_applies_every_line(
    thread_id: Seq<char>,
    start_offset: int,
    next_offset: int,
    state: Option<(i64, i64)>,
    store_lines: bool,
    lines: Seq<ProjectedRolloutLine>,
    before: HistoryTables,
    after: HistoryTables,
) -> (states: Seq<HistoryTables>)
    requires
        projection_plan(
            thread_id,
            start_offset,
            next_offset,
            state,
            store_lines,
            lines,
        ).failure is None,
        executes_all(
            projection_plan(
                thread_id,
                start_offset,
                next_offset,
                state,
                store_lines,
                lines,
            ).statements,
            before,
            after,
        ),
        next_offset >= 0,
    ensures
        applies_lines(thread_id, lines, states),
        states[0] == before,
        same_history(states.last(), after),
        keeps_first_records(before, after),
        forall|i: int|
            0 <= i < lines.len() ==> names_stored_rows(
                thread_id,
                (#[trigger] lines[i]).changes,
                after,
            ),
        !store_lines ==> after.events == before.events,
        ({
            let first = match state {
                Some(stored) => stored.1 as int,
                None => 0,
            };
            &&& after.progress.dom() == before.progress.dom().insert(thread_id)
            &&& after.progress[thread_id].0 == next_offset
            &&& after.progress[thread_id].1 == first + lines.len()
            &&& forall|other: Seq<char>|
                other != thread_id ==> #[trigger] after.progress[other] == before.progress[other]
        }),
{
    let first = match state {
        Some(stored) => stored.1 as int,
        None => 0,
    };
    let done = lines_plan(thread_id, first, store_lines, lines).statements;
    let stored = progress_statement(thread_id, next_offset as i64, (first + lines.len()) as i64);
    assert(done.push(stored) =~= done + seq![stored]);
    let middle = executes_in_parts(done, seq![stored], before, after);
    executes_one(stored, middle, after);
    if lines.len() > 0 {
        projected_lines_are_in_order(thread_id, first, store_lines, lines);
        assert(lines[0].ordinal == first);
        ordinals_fit(thread_id, first, store_lines, lines);
    }
    let states = lines_are_applied(thread_id, first, store_lines, lines, before, middle);
    assert(after.progress.dom() =~= before.progress.dom().insert(thread_id));
    states
}

proof fn only_line_is_applied(
    thread_id: Seq<char>,
    first: int,
    store_lines: bool,
    line: ProjectedRolloutLine,
    before: HistoryTables,
    after: HistoryTables,
) -> (changed: HistoryTables)
    requires
        lines_plan(thread_id, first, store_lines, seq![line]).failure is None,
        executes_all(
            lines_plan(thread_id, first, store_lines, seq![line]).statements,
            before,
            after,
        ),
    ensures
        line.ordinal <= i64::MAX,
        line.start_byte_offset <= i64::MAX,
        line.end_byte_offset <= i64::MAX,
        executes_all(
            change_set_statements(thread_id, stored_position(line), line.changes),
            before,
            changed,
        ),
        same_history(changed, after),
{
    assert(seq![line].drop_last() =~= Seq::empty());
    assert(seq![line].last() == line);
    assert(lines_plan(thread_id, first, store_lines, Seq::empty()).statements
        =~= Seq::empty());
    assert(line_problem(thread_id, first, line) is None);
    assert(lines_plan(thread_id, first, store_lines, seq![line]).statements =~= line_statements(
        thread_id,
        store_lines,
        line,
    ));
    line_is_applied(thread_id, store_lines, line, before, after)
}

/// A projection of one line with one item that is new to the tables leaves the item at the line's
/// ordinal and with the line's time, whether or not the line itself is stored. No other item changes.
pub proof fn projected_item_gets_the_place_of_its_line(
    thread_id: Seq<char>,
    start_offset: int,
    next_offset: int,
    state: Option<(i64, i64)>,
    store_lines: bool,
    line: ProjectedRolloutLine,
    item: ItemChange,
    before: HistoryTables,
    after: HistoryTables,
)
    requires
        projection_plan(
            thread_id,
            start_offset,
            next_offset,
            state,
            store_lines,
            seq![line],
        ).failure is None,
        executes_all(
            projection_plan(
                thread_id,
                start_offset,
                next_offset,
                state,
                store_lines,
                seq![line],
            ).statements,
            before,
            after,
        ),
        line.changes.changed_items@ == seq![item],
        !before.items.contains_key((thread_id, item.turn_id@, item.item_id@)),
    ensures
        ({
            let key = (thread_id, item.turn_id@, item.item_id@);
            let row = after.items[key];
            &&& after.items.dom() == before.items.dom().insert(key)
            &&& row.rollout_ordinal == line.ordinal
            &&& row.updated_at_ordinal == line.ordinal
            &&& row.created_at_ms == line.created_at_ms
            &&& row.item_json == item.item_json@
            &&& row.item_type == match item.item {
                ThreadItem::UserMessage => "userMessage"@,
                ThreadItem::AgentMessage { .. } => "agentMessage"@,
                ThreadItem::Other => ""@,
            }
            &&& forall|other: (Seq<char>, Seq<char>, Seq<char>)|
                other != key ==> #[trigger] after.items[other] == before.items[other]
        }),
{
    let first = match state {
        Some(stored) => stored.1 as int,
        None => 0,
    };
    let done = lines_plan(thread_id, first, store_lines, seq![line]).statements;
    let stored = progress_statement(thread_id, next_offset as i64, (first + 1) as i64);
    assert(done.push(stored) =~= done + seq![stored]);
    let middle = executes_in_parts(done, seq![stored], before, after);
    executes_one(stored, middle, after);
    let changed = only_line_is_applied(thread_id, first, store_lines, line, before, middle);
    new_item_gets_the_place_of_its_line(
        thread_id,
        stored_position(line),
        line.changes,
        item,
        before,
        changed,
    );
}

/// A projection of one line with one turn that is new to the tables leaves the turn at the line's
/// ordinal and offset, with what the record says of it, whether or not the line itself is stored. No
/// other turn changes, and no item.
pub proof fn projected_turn_gets_the_place_of_its_line(
    thread_id: Seq<char>,
    start_offset: int,
    next_offset: int,
    state: Option<(i64, i64)>,
    store_lines: bool,
    line: ProjectedRolloutLine,
    turn: TurnChange,
    before: HistoryTables,
    after: HistoryTables,
)
    requires
        projection_plan(
            thread_id,
            start_offset,
            next_offset,
            state,
            store_lines,
            seq![line],
        ).failure is None,
        executes_all(
            projection_plan(
                thread_id,
                start_offset,
                next_offset,
                state,
                store_lines,
                seq![line],
            ).statements,
            before,
            after,
        ),
        line.changes.changed_turns@ == seq![turn],
        line.changes.changed_items@.len() == 0,
        !before.turns.contains_key((thread_id, turn.turn_id@)),
    ensures
        ({
            let key = (thread_id, turn.turn_id@);
            let row = after.turns[key];
            &&& after.turns.dom() == before.turns.dom().insert(key)
            &&& row.rollout_ordinal == line.ordinal
            &&& row.rollout_byte_offset == line.start_byte_offset
            &&& row.error_json == optional_text(turn.error_json)
            &&& row.started_at == turn.started_at
            &&& row.completed_at == turn.completed_at
            &&& row.duration_ms == turn.duration_ms
            &&& turn.status is InProgress ==> row.status == "inProgress"@
                && row.rollout_end_ordinal is None && row.rollout_end_byte_offset is None
            &&& !(turn.status is InProgress) ==> {
                &&& row.rollout_end_ordinal matches Some(end) && end == line.ordinal
                &&& row.rollout_end_byte_offset matches Some(end) && end == line.end_byte_offset
            }
            &&& turn.status is Completed ==> row.status == "completed"@
            &&& turn.status is Interrupted ==> row.status == "interrupted"@
            &&& turn.status is Failed ==> row.status == "failed"@
            &&& forall|other: (Seq<char>, Seq<char>)|
                other != key ==> #[trigger] after.turns[other] == before.turns[other]
        }),
        after.items == before.items,
{
    let first = match state {
        Some(stored) => stored.1 as int,
        None => 0,
    };
    let done = lines_plan(thread_id, first, store_lines, seq![line]).statements;
    let stored = progress_statement(thread_id, next_offset as i64, (first + 1) as i64);
    assert(done.push(stored) =~= done + seq![stored]);
    let middle = executes_in_parts(done, seq![stored], before, after);
    executes_one(stored, middle, after);
    let changed = only_line_is_applied(thread_id, first, store_lines, line, before, middle);
    new_turn_gets_the_place_of_its_line(
        thread_id,
        stored_position(line),
        line.changes,
        turn,
        before,
        changed,
    );
}

/// Whether `all` is `some` with statements that store rollout lines put in between.
pub open spec fn adds_only_events(some: Seq<BoundSql>, all: Seq<BoundSql>) -> bool
    decreases all.len(),
{
    if all.len() == 0 {
        some.len() == 0
    } else {
        ||| some.len() > 0 && some.last() == all.last() && adds_only_events(
            some.drop_last(),
            all.drop_last(),
        )
        ||| all.last().sql == UPSERT_ROLLOUT_EVENT@ && adds_only_events(some, all.drop_last())
    }
}

proof fn common_statements_add_nothing(
    some: Seq<BoundSql>,
    all: Seq<BoundSql>,
    common: Seq<BoundSql>,
)
    requires
        adds_only_events(some, all),
    ensures
        adds_only_events(some + common, all + common),
    decreases common.len(),
{
    if common.len() == 0 {
        assert(some + common =~= some);
        assert(all + common =~= all);
    } else {
        common_statements_add_nothing(some, all, common.drop_last());
        assert((some + common).drop_last() =~= some + common.drop_last());
        assert((all + common).drop_last() =~= all + common.drop_last());
        assert((some + common).last() == common.last());
        assert((all + common).last() == common.last());
    }
}

proof fn stored_lines_add_events(
    thread_id: Seq<char>,
    first: int,
    lines: Seq<ProjectedRolloutLine>,
)
    ensures
        lines_plan(thread_id, first, true, lines).failure == lines_plan(
            thread_id,
            first,
            false,
            lines,
        ).failure,
        adds_only_events(
            lines_plan(thread_id, first, false, lines).statements,
            lines_plan(thread_id, first, true, lines).statements,
        ),
    decreases lines.len(),
{
    if lines.len() > 0 {
        let line = lines.last();
        stored_lines_add_events(thread_id, first, lines.drop_last());
        let some = lines_plan(thread_id, first, false, lines.drop_last()).statements;
        let all = lines_plan(thread_id, first, true, lines.drop_last()).statements;
        let changes = change_set_statements(thread_id, stored_position(line), line.changes);
        common_statements_add_nothing(some, all, changes);
        let event = event_statement(thread_id, line);
        assert(line_statements(thread_id, true, line) == changes.push(event));
        assert(all + changes.push(event) =~= (all + changes).push(event));
        assert((all + changes).push(event).drop_last() =~= all + changes);
        assert(adds_only_events(some + changes, (all + changes).push(event)));
    }
}

/// A projection that stores its lines fails where one that does not store them fails, and executes the
/// same statements in the same order but for those that store lines.
pub proof fn storing_lines_adds_only_events(
    thread_id: Seq<char>,
    start_offset: int,
    next_offset: int,
    state: Option<(i64, i64)>,
    lines: Seq<ProjectedRolloutLine>,
)
    ensures
        ({
            let with = projection_plan(
                thread_id,
                start_offset,
                next_offset,
                state,
                true,
                lines,
            );
            let without = projection_plan(
                thread_id,
                start_offset,
                next_offset,
                state,
                false,
                lines,
            );
            &&& with.failure == without.failure
            &&& adds_only_events(without.statements, with.statements)
        }),
{
    let first = match state {
        Some(stored) => stored.1 as int,
        None => 0,
    };
    stored_lines_add_events(thread_id, first, lines);
    let some = lines_plan(thread_id, first, false, lines).statements;
    let all = lines_plan(thread_id, first, true, lines).statements;
    let stored = progress_statement(thread_id, next_offset as i64, (first + lines.len()) as i64);
    assert(some.push(stored).drop_last() =~= some);
    assert(all.push(stored).drop_last() =~= all);
    assert(adds_only_events(some.push(stored), all.push(stored)));
}

proof fn lines_succeed_exactly(
    thread_id: Seq<char>,
    first: int,
    store_lines: bool,
    lines: Seq<ProjectedRolloutLine>,
)
    ensures
        lines_plan(thread_id, first, store_lines, lines).failure is None <==> ((lines.len() > 0
            ==> first + lines.len() <= i64::MAX) && forall|i: int|
            0 <= i < lines.len() ==> (#[trigger] lines[i]).ordinal == first + i
                && lines[i].start_byte_offset <= i64::MAX && lines[i].end_byte_offset <= i64::MAX),
    decreases lines.len(),
{
    if lines.len() > 0 {
        let earlier = lines.drop_last();
        lines_succeed_exactly(thread_id, first, store_lines, earlier);
        assert forall|i: int| 0 <= i < earlier.len() implies #[trigger] earlier[i] == lines[i] by {}
        assert(lines.last() == lines[lines.len() - 1]);
        if lines_plan(thread_id, first, store_lines, lines).failure is None {
            assert forall|i: int| 0 <= i < lines.len() implies (#[trigger] lines[i]).ordinal
                == first + i && lines[i].start_byte_offset <= i64::MAX && lines[i].end_byte_offset
                <= i64::MAX by {
                if i < earlier.len() {
                    assert(earlier[i] == lines[i]);
                }
            }
        }
        if first + lines.len() <= i64::MAX && forall|i: int|
            0 <= i < lines.len() ==> (#[trigger] lines[i]).ordinal == first + i
                && lines[i].start_byte_offset <= i64::MAX && lines[i].end_byte_offset <= i64::MAX {
            assert forall|i: int| 0 <= i < earlier.len() implies (#[trigger] earlier[i]).ordinal
                == first + i && earlier[i].start_byte_offset <= i64::MAX
                && earlier[i].end_byte_offset <= i64::MAX by {
                assert(earlier[i] == lines[i]);
            }
        }
    }
}

/// A projection succeeds exactly if it starts at the stored offset, its lines carry the ordinals from
/// the stored one on, and all offsets and the next ordinal are integers that a database can store.
/// Whether the lines themselves are stored makes no difference.
pub proof fn projection_succeeds_exactly(
    thread_id: Seq<char>,
    start_offset: int,
    next_offset: int,
    offset: i64,
    first: i64,
    store_lines: bool,
    lines: Seq<ProjectedRolloutLine>,
)
    ensures
        projection_plan(
            thread_id,
            start_offset,
            next_offset,
            Some((offset, first)),
            store_lines,
            lines,
        ).failure is None <==> {
            &&& start_offset == offset
            &&& next_offset <= i64::MAX
            &&& first + lines.len() <= i64::MAX
            &&& forall|i: int|
                0 <= i < lines.len() ==> (#[trigger] lines[i]).ordinal == first + i
                    && lines[i].start_byte_offset <= i64::MAX && lines[i].end_byte_offset
                    <= i64::MAX
        },
        projection_plan(thread_id, start_offset, next_offset, None, store_lines, lines)
            == projection_plan(
            thread_id,
            start_offset,
            next_offset,
            Some((0, 0)),
            store_lines,
            lines,
        ),
{
    lines_succeed_exactly(thread_id, first as int, store_lines, lines);
}

/// A line is stored under its ordinal with its span, its time, its types and its text.
pub proof fn stored_line_holds_the_line(
    thread_id: Seq<char>,
    start_offset: int,
    next_offset: int,
    state: Option<(i64, i64)>,
    count: int,
    lines: Seq<ProjectedRolloutLine>,
    before: HistoryTables,
    after: HistoryTables,
    index: int,
)
    requires
        count == match state {
            Some(state) => state.1 as int,
            None => 0,
        },
        count >= 0,
        has_lines(before, thread_id, count),
        projection_plan(
            thread_id,
            start_offset,
            next_offset,
            state,
            true,
            lines,
        ).failure is None,
        executes_all(
            projection_plan(
                thread_id,
                start_offset,
                next_offset,
                state,
                true,
                lines,
            ).statements,
            before,
            after,
        ),
        0 <= index < lines.len(),
    ensures
        after.events.contains_key((thread_id, (count + index) as i64)),
        ({
            let line = lines[index];
            let row = after.events[(thread_id, (count + index) as i64)];
            &&& line.ordinal == (count + index) as i64
            &&& row.rollout_byte_offset == line.start_byte_offset
            &&& row.rollout_end_byte_offset == line.end_byte_offset
            &&& row.created_at_ms == line.created_at_ms
            &&& row.line_type == line.line_type@
            &&& line.payload_type is None ==> row.payload_type is None
            &&& line.payload_type matches Some(text) ==> row.payload_type == Some(text@)
            &&& row.raw_json == line.raw_json@
        }),
{
    appended_lines_follow_the_stored_ones(
        thread_id,
        start_offset,
        next_offset,
        state,
        count,
        lines,
        before,
        after,
    );
    lines_succeed_exactly(thread_id, count, true, lines);
    let line = lines[index];
    assert(line.ordinal == count + index);
    assert(has_lines(after, thread_id, count + lines.len()));
    assert(after.events.contains_key((thread_id, (count + index) as i64)));
}

/// Whether a thread has a line with session metadata under an ordinal.
pub open spec fn has_session_meta(tables: HistoryTables, thread_id: Seq<char>, ordinal: i64) -> bool {
    &&& tables.events.contains_key((thread_id, ordinal))
    &&& tables.events[(thread_id, ordinal)].line_type == "session_meta"@
}

/// Whether `row` is what the database gives of a thread's session metadata: the line of that type with
/// the lowest ordinal, with a text of the JSON value that was stored, or nothing if there is none.
pub open spec fn reads_session_meta(
    tables: HistoryTables,
    thread_id: Seq<char>,
    row: Option<Row>,
) -> bool {
    match row {
        None => forall|ordinal: i64| !#[trigger] has_session_meta(tables, thread_id, ordinal),
        Some(row) => exists|ordinal: i64|
            {
                &&& #[trigger] has_session_meta(tables, thread_id, ordinal)
                &&& forall|other: i64| #[trigger]
                    has_session_meta(tables, thread_id, other) ==> ordinal <= other
                &&& raw_line(row) matches Some(raw) && parsed_json(raw) == parsed_json(
                    tables.events[(thread_id, ordinal)].raw_json,
                )
            },
    }
}

/// The session metadata of a thread is read from the first line whose member `type` is `session_meta`,
/// whatever else the line holds: if no such line is stored and one is appended, it is the one that is
/// read after that. `values` are the JSON forms of the appended lines, as far as they have one.
pub proof fn session_metadata_is_read_back(
    thread_id: Seq<char>,
    start_offset: int,
    next_offset: int,
    state: Option<(i64, i64)>,
    count: int,
    lines: Seq<ProjectedRolloutLine>,
    values: Seq<Option<Value>>,
    before: HistoryTables,
    after: HistoryTables,
    index: int,
    row: Option<Row>,
)
    requires
        count == match state {
            Some(state) => state.1 as int,
            None => 0,
        },
        count >= 0,
        has_lines(before, thread_id, count),
        projection_plan(
            thread_id,
            start_offset,
            next_offset,
            state,
            true,
            lines,
        ).failure is None,
        executes_all(
            projection_plan(
                thread_id,
                start_offset,
                next_offset,
                state,
                true,
                lines,
            ).statements,
            before,
            after,
        ),
        values.len() == lines.len(),
        forall|i: int|
            0 <= i < lines.len() ==> (#[trigger] lines[i]).line_type@ == line_type_text(values[i]),
        0 <= index < lines.len(),
        values[index] matches Some(value) && has_string(value, "type"@, "session_meta"@),
        forall|i: int|
            0 <= i < index ==> !(#[trigger] values[i] matches Some(value) && has_string(
                value,
                "type"@,
                "session_meta"@,
            )),
        reads_session_meta(before, thread_id, None),
        reads_session_meta(after, thread_id, row),
    ensures
        row is Some,
        stored_item(row->0) == line_item(lines[index]),
{
    appended_lines_follow_the_stored_ones(
        thread_id,
        start_offset,
        next_offset,
        state,
        count,
        lines,
        before,
        after,
    );
    let ordinal = (count + index) as i64;
    stored_line_holds_the_line(
        thread_id,
        start_offset,
        next_offset,
        state,
        count,
        lines,
        before,
        after,
        index,
    );
    line_type_is_the_lines_own(values[index], "session_meta"@);
    assert(lines[index].line_type@ == line_type_text(values[index]));
    assert(has_session_meta(after, thread_id, ordinal));
    assert("session_meta"@ != "unknown"@) by {
        reveal_strlit("session_meta");
        reveal_strlit("unknown");
        assert("session_meta"@.len() == 12);
        assert("unknown"@.len() == 7);
    }
    assert forall|other: i64| #[trigger] has_session_meta(after, thread_id, other) implies ordinal
        <= other by {
        assert(after.events.contains_key((thread_id, other)));
        if other < count {
            assert(after.events[(thread_id, other as int as i64)] == before.events[(
                thread_id,
                other as int as i64,
            )]);
            assert(before.events.contains_key((thread_id, other)));
            assert(has_session_meta(before, thread_id, other));
        } else if other < ordinal {
            let earlier = other - count;
            stored_line_holds_the_line(
                thread_id,
                start_offset,
                next_offset,
                state,
                count,
                lines,
                before,
                after,
                earlier,
            );
            assert(lines[earlier].line_type@ == line_type_text(values[earlier]));
            line_type_is_the_lines_own(values[earlier], "session_meta"@);
            assert(values[earlier] is Some || values[earlier] is None);
        }
    }
    let found = row->0;
    let read = choose|read: i64|
        {
            &&& #[trigger] has_session_meta(after, thread_id, read)
            &&& forall|other: i64| #[trigger]
                has_session_meta(after, thread_id, other) ==> read <= other
            &&& raw_line(found) matches Some(raw) && parsed_json(raw) == parsed_json(
                after.events[(thread_id, read)].raw_json,
            )
        };
    assert(row is Some);
    assert(read == ordinal);
}

/// Session metadata that is stored stays what is read, whatever lines are appended.
pub proof fn stored_session_metadata_stays(
    thread_id: Seq<char>,
    start_offset: int,
    next_offset: int,
    state: Option<(i64, i64)>,
    count: int,
    lines: Seq<ProjectedRolloutLine>,
    before: HistoryTables,
    after: HistoryTables,
    old_row: Row,
    row: Option<Row>,
)
    requires
        count == match state {
            Some(state) => state.1 as int,
            None => 0,
        },
        count >= 0,
        has_lines(before, thread_id, count),
        projection_plan(
            thread_id,
            start_offset,
            next_offset,
            state,
            true,
            lines,
        ).failure is None,
        executes_all(
            projection_plan(
                thread_id,
                start_offset,
                next_offset,
                state,
                true,
                lines,
            ).statements,
            before,
            after,
        ),
        reads_session_meta(before, thread_id, Some(old_row)),
        reads_session_meta(after, thread_id, row),
    ensures
        row is Some,
        stored_item(row->0) == stored_item(old_row),
{
    appended_lines_follow_the_stored_ones(
        thread_id,
        start_offset,
        next_offset,
        state,
        count,
        lines,
        before,
        after,
    );
    let first = choose|first: i64|
        {
            &&& #[trigger] has_session_meta(before, thread_id, first)
            &&& forall|other: i64| #[trigger]
                has_session_meta(before, thread_id, other) ==> first <= other
            &&& raw_line(old_row) matches Some(raw) && parsed_json(raw) == parsed_json(
                before.events[(thread_id, first)].raw_json,
            )
        };
    assert(before.events.contains_key((thread_id, first)));
    assert(after.events[(thread_id, first as int as i64)] == before.events[(
        thread_id,
        first as int as i64,
    )]);
    assert(after.events.contains_key((thread_id, first)));
    assert(has_session_meta(after, thread_id, first));
    assert forall|other: i64| #[trigger] has_session_meta(after, thread_id, other) implies first
        <= other by {
        assert(after.events.contains_key((thread_id, other)));
        if other < count {
            assert(after.events[(thread_id, other as int as i64)] == before.events[(
                thread_id,
                other as int as i64,
            )]);
            assert(before.events.contains_key((thread_id, other)));
            assert(has_session_meta(before, thread_id, other));
        }
    }
    let found = row->0;
    let read = choose|read: i64|
        {
            &&& #[trigger] has_session_meta(after, thread_id, read)
            &&& forall|other: i64| #[trigger]
                has_session_meta(after, thread_id, other) ==> read <= other
            &&& raw_line(found) matches Some(raw) && parsed_json(raw) == parsed_json(
                after.events[(thread_id, read)].raw_json,
            )
        };
    assert(row is Some);
    assert(read == first);
}

} // verus!
