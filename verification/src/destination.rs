//! What a migration leaves in the tables of its destination.
//!
//! The inserts of a migration are upserts: a row that the destination has already is updated in
//! place. The specifications here say what such an upsert does to the rows of a table.
use crate::counts::{count_of, MigrationCounts};
use crate::migration::{
    answers, copied_rows, copied_rows_are_the_users, counts_are_the_copied_rows, fetched,
    fetched_rows_are_copied, is_copied, is_run, next_fetched, next_stage, place_of, run,
    MigrationEvent, Stage,
};
use crate::sqlite::{sqlite_cells, SqliteCell};
use crate::table_copy::{
    copied_datum, keys_are_not_updated, updated_columns, values_arrive_as_stored, CopySpec,
};
use crate::tables::{
    copies_are_consistent, copy_spec, is_consistent, place, tables_follow_one_another, MigratedTable,
};
use crate::text::texts;
use crate::value::SqlDatum;
use sqlx::sqlite::SqliteRow;
use vstd::prelude::*;

verus! {

/// A row of the destination, by column name.
pub type StoredRow = Map<Seq<char>, SqlDatum>;

/// The rows of a table of the destination, by the values of the columns that identify them.
pub type StoredTable = Map<Seq<SqlDatum>, StoredRow>;

/// What a row is copied as, by column name.
pub open spec fn copied_row(copy: CopySpec, cells: Map<Seq<char>, SqliteCell>) -> StoredRow {
    Map::new(
        |column: Seq<char>| copy.columns.contains(column),
        |column: Seq<char>| copied_datum(cells, column, copy)->0,
    )
}

/// The values that identify a row that is copied.
pub open spec fn copied_key(
    copy: CopySpec,
    cells: Map<Seq<char>, SqliteCell>,
) -> Seq<SqlDatum> {
    copy.conflict_columns.map_values(
        |column: Seq<char>| copied_datum(cells, column, copy)->0,
    )
}

/// What a copy takes over from a row into the row that the destination has already.
pub open spec fn update_of(copy: CopySpec, cells: Map<Seq<char>, SqliteCell>) -> StoredRow {
    Map::new(
        |column: Seq<char>| updated_columns(copy).contains(column),
        |column: Seq<char>| copied_datum(cells, column, copy)->0,
    )
}

/// A table after the insert of a row whose key holds no null. Columns that are not copied keep their
/// value, or get their default in a new row.
pub open spec fn upserted(
    copy: CopySpec,
    defaults: StoredRow,
    stored: StoredTable,
    cells: Map<Seq<char>, SqliteCell>,
) -> StoredTable {
    let key = copied_key(copy, cells);
    if stored.contains_key(key) {
        stored.insert(key, stored[key].union_prefer_right(update_of(copy, cells)))
    } else {
        stored.insert(key, defaults.union_prefer_right(copied_row(copy, cells)))
    }
}

/// A table after the inserts of rows, in order.
pub open spec fn all_upserted(
    copy: CopySpec,
    defaults: StoredRow,
    stored: StoredTable,
    rows: Seq<SqliteRow>,
) -> StoredTable
    decreases rows.len(),
{
    if rows.len() == 0 {
        stored
    } else {
        upserted(
            copy,
            defaults,
            all_upserted(copy, defaults, stored, rows.drop_last()),
            sqlite_cells(rows.last()),
        )
    }
}

/// Whether a value is null.
pub open spec fn is_null(datum: SqlDatum) -> bool {
    match datum {
        SqlDatum::Bool(value) => value is None,
        SqlDatum::SmallInt(value) => value is None,
        SqlDatum::Int(value) => value is None,
        SqlDatum::Integer(value) => value is None,
        SqlDatum::Text(value) => value is None,
        SqlDatum::Bytes(value) => value is None,
    }
}

/// Whether each of the rows has a key of its own, without nulls.
pub open spec fn has_keys(copy: CopySpec, rows: Seq<SqliteRow>) -> bool {
    &&& forall|i: int, j: int|
        0 <= i < rows.len() && 0 <= j < rows.len() && copied_key(
            copy,
            sqlite_cells(#[trigger] rows[i]),
        ) == copied_key(copy, sqlite_cells(#[trigger] rows[j])) ==> i == j
    &&& forall|i: int, k: int|
        0 <= i < rows.len() && 0 <= k < copy.conflict_columns.len() ==> !is_null(
            #[trigger] copied_key(copy, sqlite_cells(rows[i]))[k],
        )
}

/// Whether a table holds what a row is copied as.
pub open spec fn holds(
    copy: CopySpec,
    stored: StoredTable,
    cells: Map<Seq<char>, SqliteCell>,
) -> bool {
    let key = copied_key(copy, cells);
    &&& stored.contains_key(key)
    &&& forall|column: Seq<char>| #[trigger]
        updated_columns(copy).contains(column) ==> stored[key].contains_pair(
            column,
            copied_datum(cells, column, copy)->0,
        )
}

proof fn insert_is_held(
    copy: CopySpec,
    defaults: StoredRow,
    stored: StoredTable,
    cells: Map<Seq<char>, SqliteCell>,
)
    ensures
        holds(copy, upserted(copy, defaults, stored, cells), cells),
{
    let key = copied_key(copy, cells);
    let after = upserted(copy, defaults, stored, cells);
    assert forall|column: Seq<char>| #[trigger]
        updated_columns(copy).contains(column) implies after[key].contains_pair(
        column,
        copied_datum(cells, column, copy)->0,
    ) by {
        keys_are_not_updated(copy, column);
    }
}

proof fn held_rows_stay(
    copy: CopySpec,
    defaults: StoredRow,
    stored: StoredTable,
    cells: Map<Seq<char>, SqliteCell>,
)
    requires
        holds(copy, stored, cells),
    ensures
        upserted(copy, defaults, stored, cells) == stored,
{
    let key = copied_key(copy, cells);
    assert(stored[key].union_prefer_right(update_of(copy, cells)) =~= stored[key]);
    assert(stored.insert(key, stored[key]) =~= stored);
}

proof fn inserts_are_held(
    copy: CopySpec,
    defaults: StoredRow,
    stored: StoredTable,
    rows: Seq<SqliteRow>,
    index: int,
)
    requires
        has_keys(copy, rows),
        0 <= index < rows.len(),
    ensures
        holds(copy, all_upserted(copy, defaults, stored, rows), sqlite_cells(rows[index])),
    decreases rows.len(),
{
    let earlier = rows.drop_last();
    let before = all_upserted(copy, defaults, stored, earlier);
    if index == rows.len() - 1 {
        insert_is_held(copy, defaults, before, sqlite_cells(rows.last()));
    } else {
        assert(has_keys(copy, earlier)) by {
            assert forall|i: int| 0 <= i < earlier.len() implies #[trigger] earlier[i]
                == rows[i] by {}
        }
        assert(earlier[index] == rows[index]);
        inserts_are_held(copy, defaults, stored, earlier, index);
        assert(copied_key(copy, sqlite_cells(rows[index])) != copied_key(
            copy,
            sqlite_cells(rows[rows.len() - 1]),
        ));
    }
}

proof fn held_inserts_stay(
    copy: CopySpec,
    defaults: StoredRow,
    stored: StoredTable,
    rows: Seq<SqliteRow>,
)
    requires
        forall|i: int|
            0 <= i < rows.len() ==> holds(copy, stored, sqlite_cells(#[trigger] rows[i])),
    ensures
        all_upserted(copy, defaults, stored, rows) == stored,
    decreases rows.len(),
{
    if rows.len() > 0 {
        let earlier = rows.drop_last();
        assert forall|i: int| 0 <= i < earlier.len() implies holds(
            copy,
            stored,
            sqlite_cells(#[trigger] earlier[i]),
        ) by {
            assert(earlier[i] == rows[i]);
        }
        held_inserts_stay(copy, defaults, stored, earlier);
        assert(rows.last() == rows[rows.len() - 1]);
        held_rows_stay(copy, defaults, stored, sqlite_cells(rows.last()));
    }
}

/// Inserting rows that have keys a second time leaves a table as the first time left it.
pub proof fn inserts_are_idempotent(
    copy: CopySpec,
    defaults: StoredRow,
    stored: StoredTable,
    rows: Seq<SqliteRow>,
)
    requires
        has_keys(copy, rows),
    ensures
        ({
            let once = all_upserted(copy, defaults, stored, rows);
            all_upserted(copy, defaults, once, rows) == once
        }),
{
    let once = all_upserted(copy, defaults, stored, rows);
    assert forall|i: int| 0 <= i < rows.len() implies holds(
        copy,
        once,
        sqlite_cells(#[trigger] rows[i]),
    ) by {
        inserts_are_held(copy, defaults, stored, rows, i);
    }
    held_inserts_stay(copy, defaults, once, rows);
}

/// Whether two lists hold rows with the same values.
pub open spec fn same_rows(rows: Seq<SqliteRow>, others: Seq<SqliteRow>) -> bool {
    &&& rows.len() == others.len()
    &&& forall|i: int|
        0 <= i < rows.len() ==> #[trigger] sqlite_cells(rows[i]) == sqlite_cells(others[i])
}

/// Whether two events report the same.
pub open spec fn same_event(event: MigrationEvent, other: MigrationEvent) -> bool {
    match (event, other) {
        (MigrationEvent::Columns(columns), MigrationEvent::Columns(others)) => texts(columns@)
            == texts(others@),
        (MigrationEvent::Rows(rows), MigrationEvent::Rows(others)) => same_rows(rows@, others@),
        _ => event == other,
    }
}

/// Whether two sequences of events report the same.
pub open spec fn same_events(events: Seq<MigrationEvent>, others: Seq<MigrationEvent>) -> bool {
    &&& events.len() == others.len()
    &&& forall|i: int| 0 <= i < events.len() ==> #[trigger] same_event(events[i], others[i])
}

proof fn same_rows_are_copied(
    table: MigratedTable,
    rows: Seq<SqliteRow>,
    others: Seq<SqliteRow>,
    owned: Set<Seq<char>>,
    include_global: bool,
)
    requires
        same_rows(rows, others),
    ensures
        same_rows(
            copied_rows(table, rows, owned, include_global),
            copied_rows(table, others, owned, include_global),
        ),
    decreases rows.len(),
{
    reveal(Seq::filter);
    if rows.len() > 0 {
        assert forall|i: int| 0 <= i < rows.len() - 1 implies #[trigger] sqlite_cells(
            rows.drop_last()[i],
        ) == sqlite_cells(others.drop_last()[i]) by {
            assert(sqlite_cells(rows[i]) == sqlite_cells(others[i]));
        }
        same_rows_are_copied(
            table,
            rows.drop_last(),
            others.drop_last(),
            owned,
            include_global,
        );
        assert(sqlite_cells(rows[rows.len() - 1]) == sqlite_cells(others[others.len() - 1]));
        assert(is_copied(table, rows.last(), owned, include_global) == is_copied(
            table,
            others.last(),
            owned,
            include_global,
        ));
    }
}

/// Migrations for the same user in which the same happens count the same, and hand out the same
/// rows to insert.
pub proof fn same_events_have_same_outcomes(
    events: Seq<MigrationEvent>,
    others: Seq<MigrationEvent>,
    owned: Set<Seq<char>>,
    include_global: bool,
    counts: MigrationCounts,
    table: MigratedTable,
)
    requires
        same_events(events, others),
    ensures
        run(events, owned, include_global, counts) == run(others, owned, include_global, counts),
        same_rows(
            fetched(events, owned, include_global, counts, table),
            fetched(others, owned, include_global, counts, table),
        ),
        is_run(events, owned, include_global, counts) ==> is_run(
            others,
            owned,
            include_global,
            counts,
        ),
    decreases events.len(),
{
    if events.len() > 0 {
        let earlier = events.drop_last();
        let other_earlier = others.drop_last();
        assert forall|i: int| 0 <= i < earlier.len() implies #[trigger] same_event(
            earlier[i],
            other_earlier[i],
        ) by {
            assert(same_event(events[i], others[i]));
        }
        same_events_have_same_outcomes(
            earlier,
            other_earlier,
            owned,
            include_global,
            counts,
            table,
        );
        assert(same_event(events[events.len() - 1], others[others.len() - 1]));
        let stage = run(earlier, owned, include_global, counts).0;
        if let (MigrationEvent::Rows(rows), MigrationEvent::Rows(other_rows)) = (
            events.last(),
            others.last(),
        ) {
            same_rows_are_copied(table, rows@, other_rows@, owned, include_global);
            if let Stage::Fetching(current) = stage {
                same_rows_are_copied(current, rows@, other_rows@, owned, include_global);
            }
        }
    }
}

/// The rows of a table of the destination after a sequence of events, where `stored` are those
/// before it.
pub open spec fn destination(
    events: Seq<MigrationEvent>,
    owned: Set<Seq<char>>,
    include_global: bool,
    counts: MigrationCounts,
    table: MigratedTable,
    defaults: StoredRow,
    stored: StoredTable,
) -> StoredTable
    decreases events.len(),
{
    if events.len() == 0 {
        stored
    } else {
        let earlier = events.drop_last();
        let before = destination(
            earlier,
            owned,
            include_global,
            counts,
            table,
            defaults,
            stored,
        );
        match run(earlier, owned, include_global, counts).0 {
            Stage::Inserting(current, _) if current == table => all_upserted(
                copy_spec(table),
                defaults,
                before,
                fetched(earlier, owned, include_global, counts, table),
            ),
            _ => before,
        }
    }
}

/// Whether what a table holds fits its rows that were fetched: they were inserted once the table is
/// done, and the table is as before otherwise.
spec fn is_inserted(
    stage: Stage,
    table: MigratedTable,
    defaults: StoredRow,
    stored: StoredTable,
    rows: Seq<SqliteRow>,
    after: StoredTable,
) -> bool {
    if place(table) < place_of(stage) {
        after == all_upserted(copy_spec(table), defaults, stored, rows)
    } else {
        &&& after == stored
        &&& (stage matches Stage::Inserting(current, _) && current == table) || rows.len() == 0
    }
}

#[verifier::spinoff_prover]
proof fn rows_are_inserted(
    stage: Stage,
    event: MigrationEvent,
    owned: Set<Seq<char>>,
    include_global: bool,
    table: MigratedTable,
    defaults: StoredRow,
    stored: StoredTable,
    rows: Seq<SqliteRow>,
    before: StoredTable,
)
    requires
        answers(event, stage),
        is_inserted(stage, table, defaults, stored, rows, before),
    ensures
        is_inserted(
            next_stage(stage, event, owned, include_global),
            table,
            defaults,
            stored,
            next_fetched(stage, event, owned, include_global, table, rows),
            match stage {
                Stage::Inserting(current, _) if current == table => all_upserted(
                    copy_spec(table),
                    defaults,
                    before,
                    rows,
                ),
                _ => before,
            },
        ),
{
    match stage {
        Stage::Finding(current) | Stage::Fetching(current) | Stage::Inserting(current, _) => {
            tables_follow_one_another(current);
        },
        _ => {},
    }
}

proof fn inserted_so_far(
    events: Seq<MigrationEvent>,
    owned: Set<Seq<char>>,
    include_global: bool,
    counts: MigrationCounts,
    table: MigratedTable,
    defaults: StoredRow,
    stored: StoredTable,
)
    requires
        is_run(events, owned, include_global, counts),
    ensures
        is_inserted(
            run(events, owned, include_global, counts).0,
            table,
            defaults,
            stored,
            fetched(events, owned, include_global, counts, table),
            destination(events, owned, include_global, counts, table, defaults, stored),
        ),
    decreases events.len(),
{
    if events.len() > 0 {
        let earlier = events.drop_last();
        inserted_so_far(earlier, owned, include_global, counts, table, defaults, stored);
        rows_are_inserted(
            run(earlier, owned, include_global, counts).0,
            events.last(),
            owned,
            include_global,
            table,
            defaults,
            stored,
            fetched(earlier, owned, include_global, counts, table),
            destination(earlier, owned, include_global, counts, table, defaults, stored),
        );
    }
}

proof fn same_rows_leave_the_same(
    copy: CopySpec,
    defaults: StoredRow,
    stored: StoredTable,
    rows: Seq<SqliteRow>,
    others: Seq<SqliteRow>,
)
    requires
        same_rows(rows, others),
    ensures
        all_upserted(copy, defaults, stored, rows) == all_upserted(
            copy,
            defaults,
            stored,
            others,
        ),
    decreases rows.len(),
{
    if rows.len() > 0 {
        assert forall|i: int| 0 <= i < rows.len() - 1 implies #[trigger] sqlite_cells(
            rows.drop_last()[i],
        ) == sqlite_cells(others.drop_last()[i]) by {
            assert(sqlite_cells(rows[i]) == sqlite_cells(others[i]));
        }
        same_rows_leave_the_same(copy, defaults, stored, rows.drop_last(), others.drop_last());
        assert(sqlite_cells(rows[rows.len() - 1]) == sqlite_cells(others[others.len() - 1]));
    }
}

/// A migration that is repeated on the same sources counts the same, and leaves each row of the
/// destination as the first one left it, if the rows that are copied have keys.
pub proof fn repeated_migration_changes_nothing(
    first: Seq<MigrationEvent>,
    second: Seq<MigrationEvent>,
    owned: Set<Seq<char>>,
    include_global: bool,
    counts: MigrationCounts,
    table: MigratedTable,
    defaults: StoredRow,
    stored: StoredTable,
)
    requires
        is_run(first, owned, include_global, counts),
        run(first, owned, include_global, counts).0 is Finished,
        same_events(first, second),
        has_keys(copy_spec(table), fetched(first, owned, include_global, counts, table)),
    ensures
        run(second, owned, include_global, counts) == run(first, owned, include_global, counts),
        ({
            let once = destination(
                first,
                owned,
                include_global,
                counts,
                table,
                defaults,
                stored,
            );
            destination(second, owned, include_global, counts, table, defaults, once) == once
        }),
{
    let copy = copy_spec(table);
    let rows = fetched(first, owned, include_global, counts, table);
    let others = fetched(second, owned, include_global, counts, table);
    let once = destination(first, owned, include_global, counts, table, defaults, stored);
    same_events_have_same_outcomes(first, second, owned, include_global, counts, table);
    inserted_so_far(first, owned, include_global, counts, table, defaults, stored);
    inserted_so_far(second, owned, include_global, counts, table, defaults, once);
    same_rows_leave_the_same(copy, defaults, once, rows, others);
    inserts_are_idempotent(copy, defaults, stored, rows);
}

/// Whether two sequences of events report the same, up to rows that are not copied for the user.
pub open spec fn same_for_user(
    events: Seq<MigrationEvent>,
    others: Seq<MigrationEvent>,
    owned: Set<Seq<char>>,
    include_global: bool,
    counts: MigrationCounts,
) -> bool
    decreases events.len(),
{
    if events.len() == 0 {
        others.len() == 0
    } else {
        &&& others.len() == events.len()
        &&& same_for_user(
            events.drop_last(),
            others.drop_last(),
            owned,
            include_global,
            counts,
        )
        &&& match (
            run(events.drop_last(), owned, include_global, counts).0,
            events.last(),
            others.last(),
        ) {
            (
                Stage::Fetching(table),
                MigrationEvent::Rows(rows),
                MigrationEvent::Rows(other_rows),
            ) => same_rows(
                copied_rows(table, rows@, owned, include_global),
                copied_rows(table, other_rows@, owned, include_global),
            ),
            (_, event, other) => same_event(event, other),
        }
    }
}

/// Rows of other users make no difference: two migrations whose sources differ in nothing else count
/// the same, and leave the same rows in the destination.
pub proof fn rows_of_others_make_no_difference(
    events: Seq<MigrationEvent>,
    others: Seq<MigrationEvent>,
    owned: Set<Seq<char>>,
    include_global: bool,
    counts: MigrationCounts,
    table: MigratedTable,
    defaults: StoredRow,
    stored: StoredTable,
)
    requires
        same_for_user(events, others, owned, include_global, counts),
    ensures
        run(events, owned, include_global, counts) == run(others, owned, include_global, counts),
        same_rows(
            fetched(events, owned, include_global, counts, table),
            fetched(others, owned, include_global, counts, table),
        ),
        destination(events, owned, include_global, counts, table, defaults, stored)
            == destination(others, owned, include_global, counts, table, defaults, stored),
    decreases events.len(),
{
    if events.len() > 0 {
        let earlier = events.drop_last();
        let other_earlier = others.drop_last();
        rows_of_others_make_no_difference(
            earlier,
            other_earlier,
            owned,
            include_global,
            counts,
            table,
            defaults,
            stored,
        );
        same_rows_leave_the_same(
            copy_spec(table),
            defaults,
            destination(earlier, owned, include_global, counts, table, defaults, stored),
            fetched(earlier, owned, include_global, counts, table),
            fetched(other_earlier, owned, include_global, counts, table),
        );
    }
}

proof fn inserts_into_nothing(copy: CopySpec, defaults: StoredRow, rows: Seq<SqliteRow>)
    requires
        has_keys(copy, rows),
    ensures
        ({
            let after = all_upserted(copy, defaults, Map::empty(), rows);
            &&& after.dom().finite()
            &&& after.dom().len() == rows.len()
            &&& forall|key: Seq<SqlDatum>| #[trigger]
                after.contains_key(key) ==> exists|i: int|
                    0 <= i < rows.len() && key == copied_key(copy, sqlite_cells(#[trigger] rows[i]))
        }),
    decreases rows.len(),
{
    if rows.len() > 0 {
        let earlier = rows.drop_last();
        assert(has_keys(copy, earlier)) by {
            assert forall|i: int| 0 <= i < earlier.len() implies #[trigger] earlier[i]
                == rows[i] by {}
        }
        inserts_into_nothing(copy, defaults, earlier);
        let before = all_upserted(copy, defaults, Map::empty(), earlier);
        let key = copied_key(copy, sqlite_cells(rows.last()));
        assert(rows.last() == rows[rows.len() - 1]);
        if before.contains_key(key) {
            let i = choose|i: int|
                0 <= i < earlier.len() && key == copied_key(
                    copy,
                    sqlite_cells(#[trigger] earlier[i]),
                );
            assert(earlier[i] == rows[i]);
        }
        let after = all_upserted(copy, defaults, Map::empty(), rows);
        assert(after.dom() =~= before.dom().insert(key));
        assert forall|other: Seq<SqlDatum>| #[trigger] after.contains_key(other) implies exists|
            i: int,
        |
            0 <= i < rows.len() && other == copied_key(copy, sqlite_cells(#[trigger] rows[i])) by {
            if other != key {
                assert(before.contains_key(other));
                let i = choose|i: int|
                    0 <= i < earlier.len() && other == copied_key(
                        copy,
                        sqlite_cells(#[trigger] earlier[i]),
                    );
                assert(earlier[i] == rows[i]);
            }
        }
    }
}

/// When a migration has finished into a table that was empty, its count of the table is the number of
/// rows that the table holds, if the rows that are copied have keys.
pub proof fn counts_are_the_rows_of_the_destination(
    events: Seq<MigrationEvent>,
    owned: Set<Seq<char>>,
    include_global: bool,
    counts: MigrationCounts,
    table: MigratedTable,
    defaults: StoredRow,
)
    requires
        is_run(events, owned, include_global, counts),
        forall|table: MigratedTable| #[trigger] count_of(counts, table) == 0,
        run(events, owned, include_global, counts).0 is Finished,
        has_keys(copy_spec(table), fetched(events, owned, include_global, counts, table)),
    ensures
        ({
            let stored = destination(
                events,
                owned,
                include_global,
                counts,
                table,
                defaults,
                Map::empty(),
            );
            &&& stored.dom().finite()
            &&& stored.dom().len() == count_of(
                run(events, owned, include_global, counts).1,
                table,
            )
        }),
{
    let rows = fetched(events, owned, include_global, counts, table);
    inserted_so_far(events, owned, include_global, counts, table, defaults, Map::empty());
    inserts_into_nothing(copy_spec(table), defaults, rows);
    counts_are_the_copied_rows(events, owned, include_global, counts, table);
}

/// Whether the rows of a table hold the values that identify them.
pub open spec fn holds_keys(copy: CopySpec, stored: StoredTable) -> bool {
    forall|key: Seq<SqlDatum>, k: int| #![trigger stored[key], key[k]]
        stored.contains_key(key) && 0 <= k < copy.conflict_columns.len()
            ==> stored[key].contains_pair(copy.conflict_columns[k], key[k])
}

proof fn insert_holds_keys(
    copy: CopySpec,
    defaults: StoredRow,
    stored: StoredTable,
    cells: Map<Seq<char>, SqliteCell>,
)
    requires
        is_consistent(copy),
        holds_keys(copy, stored),
    ensures
        holds_keys(copy, upserted(copy, defaults, stored, cells)),
{
    let after = upserted(copy, defaults, stored, cells);
    let changed = copied_key(copy, cells);
    assert forall|key: Seq<SqlDatum>, k: int| #![trigger after[key], key[k]]
        after.contains_key(key) && 0 <= k
            < copy.conflict_columns.len() implies after[key].contains_pair(
        copy.conflict_columns[k],
        key[k],
    ) by {
        let column = copy.conflict_columns[k];
        keys_are_not_updated(copy, column);
        assert(copy.conflict_columns.contains(column));
        assert(copy.columns.contains(column));
        if stored.contains_key(key) {
            assert(stored[key].contains_pair(column, key[k]));
        }
        if key == changed {
            assert(key[k] == copied_datum(cells, column, copy)->0);
        }
    }
}

proof fn inserts_hold_keys(
    copy: CopySpec,
    defaults: StoredRow,
    stored: StoredTable,
    rows: Seq<SqliteRow>,
)
    requires
        is_consistent(copy),
        holds_keys(copy, stored),
    ensures
        holds_keys(copy, all_upserted(copy, defaults, stored, rows)),
    decreases rows.len(),
{
    if rows.len() > 0 {
        inserts_hold_keys(copy, defaults, stored, rows.drop_last());
        insert_holds_keys(
            copy,
            defaults,
            all_upserted(copy, defaults, stored, rows.drop_last()),
            sqlite_cells(rows.last()),
        );
    }
}

/// When a migration has finished, each row of the user that was fetched of a table has arrived: the row
/// of the destination with its key holds the value of each copied column, if the rows that are
/// copied have keys. A boolean is true where SQLite stores an integer other than zero.
pub proof fn fetched_rows_have_arrived(
    events: Seq<MigrationEvent>,
    owned: Set<Seq<char>>,
    include_global: bool,
    counts: MigrationCounts,
    table: MigratedTable,
    defaults: StoredRow,
    stored: StoredTable,
    fetch: int,
    rows: Seq<SqliteRow>,
    row: SqliteRow,
    column: Seq<char>,
)
    requires
        is_run(events, owned, include_global, counts),
        run(events, owned, include_global, counts).0 is Finished,
        0 <= fetch < events.len(),
        run(events.take(fetch), owned, include_global, counts).0 == Stage::Fetching(table),
        events[fetch] matches MigrationEvent::Rows(all) && all@ == rows,
        has_keys(copy_spec(table), copied_rows(table, rows, owned, include_global)),
        holds_keys(copy_spec(table), stored),
        rows.contains(row),
        is_copied(table, row, owned, include_global),
        copy_spec(table).columns.contains(column),
        sqlite_cells(row).contains_key(column),
    ensures
        ({
            let copy = copy_spec(table);
            let after = destination(
                events,
                owned,
                include_global,
                counts,
                table,
                defaults,
                stored,
            );
            let key = copied_key(copy, sqlite_cells(row));
            let arrived = after[key][column];
            &&& after.contains_key(key)
            &&& after[key].contains_key(column)
            &&& key.len() == copy.conflict_columns.len()
            &&& forall|k: int|
                0 <= k < key.len() ==> after[key].contains_pair(
                    copy.conflict_columns[k],
                    #[trigger] key[k],
                )
            &&& match sqlite_cells(row)[column] {
                SqliteCell::Text(text) => !copy.boolean_columns.contains(column)
                    && !copy.integer_columns.contains(column) ==> arrived == SqlDatum::Text(
                    Some(text),
                ),
                SqliteCell::Integer(value) => {
                    &&& copy.boolean_columns.contains(column) ==> arrived == SqlDatum::Bool(
                        Some(value != 0),
                    )
                    &&& !copy.boolean_columns.contains(column) && copy.integer_columns.contains(
                        column,
                    ) ==> arrived == SqlDatum::Integer(Some(value))
                },
                SqliteCell::Null => is_null(arrived),
                SqliteCell::Other => true,
            }
        }),
{
    let copy = copy_spec(table);
    let cells = sqlite_cells(row);
    let copied = copied_rows(table, rows, owned, include_global);
    fetched_rows_are_copied(events, owned, include_global, counts, table, fetch, rows);
    inserted_so_far(events, owned, include_global, counts, table, defaults, stored);
    copied_rows_are_the_users(table, rows, owned, include_global, row);
    inserts_are_held(copy, defaults, stored, copied, copied.index_of(row));
    copies_are_consistent(table);
    inserts_hold_keys(copy, defaults, stored, copied);
    keys_are_not_updated(copy, column);
    values_arrive_as_stored(cells, column, copy);
    let key = copied_key(copy, cells);
    let after = all_upserted(copy, defaults, stored, copied);
    assert(after.contains_key(key));
    assert forall|k: int| 0 <= k < key.len() implies after[key].contains_pair(
        copy.conflict_columns[k],
        #[trigger] key[k],
    ) by {}
    if copy.conflict_columns.contains(column) {
        let k = copy.conflict_columns.index_of(column);
        assert(key[k] == copied_datum(cells, column, copy)->0);
        assert(after[key].contains_pair(column, key[k]));
    } else {
        assert(updated_columns(copy).contains(column));
    }
}

/// Rows of the destination that are not copied stay as they are.
pub proof fn other_rows_stay(
    copy: CopySpec,
    defaults: StoredRow,
    stored: StoredTable,
    rows: Seq<SqliteRow>,
    key: Seq<SqlDatum>,
)
    requires
        forall|i: int|
            0 <= i < rows.len() ==> copied_key(copy, sqlite_cells(#[trigger] rows[i])) != key,
    ensures
        all_upserted(copy, defaults, stored, rows).contains_key(key) == stored.contains_key(key),
        all_upserted(copy, defaults, stored, rows)[key] == stored[key],
    decreases rows.len(),
{
    if rows.len() > 0 {
        let earlier = rows.drop_last();
        assert forall|i: int| 0 <= i < earlier.len() implies copied_key(
            copy,
            sqlite_cells(#[trigger] earlier[i]),
        ) != key by {
            assert(earlier[i] == rows[i]);
        }
        other_rows_stay(copy, defaults, stored, earlier, key);
        assert(copied_key(copy, sqlite_cells(rows[rows.len() - 1])) != key);
    }
}

proof fn other_columns_survive(
    copy: CopySpec,
    defaults: StoredRow,
    stored: StoredTable,
    rows: Seq<SqliteRow>,
    key: Seq<SqlDatum>,
    column: Seq<char>,
)
    requires
        stored.contains_key(key),
        !copy.columns.contains(column),
    ensures
        ({
            let after = all_upserted(copy, defaults, stored, rows);
            &&& after.contains_key(key)
            &&& after[key].contains_key(column) == stored[key].contains_key(column)
            &&& stored[key].contains_key(column) ==> after[key][column] == stored[key][column]
        }),
    decreases rows.len(),
{
    if rows.len() > 0 {
        other_columns_survive(copy, defaults, stored, rows.drop_last(), key, column);
        keys_are_not_updated(copy, column);
    }
}

/// A migration that has finished leaves the rows of the destination that it does not copy as they were,
/// and of those that it copies the columns that it does not copy.
pub proof fn nothing_else_changes(
    events: Seq<MigrationEvent>,
    owned: Set<Seq<char>>,
    include_global: bool,
    counts: MigrationCounts,
    table: MigratedTable,
    defaults: StoredRow,
    stored: StoredTable,
    key: Seq<SqlDatum>,
    column: Seq<char>,
)
    requires
        is_run(events, owned, include_global, counts),
        run(events, owned, include_global, counts).0 is Finished,
        stored.contains_key(key),
    ensures
        ({
            let rows = fetched(events, owned, include_global, counts, table);
            let after = destination(
                events,
                owned,
                include_global,
                counts,
                table,
                defaults,
                stored,
            );
            &&& after.contains_key(key)
            &&& (forall|i: int|
                0 <= i < rows.len() ==> copied_key(
                    copy_spec(table),
                    sqlite_cells(#[trigger] rows[i]),
                ) != key) ==> after[key] == stored[key]
            &&& !copy_spec(table).columns.contains(column) && stored[key].contains_key(column)
                ==> after[key].contains_pair(column, stored[key][column])
        }),
{
    let copy = copy_spec(table);
    let rows = fetched(events, owned, include_global, counts, table);
    inserted_so_far(events, owned, include_global, counts, table, defaults, stored);
    rows_are_not_removed(copy, defaults, stored, rows, key);
    if forall|i: int|
        0 <= i < rows.len() ==> copied_key(copy, sqlite_cells(#[trigger] rows[i])) != key {
        other_rows_stay(copy, defaults, stored, rows, key);
    }
    if !copy.columns.contains(column) {
        other_columns_survive(copy, defaults, stored, rows, key, column);
    }
}

proof fn rows_are_not_removed(
    copy: CopySpec,
    defaults: StoredRow,
    stored: StoredTable,
    rows: Seq<SqliteRow>,
    key: Seq<SqlDatum>,
)
    requires
        stored.contains_key(key),
    ensures
        all_upserted(copy, defaults, stored, rows).contains_key(key),
    decreases rows.len(),
{
    if rows.len() > 0 {
        rows_are_not_removed(copy, defaults, stored, rows.drop_last(), key);
    }
}

/// A migration that has finished adds no row but those of the user: each row of the destination was there
/// before or has the key of a row that is copied.
pub proof fn only_copied_rows_are_added(
    events: Seq<MigrationEvent>,
    owned: Set<Seq<char>>,
    include_global: bool,
    counts: MigrationCounts,
    table: MigratedTable,
    defaults: StoredRow,
    stored: StoredTable,
    key: Seq<SqlDatum>,
)
    requires
        is_run(events, owned, include_global, counts),
        run(events, owned, include_global, counts).0 is Finished,
        destination(
            events,
            owned,
            include_global,
            counts,
            table,
            defaults,
            stored,
        ).contains_key(key),
        !stored.contains_key(key),
    ensures
        ({
            let rows = fetched(events, owned, include_global, counts, table);
            exists|i: int|
                0 <= i < rows.len() && copied_key(
                    copy_spec(table),
                    sqlite_cells(#[trigger] rows[i]),
                ) == key
        }),
{
    let rows = fetched(events, owned, include_global, counts, table);
    inserted_so_far(events, owned, include_global, counts, table, defaults, stored);
    if forall|i: int|
        0 <= i < rows.len() ==> copied_key(copy_spec(table), sqlite_cells(#[trigger] rows[i]))
            != key {
        other_rows_stay(copy_spec(table), defaults, stored, rows, key);
    }
}

} // verus!
