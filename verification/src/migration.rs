//! The migration of the SQLite databases of a state directory into a PostgreSQL schema.
//!
//! A [`Migration`] decides what happens next. Whoever runs it performs each action and reports what
//! came of it.
use crate::counts::{count_of, replaced_count, with_count, MigrationCounts};
use crate::sqlite::{sqlite_cells, SqliteCell};
use crate::table_copy::{
    belongs, insert_sql, insert_text, owner, row_belongs_to_user, select_sql, select_text,
    table_info_sql, table_info_text, TableCopy,
};
use crate::tables::{
    copy_spec, database_of, file_text, first_table, next_database, next_table, place, table_copy,
    tables_follow_one_another, MigratedTable, SourceDatabase,
};
use crate::text::texts;
use sqlx::sqlite::SqliteRow;
use vstd::hash_set::StringHashSet;
use vstd::prelude::*;

verus! {

/// What a migration is waiting for.
#[derive(Debug, Clone, Copy, PartialEq, Eq, Structural)]
pub enum Stage {
    /// A database is being opened.
    Opening(SourceDatabase),
    /// A table is being looked up.
    Finding(MigratedTable),
    /// The columns of a table are being listed.
    Listing(MigratedTable),
    /// The rows of a table are being fetched.
    Fetching(MigratedTable),
    /// So many rows of a table are being inserted.
    Inserting(MigratedTable, u64),
    /// A database is being closed.
    Closing(SourceDatabase),
    /// Everything was copied.
    Finished,
}

/// What came of an action.
pub enum MigrationEvent {
    DatabaseOpened,
    /// There is no file of the database's name.
    DatabaseMissing,
    TableFound,
    TableMissing,
    /// The names of a table's columns.
    Columns(Vec<String>),
    /// All rows of a table.
    Rows(Vec<SqliteRow>),
    RowsInserted,
    DatabaseClosed,
}

/// What is to be done next.
pub enum MigrationAction {
    /// Open a database of the state directory, if it is there.
    OpenDatabase { file_name: &'static str },
    /// Find out whether the open database has a table.
    FindTable { table: &'static str },
    /// Run a query for the names of a table's columns.
    ListColumns { sql: String },
    /// Run a query for the rows of a table.
    FetchRows { sql: String },
    /// Insert each of the rows, all or none.
    InsertRows { sql: String, copy: TableCopy<'static>, rows: Vec<SqliteRow> },
    CloseDatabase,
    Finish,
}

/// Why a migration cannot go on.
#[derive(Debug)]
pub enum MigrationError {
    /// The event is not what the migration is waiting for.
    Unexpected,
    /// The owner of a row could not be read.
    Row(sqlx::Error),
}

/// A migration for one user.
pub struct Migration {
    /// The schema that receives the rows.
    pub schema: String,
    /// The threads that the user owns.
    pub owned_thread_ids: StringHashSet,
    /// Whether rows that belong to no thread are copied too.
    pub include_global: bool,
    pub stage: Stage,
    /// The number of rows that were copied so far.
    pub counts: MigrationCounts,
}

/// What follows the end of a database.
pub open spec fn after_database(database: SourceDatabase) -> Stage {
    match next_database(database) {
        Some(next) => Stage::Opening(next),
        None => Stage::Finished,
    }
}

/// What follows the end of a table.
pub open spec fn after_table(table: MigratedTable) -> Stage {
    match next_table(table) {
        Some(next) => Stage::Finding(next),
        None => Stage::Closing(database_of(table)),
    }
}

/// Whether an event is what a migration is waiting for.
pub open spec fn answers(event: MigrationEvent, stage: Stage) -> bool {
    match stage {
        Stage::Opening(_) => event is DatabaseOpened || event is DatabaseMissing,
        Stage::Finding(_) => event is TableFound || event is TableMissing,
        Stage::Listing(_) => event is Columns,
        Stage::Fetching(_) => event is Rows,
        Stage::Inserting(_, _) => event is RowsInserted,
        Stage::Closing(_) => event is DatabaseClosed,
        Stage::Finished => false,
    }
}

/// The thread that a row of a table belongs to, if its owner can be read.
pub open spec fn row_owner(table: MigratedTable, row: SqliteRow) -> Option<Option<Seq<char>>> {
    owner(sqlite_cells(row), copy_spec(table).owner_column)
}

/// Whether the owners of all rows of a table can be read.
pub open spec fn owners_readable(table: MigratedTable, rows: Seq<SqliteRow>) -> bool {
    forall|i: int| 0 <= i < rows.len() ==> row_owner(table, #[trigger] rows[i]) is Some
}

/// Whether rows of a table that belong to no thread are copied: threads never are.
pub open spec fn copies_global(table: MigratedTable, include_global: bool) -> bool {
    include_global && table != MigratedTable::Threads
}

/// Whether a row of a table is copied for a user.
pub open spec fn is_copied(
    table: MigratedTable,
    row: SqliteRow,
    owned: Set<Seq<char>>,
    include_global: bool,
) -> bool {
    row_owner(table, row) matches Some(thread) && belongs(
        thread,
        owned,
        copies_global(table, include_global),
    )
}

/// The rows of a table that are copied for a user.
pub open spec fn copied_rows(
    table: MigratedTable,
    rows: Seq<SqliteRow>,
    owned: Set<Seq<char>>,
    include_global: bool,
) -> Seq<SqliteRow> {
    rows.filter(|row: SqliteRow| is_copied(table, row, owned, include_global))
}

/// What a migration waits for after an event.
pub open spec fn next_stage(
    stage: Stage,
    event: MigrationEvent,
    owned: Set<Seq<char>>,
    include_global: bool,
) -> Stage {
    match (stage, event) {
        (Stage::Opening(database), MigrationEvent::DatabaseOpened) => Stage::Finding(
            first_table(database),
        ),
        (Stage::Opening(database), _) => after_database(database),
        (Stage::Finding(table), MigrationEvent::TableFound) => Stage::Listing(table),
        (Stage::Finding(table), _) => after_table(table),
        (Stage::Listing(table), _) => Stage::Fetching(table),
        (Stage::Fetching(table), MigrationEvent::Rows(rows)) => {
            let count = copied_rows(table, rows@, owned, include_global).len();
            if count == 0 {
                after_table(table)
            } else {
                Stage::Inserting(table, count as u64)
            }
        },
        (Stage::Inserting(table, _), _) => after_table(table),
        (Stage::Closing(database), _) => after_database(database),
        _ => stage,
    }
}

/// What a migration has copied after an event.
pub open spec fn next_counts(stage: Stage, counts: MigrationCounts) -> MigrationCounts {
    match stage {
        Stage::Inserting(table, count) => with_count(counts, table, count),
        _ => counts,
    }
}

/// Whether an action is what a migration wants done after an event that brought it to `stage`.
pub open spec fn is_wanted(
    action: MigrationAction,
    stage: Stage,
    event: MigrationEvent,
    schema: Seq<char>,
    owned: Set<Seq<char>>,
    include_global: bool,
) -> bool {
    match (stage, action) {
        (
            Stage::Opening(database),
            MigrationAction::OpenDatabase { file_name },
        ) => file_name@ == file_text(database),
        (Stage::Finding(found), MigrationAction::FindTable { table }) => table@ == copy_spec(
            found,
        ).source,
        (Stage::Listing(table), MigrationAction::ListColumns { sql }) => sql@ == table_info_text(
            copy_spec(table).source,
        ),
        (Stage::Fetching(table), MigrationAction::FetchRows { sql }) => event matches
            MigrationEvent::Columns(columns) && sql@ == select_text(
            copy_spec(table),
            texts(columns@),
        ),
        (
            Stage::Inserting(table, count),
            MigrationAction::InsertRows { sql, copy, rows },
        ) => event matches MigrationEvent::Rows(all) && {
            &&& sql@ == insert_text(schema, copy_spec(table))
            &&& copy@ == copy_spec(table)
            &&& rows@ == copied_rows(table, all@, owned, include_global)
            &&& rows@.len() == count
        },
        (Stage::Closing(_), MigrationAction::CloseDatabase) => true,
        (Stage::Finished, MigrationAction::Finish) => true,
        _ => false,
    }
}

fn select_rows(
    table: MigratedTable,
    copy: &TableCopy<'static>,
    rows: Vec<SqliteRow>,
    owned_thread_ids: &StringHashSet,
    include_global: bool,
) -> (result: Result<Vec<SqliteRow>, sqlx::Error>)
    requires
        copy@ == copy_spec(table),
    ensures
        match result {
            Ok(selected) => {
                &&& owners_readable(table, rows@)
                &&& selected@ == copied_rows(table, rows@, owned_thread_ids@, include_global)
            },
            Err(_) => !owners_readable(table, rows@),
        },
{
    let mut selected: Vec<SqliteRow> = Vec::new();
    let global = include_global && table != MigratedTable::Threads;
    let ghost all = rows@;
    let ghost copied = |row: SqliteRow|
        is_copied(table, row, owned_thread_ids@, include_global);
    proof {
        reveal(Seq::filter);
        assert(all.take(0) =~= Seq::empty());
    }
    for row in walk: rows
        invariant
            copy@ == copy_spec(table),
            global == copies_global(table, include_global),
            all == walk.seq(),
            copied == (|row: SqliteRow|
                is_copied(table, row, owned_thread_ids@, include_global)),
            forall|i: int| 0 <= i < walk.index() ==> row_owner(table, #[trigger] all[i]) is Some,
            selected@ == all.take(walk.index() as int).filter(copied),
    {
        let ghost taken = all.take(walk.index() as int);
        proof {
            assert(all.take(walk.index() + 1) =~= taken.push(row));
            assert(taken.push(row).drop_last() =~= taken);
            reveal(Seq::filter);
        }
        match row_belongs_to_user(&row, copy.owner_column, owned_thread_ids, global) {
            Ok(true) => {
                selected.push(row);
            },
            Ok(false) => {},
            Err(error) => {
                assert(row_owner(table, all[walk.index() as int]) is None);
                return Err(error);
            },
        }
    }
    assert(all.take(all.len() as int) =~= all);
    Ok(selected)
}

/// The place, in the order of the migration, of the first table that may still get rows.
pub open spec fn place_of(stage: Stage) -> nat {
    match stage {
        Stage::Opening(database) => place(first_table(database)),
        Stage::Finding(table) => place(table),
        Stage::Listing(table) => place(table),
        Stage::Fetching(table) => place(table),
        Stage::Inserting(table, _) => place(table),
        Stage::Closing(database) => match next_database(database) {
            Some(next) => place(first_table(next)),
            None => 16,
        },
        Stage::Finished => 16,
    }
}

/// Whether nothing has been counted of the tables that are still to come.
pub open spec fn nothing_ahead(stage: Stage, counts: MigrationCounts) -> bool {
    forall|table: MigratedTable| #[trigger]
        place(table) >= place_of(stage) ==> count_of(counts, table) == 0
}

/// After each event, nothing has been counted of the tables that are still to come, and the counts
/// of the tables that are done stay.
#[verifier::spinoff_prover]
pub proof fn counts_behind_stay(
    stage: Stage,
    event: MigrationEvent,
    owned: Set<Seq<char>>,
    include_global: bool,
    counts: MigrationCounts,
)
    requires
        answers(event, stage),
        nothing_ahead(stage, counts),
    ensures
        nothing_ahead(
            next_stage(stage, event, owned, include_global),
            next_counts(stage, counts),
        ),
        place_of(stage) <= place_of(next_stage(stage, event, owned, include_global)),
        forall|table: MigratedTable| #[trigger]
            place(table) < place_of(stage) ==> count_of(next_counts(stage, counts), table)
                == count_of(counts, table),
{
    match stage {
        Stage::Finding(table) | Stage::Fetching(table) | Stage::Inserting(table, _) => {
            tables_follow_one_another(table);
        },
        Stage::Opening(database) => {
            tables_follow_one_another(first_table(database));
        },
        _ => {},
    }
}

impl Migration {
    /// Nothing has been counted of the tables that are still to come.
    pub open spec fn well_formed(&self) -> bool {
        nothing_ahead(self.stage, self.counts)
    }

    /// Starts a migration into `schema` for the user who owns `owned_thread_ids`.
    pub fn new(schema: &str, owned_thread_ids: StringHashSet, include_global: bool) -> (started: (
        Migration,
        MigrationAction,
    ))
        ensures
            started.0.well_formed(),
            started.0.schema@ == schema@,
            started.0.owned_thread_ids == owned_thread_ids,
            started.0.include_global == include_global,
            started.0.stage == Stage::Opening(SourceDatabase::State),
            forall|table: MigratedTable| #[trigger] count_of(started.0.counts, table) == 0,
            started.1 matches MigrationAction::OpenDatabase { file_name } && file_name@ == file_text(
                SourceDatabase::State,
            ),
    {
        let stage = Stage::Opening(SourceDatabase::State);
        let migration = Migration {
            schema: schema.to_owned(),
            owned_thread_ids,
            include_global,
            stage,
            counts: MigrationCounts::default(),
        };
        (migration, MigrationAction::OpenDatabase { file_name: SourceDatabase::State.file_name() })
    }

    fn end_database(&mut self, database: SourceDatabase) -> (action: MigrationAction)
        ensures
            *final(self) == (Migration { stage: after_database(database), ..*old(self) }),
            match next_database(database) {
                Some(next) => action matches MigrationAction::OpenDatabase { file_name }
                    && file_name@ == file_text(next),
                None => action is Finish,
            },
    {
        match database.next() {
            Some(next) => {
                self.stage = Stage::Opening(next);
                MigrationAction::OpenDatabase { file_name: next.file_name() }
            },
            None => {
                self.stage = Stage::Finished;
                MigrationAction::Finish
            },
        }
    }

    fn find_table(&mut self, found: MigratedTable) -> (action: MigrationAction)
        ensures
            *final(self) == (Migration { stage: Stage::Finding(found), ..*old(self) }),
            action matches MigrationAction::FindTable { table } && table@ == copy_spec(
                found,
            ).source,
    {
        self.stage = Stage::Finding(found);
        MigrationAction::FindTable { table: table_copy(found).source }
    }

    fn end_table(&mut self, table: MigratedTable) -> (action: MigrationAction)
        ensures
            *final(self) == (Migration { stage: after_table(table), ..*old(self) }),
            match next_table(table) {
                Some(next) => action matches MigrationAction::FindTable { table: found } && found@
                    == copy_spec(next).source,
                None => action is CloseDatabase,
            },
    {
        match table.next() {
            Some(next) => self.find_table(next),
            None => {
                self.stage = Stage::Closing(table.database());
                MigrationAction::CloseDatabase
            },
        }
    }

    /// Takes note of an event and says what is to be done next. The migration stays as it is where
    /// it cannot go on.
    pub fn step(&mut self, event: MigrationEvent) -> (result: Result<
        MigrationAction,
        MigrationError,
    >)
        ensures
            old(self).well_formed() ==> final(self).well_formed(),
            final(self).schema == old(self).schema,
            final(self).owned_thread_ids == old(self).owned_thread_ids,
            final(self).include_global == old(self).include_global,
            match result {
                Ok(action) => {
                    &&& answers(event, old(self).stage)
                    &&& final(self).stage == next_stage(
                        old(self).stage,
                        event,
                        old(self).owned_thread_ids@,
                        old(self).include_global,
                    )
                    &&& final(self).counts == next_counts(old(self).stage, old(self).counts)
                    &&& is_wanted(
                        action,
                        final(self).stage,
                        event,
                        old(self).schema@,
                        old(self).owned_thread_ids@,
                        old(self).include_global,
                    )
                },
                Err(_) => *final(self) == *old(self),
            },
            result matches Err(MigrationError::Unexpected) <==> !answers(event, old(self).stage),
            result matches Err(MigrationError::Row(_)) <==> (old(self).stage matches
                Stage::Fetching(table) && event matches MigrationEvent::Rows(rows)
                && !owners_readable(table, rows@)),
    {
        proof {
            if answers(event, self.stage) && self.well_formed() {
                counts_behind_stay(
                    self.stage,
                    event,
                    self.owned_thread_ids@,
                    self.include_global,
                    self.counts,
                );
            }
        }
        match (self.stage, event) {
            (Stage::Opening(database), MigrationEvent::DatabaseOpened) => {
                Ok(self.find_table(database.first_table()))
            },
            (Stage::Opening(database), MigrationEvent::DatabaseMissing) => {
                Ok(self.end_database(database))
            },
            (Stage::Finding(table), MigrationEvent::TableFound) => {
                self.stage = Stage::Listing(table);
                Ok(MigrationAction::ListColumns { sql: table_info_sql(table_copy(table).source) })
            },
            (Stage::Finding(table), MigrationEvent::TableMissing) => Ok(self.end_table(table)),
            (Stage::Listing(table), MigrationEvent::Columns(existing)) => {
                self.stage = Stage::Fetching(table);
                Ok(MigrationAction::FetchRows { sql: select_sql(&table_copy(table), &existing) })
            },
            (Stage::Fetching(table), MigrationEvent::Rows(rows)) => {
                let copy = table_copy(table);
                match select_rows(
                    table,
                    &copy,
                    rows,
                    &self.owned_thread_ids,
                    self.include_global,
                ) {
                    Err(error) => Err(MigrationError::Row(error)),
                    Ok(selected) => if selected.len() == 0 {
                        Ok(self.end_table(table))
                    } else {
                        self.stage = Stage::Inserting(table, selected.len() as u64);
                        Ok(
                            MigrationAction::InsertRows {
                                sql: insert_sql(self.schema.as_str(), &copy),
                                copy,
                                rows: selected,
                            },
                        )
                    },
                }
            },
            (Stage::Inserting(table, count), MigrationEvent::RowsInserted) => {
                self.counts.set(table, count);
                Ok(self.end_table(table))
            },
            (Stage::Closing(database), MigrationEvent::DatabaseClosed) => {
                Ok(self.end_database(database))
            },
            _ => Err(MigrationError::Unexpected),
        }
    }
}

/// How many events a migration may still wait for.
pub open spec fn remaining(stage: Stage) -> nat {
    match stage {
        Stage::Opening(database) => (10 * (16 - place(first_table(database))) + 6) as nat,
        Stage::Finding(table) => (10 * (16 - place(table)) + 4) as nat,
        Stage::Listing(table) => (10 * (16 - place(table)) + 3) as nat,
        Stage::Fetching(table) => (10 * (16 - place(table)) + 2) as nat,
        Stage::Inserting(table, _) => (10 * (16 - place(table)) + 1) as nat,
        Stage::Closing(database) => match next_database(database) {
            Some(next) => (10 * (16 - place(first_table(next))) + 7) as nat,
            None => 7,
        },
        Stage::Finished => 0,
    }
}

/// Each event brings a migration closer to its end.
#[verifier::spinoff_prover]
pub proof fn migration_makes_progress(
    stage: Stage,
    event: MigrationEvent,
    owned: Set<Seq<char>>,
    include_global: bool,
)
    requires
        answers(event, stage),
    ensures
        remaining(next_stage(stage, event, owned, include_global)) < remaining(stage),
{
    match stage {
        Stage::Finding(table) | Stage::Fetching(table) | Stage::Inserting(table, _) => {
            tables_follow_one_another(table);
        },
        Stage::Opening(database) => {
            tables_follow_one_another(first_table(database));
        },
        _ => {},
    }
}

/// The rows that are copied are those of the table that belong to the user, and no others.
pub proof fn copied_rows_are_the_users(
    table: MigratedTable,
    rows: Seq<SqliteRow>,
    owned: Set<Seq<char>>,
    include_global: bool,
    row: SqliteRow,
)
    ensures
        copied_rows(table, rows, owned, include_global).contains(row) <==> rows.contains(row)
            && is_copied(table, row, owned, include_global),
{
    let copied = |row: SqliteRow| is_copied(table, row, owned, include_global);
    if rows.contains(row) && copied(row) {
        rows.lemma_filter_contains(copied, rows.index_of(row));
    }
    if rows.filter(copied).contains(row) {
        rows.lemma_filter_contains_rev(copied, row);
        rows.lemma_filter_pred(copied, rows.filter(copied).index_of(row));
    }
}

/// Without a request for global rows, each row that is copied belongs to a thread of the user.
pub proof fn only_owned_rows_are_copied(
    table: MigratedTable,
    rows: Seq<SqliteRow>,
    owned: Set<Seq<char>>,
    row: SqliteRow,
)
    requires
        copied_rows(table, rows, owned, false).contains(row),
    ensures
        row_owner(table, row) matches Some(Some(thread)) && owned.contains(thread),
{
    copied_rows_are_the_users(table, rows, owned, false, row);
}

/// Even with a request for global rows, each thread that is copied is one of the user.
pub proof fn only_owned_threads_are_copied(
    rows: Seq<SqliteRow>,
    owned: Set<Seq<char>>,
    include_global: bool,
    row: SqliteRow,
)
    requires
        copied_rows(MigratedTable::Threads, rows, owned, include_global).contains(row),
    ensures
        row_owner(MigratedTable::Threads, row) matches Some(Some(thread)) && owned.contains(thread),
{
    copied_rows_are_the_users(MigratedTable::Threads, rows, owned, include_global, row);
}

/// A row is not copied for two users who own no thread together, unless it belongs to no thread and
/// both requests are for global rows.
pub proof fn no_row_is_copied_for_two_users(
    table: MigratedTable,
    row: SqliteRow,
    owned: Set<Seq<char>>,
    include_global: bool,
    other_owned: Set<Seq<char>>,
    other_include_global: bool,
)
    requires
        owned.disjoint(other_owned),
        !(include_global && other_include_global),
    ensures
        !(is_copied(table, row, owned, include_global) && is_copied(
            table,
            row,
            other_owned,
            other_include_global,
        )),
{
}

/// What a migration waits for, and what it has copied, after a sequence of events.
pub open spec fn run(
    events: Seq<MigrationEvent>,
    owned: Set<Seq<char>>,
    include_global: bool,
    counts: MigrationCounts,
) -> (Stage, MigrationCounts)
    decreases events.len(),
{
    if events.len() == 0 {
        (Stage::Opening(SourceDatabase::State), counts)
    } else {
        let before = run(events.drop_last(), owned, include_global, counts);
        (
            next_stage(before.0, events.last(), owned, include_global),
            next_counts(before.0, before.1),
        )
    }
}

/// Whether each of a sequence of events is what the migration was waiting for.
pub open spec fn is_run(
    events: Seq<MigrationEvent>,
    owned: Set<Seq<char>>,
    include_global: bool,
    counts: MigrationCounts,
) -> bool
    decreases events.len(),
{
    events.len() > 0 ==> {
        &&& is_run(events.drop_last(), owned, include_global, counts)
        &&& answers(
            events.last(),
            run(events.drop_last(), owned, include_global, counts).0,
        )
    }
}

/// The rows of a table that are copied after an event, where `before` are those before it.
pub open spec fn next_fetched(
    stage: Stage,
    event: MigrationEvent,
    owned: Set<Seq<char>>,
    include_global: bool,
    table: MigratedTable,
    before: Seq<SqliteRow>,
) -> Seq<SqliteRow> {
    match event {
        MigrationEvent::Rows(rows) if stage == Stage::Fetching(table) => copied_rows(
            table,
            rows@,
            owned,
            include_global,
        ),
        _ => before,
    }
}

/// The rows of a table that were fetched in a sequence of events and are copied.
pub open spec fn fetched(
    events: Seq<MigrationEvent>,
    owned: Set<Seq<char>>,
    include_global: bool,
    counts: MigrationCounts,
    table: MigratedTable,
) -> Seq<SqliteRow>
    decreases events.len(),
{
    if events.len() == 0 {
        Seq::empty()
    } else {
        next_fetched(
            run(events.drop_last(), owned, include_global, counts).0,
            events.last(),
            owned,
            include_global,
            table,
            fetched(events.drop_last(), owned, include_global, counts, table),
        )
    }
}

/// Whether the count of a table fits its rows that were fetched: they are counted once the table is
/// done, they are being inserted, or there are none.
spec fn is_counted(
    stage: Stage,
    counts: MigrationCounts,
    table: MigratedTable,
    rows: Seq<SqliteRow>,
) -> bool {
    if place(table) < place_of(stage) {
        count_of(counts, table) == rows.len()
    } else {
        &&& count_of(counts, table) == 0
        &&& match stage {
            Stage::Inserting(current, count) if current == table => count == rows.len(),
            _ => rows.len() == 0,
        }
    }
}

#[verifier::spinoff_prover]
proof fn rows_are_counted(
    stage: Stage,
    event: MigrationEvent,
    owned: Set<Seq<char>>,
    include_global: bool,
    counts: MigrationCounts,
    table: MigratedTable,
    rows: Seq<SqliteRow>,
)
    requires
        answers(event, stage),
        is_counted(stage, counts, table, rows),
    ensures
        is_counted(
            next_stage(stage, event, owned, include_global),
            next_counts(stage, counts),
            table,
            next_fetched(stage, event, owned, include_global, table, rows),
        ),
{
    match stage {
        Stage::Fetching(current) => {
            if let MigrationEvent::Rows(all) = event {
                all@.lemma_filter_len(
                    |row: SqliteRow| is_copied(current, row, owned, include_global),
                );
                assert(all@.len() == all.len());
                tables_follow_one_another(current);
            }
        },
        Stage::Inserting(current, count) => {
            tables_follow_one_another(current);
            replaced_count(counts, current, count, table);
        },
        Stage::Finding(current) => {
            tables_follow_one_another(current);
        },
        _ => {},
    }
}

proof fn counts_so_far(
    events: Seq<MigrationEvent>,
    owned: Set<Seq<char>>,
    include_global: bool,
    counts: MigrationCounts,
    table: MigratedTable,
)
    requires
        is_run(events, owned, include_global, counts),
        forall|table: MigratedTable| #[trigger] count_of(counts, table) == 0,
    ensures
        is_counted(
            run(events, owned, include_global, counts).0,
            run(events, owned, include_global, counts).1,
            table,
            fetched(events, owned, include_global, counts, table),
        ),
    decreases events.len(),
{
    if events.len() > 0 {
        let earlier = events.drop_last();
        counts_so_far(earlier, owned, include_global, counts, table);
        let before = run(earlier, owned, include_global, counts);
        rows_are_counted(
            before.0,
            events.last(),
            owned,
            include_global,
            before.1,
            table,
            fetched(earlier, owned, include_global, counts, table),
        );
    }
}

/// When a migration that started with nothing counted has finished, the count of each table is the
/// number of its rows that belong to the user.
pub proof fn counts_are_the_copied_rows(
    events: Seq<MigrationEvent>,
    owned: Set<Seq<char>>,
    include_global: bool,
    counts: MigrationCounts,
    table: MigratedTable,
)
    requires
        is_run(events, owned, include_global, counts),
        forall|table: MigratedTable| #[trigger] count_of(counts, table) == 0,
        run(events, owned, include_global, counts).0 is Finished,
    ensures
        count_of(run(events, owned, include_global, counts).1, table) == fetched(
            events,
            owned,
            include_global,
            counts,
            table,
        ).len(),
{
    counts_so_far(events, owned, include_global, counts, table);
}

/// A row with an owner column is copied if the column names a thread of the user. A row that names no
/// thread is copied only on a request for global rows, and never as a thread. A row whose owner cannot
/// be read is not copied.
pub proof fn rows_are_copied_by_owner(
    table: MigratedTable,
    row: SqliteRow,
    owned: Set<Seq<char>>,
    include_global: bool,
)
    ensures
        match copy_spec(table).owner_column {
            None => is_copied(table, row, owned, include_global) <==> include_global && !(
            table is Threads),
            Some(column) => if !sqlite_cells(row).contains_key(column) {
                !is_copied(table, row, owned, include_global)
            } else {
                match sqlite_cells(row)[column] {
                    SqliteCell::Text(thread) => is_copied(table, row, owned, include_global)
                        <==> owned.contains(thread),
                    SqliteCell::Null => is_copied(table, row, owned, include_global)
                        <==> include_global && !(table is Threads),
                    SqliteCell::Integer(_) | SqliteCell::Other => !is_copied(
                        table,
                        row,
                        owned,
                        include_global,
                    ),
                }
            },
        },
        owners_readable(table, seq![row]) <==> match copy_spec(table).owner_column {
            None => true,
            Some(column) => sqlite_cells(row).contains_key(column) && (sqlite_cells(
                row,
            )[column] is Text || sqlite_cells(row)[column] is Null),
        },
{
    assert(seq![row][0] == row);
    assert(owners_readable(table, seq![row]) <==> row_owner(table, row) is Some);
}

/// Each row is copied or not by itself: what is copied of two lists of rows is what is copied of the
/// first and then what is copied of the second.
pub proof fn rows_are_copied_one_by_one(
    table: MigratedTable,
    first: Seq<SqliteRow>,
    second: Seq<SqliteRow>,
    row: SqliteRow,
    owned: Set<Seq<char>>,
    include_global: bool,
)
    ensures
        copied_rows(table, first + second, owned, include_global) == copied_rows(
            table,
            first,
            owned,
            include_global,
        ) + copied_rows(table, second, owned, include_global),
        copied_rows(table, seq![row], owned, include_global) == if is_copied(
            table,
            row,
            owned,
            include_global,
        ) {
            seq![row]
        } else {
            Seq::empty()
        },
        owners_readable(table, first + second) <==> owners_readable(table, first)
            && owners_readable(table, second),
{
    let copied = |row: SqliteRow| is_copied(table, row, owned, include_global);
    Seq::filter_distributes_over_add(first, second, copied);
    reveal(Seq::filter);
    assert(seq![row].drop_last() =~= Seq::empty());
    assert(seq![row].drop_last().filter(copied) =~= Seq::empty());
    assert(seq![row].last() == row);
    assert(copied_rows(table, seq![row], owned, include_global) =~= if copied(row) {
        seq![row]
    } else {
        Seq::empty()
    });
    let both = first + second;
    if owners_readable(table, both) {
        assert forall|i: int| 0 <= i < first.len() implies row_owner(
            table,
            #[trigger] first[i],
        ) is Some by {
            assert(both[i] == first[i]);
        }
        assert forall|i: int| 0 <= i < second.len() implies row_owner(
            table,
            #[trigger] second[i],
        ) is Some by {
            assert(both[first.len() + i] == second[i]);
        }
    }
}

/// Whether it is settled at an event what becomes of a table: its database is missing, it is missing in
/// its database, or its rows were fetched.
pub open spec fn settles(
    events: Seq<MigrationEvent>,
    owned: Set<Seq<char>>,
    include_global: bool,
    counts: MigrationCounts,
    table: MigratedTable,
    index: int,
) -> bool {
    &&& 0 <= index < events.len()
    &&& match (run(events.take(index), owned, include_global, counts).0, events[index]) {
        (Stage::Opening(database), MigrationEvent::DatabaseMissing) => database == database_of(
            table,
        ),
        (Stage::Finding(found), MigrationEvent::TableMissing) => found == table,
        (Stage::Fetching(fetched), MigrationEvent::Rows(_)) => fetched == table,
        _ => false,
    }
}

/// Whether it is settled what becomes of a table.
pub open spec fn is_settled(
    events: Seq<MigrationEvent>,
    owned: Set<Seq<char>>,
    include_global: bool,
    counts: MigrationCounts,
    table: MigratedTable,
) -> bool {
    exists|index: int| #[trigger]
        settles(events, owned, include_global, counts, table, index)
}

spec fn is_passed(stage: Stage, table: MigratedTable) -> bool {
    place(table) < place_of(stage) || (stage matches Stage::Inserting(current, _) && current
        == table)
}

#[verifier::spinoff_prover]
proof fn passing_settles(
    stage: Stage,
    event: MigrationEvent,
    owned: Set<Seq<char>>,
    include_global: bool,
    table: MigratedTable,
)
    requires
        answers(event, stage),
        !is_passed(stage, table),
        is_passed(next_stage(stage, event, owned, include_global), table),
    ensures
        match (stage, event) {
            (Stage::Opening(database), MigrationEvent::DatabaseMissing) => database == database_of(
                table,
            ),
            (Stage::Finding(found), MigrationEvent::TableMissing) => found == table,
            (Stage::Fetching(fetched), MigrationEvent::Rows(_)) => fetched == table,
            _ => false,
        },
{
    match stage {
        Stage::Finding(current) | Stage::Fetching(current) | Stage::Inserting(current, _) => {
            tables_follow_one_another(current);
        },
        _ => {},
    }
}

proof fn passed_tables_are_settled(
    events: Seq<MigrationEvent>,
    owned: Set<Seq<char>>,
    include_global: bool,
    counts: MigrationCounts,
    table: MigratedTable,
)
    requires
        is_run(events, owned, include_global, counts),
        is_passed(run(events, owned, include_global, counts).0, table),
    ensures
        is_settled(events, owned, include_global, counts, table),
    decreases events.len(),
{
    if events.len() > 0 {
        let earlier = events.drop_last();
        let stage = run(earlier, owned, include_global, counts).0;
        let last = events.len() - 1;
        assert(events.take(last) =~= earlier);
        if is_passed(stage, table) {
            passed_tables_are_settled(earlier, owned, include_global, counts, table);
            let index = choose|index: int| #[trigger]
                settles(earlier, owned, include_global, counts, table, index);
            assert(earlier.take(index) =~= events.take(index));
            assert(settles(events, owned, include_global, counts, table, index));
        } else {
            passing_settles(stage, events.last(), owned, include_global, table);
            assert(settles(events, owned, include_global, counts, table, last));
        }
    }
}

/// A migration that has finished has left out no table: each of them was fetched, unless it or its
/// database was missing.
pub proof fn no_table_is_left_out(
    events: Seq<MigrationEvent>,
    owned: Set<Seq<char>>,
    include_global: bool,
    counts: MigrationCounts,
    table: MigratedTable,
)
    requires
        is_run(events, owned, include_global, counts),
        run(events, owned, include_global, counts).0 is Finished,
    ensures
        is_settled(events, owned, include_global, counts, table),
{
    passed_tables_are_settled(events, owned, include_global, counts, table);
}

proof fn remaining_falls(
    events: Seq<MigrationEvent>,
    owned: Set<Seq<char>>,
    include_global: bool,
    counts: MigrationCounts,
    index: int,
)
    requires
        is_run(events, owned, include_global, counts),
        0 <= index < events.len(),
    ensures
        is_run(events.take(index), owned, include_global, counts),
        answers(events[index], run(events.take(index), owned, include_global, counts).0),
        remaining(run(events, owned, include_global, counts).0) < remaining(
            run(events.take(index), owned, include_global, counts).0,
        ),
    decreases events.len(),
{
    let earlier = events.drop_last();
    migration_makes_progress(
        run(earlier, owned, include_global, counts).0,
        events.last(),
        owned,
        include_global,
    );
    if index == events.len() - 1 {
        assert(events.take(index) =~= earlier);
    } else {
        assert(events.take(index) =~= earlier.take(index));
        remaining_falls(earlier, owned, include_global, counts, index);
    }
}

/// The rows of a table that are copied are those of the user among the rows that were fetched of it.
pub proof fn fetched_rows_are_copied(
    events: Seq<MigrationEvent>,
    owned: Set<Seq<char>>,
    include_global: bool,
    counts: MigrationCounts,
    table: MigratedTable,
    index: int,
    rows: Seq<SqliteRow>,
)
    requires
        is_run(events, owned, include_global, counts),
        0 <= index < events.len(),
        run(events.take(index), owned, include_global, counts).0 == Stage::Fetching(table),
        events[index] matches MigrationEvent::Rows(all) && all@ == rows,
    ensures
        fetched(events, owned, include_global, counts, table) == copied_rows(
            table,
            rows,
            owned,
            include_global,
        ),
    decreases events.len(),
{
    let earlier = events.drop_last();
    if index == events.len() - 1 {
        assert(events.take(index) =~= earlier);
    } else {
        assert(events.take(index) =~= earlier.take(index));
        remaining_falls(earlier, owned, include_global, counts, index);
        fetched_rows_are_copied(earlier, owned, include_global, counts, table, index, rows);
    }
}

/// A table that was found is fetched after its columns were listed.
pub proof fn found_table_is_fetched(
    table: MigratedTable,
    columns: Vec<String>,
    owned: Set<Seq<char>>,
    include_global: bool,
)
    ensures
        next_stage(Stage::Finding(table), MigrationEvent::TableFound, owned, include_global)
            == Stage::Listing(table),
        next_stage(Stage::Listing(table), MigrationEvent::Columns(columns), owned, include_global)
            == Stage::Fetching(table),
{
}

/// An event is expected exactly where the action that it comes of was asked for.
pub proof fn expected_events(event: MigrationEvent, stage: Stage)
    ensures
        answers(event, stage) <==> {
            ||| stage is Opening && (event is DatabaseOpened || event is DatabaseMissing)
            ||| stage is Finding && (event is TableFound || event is TableMissing)
            ||| stage is Listing && event is Columns
            ||| stage is Fetching && event is Rows
            ||| stage is Inserting && event is RowsInserted
            ||| stage is Closing && event is DatabaseClosed
        },
{
}

/// A step that cannot be taken changes nothing: one at an event that is not expected, and one with a row
/// whose owner cannot be read. Any other step leads to the next stage.
pub proof fn steps_follow_the_stages(
    event: MigrationEvent,
    result: Result<MigrationAction, MigrationError>,
)
    ensures
        forall|migration: &mut Migration|
            #![trigger call_ensures(Migration::step, (migration, event), result)]
            call_ensures(Migration::step, (migration, event), result) ==> {
                let owned = migration.owned_thread_ids@;
                let global = migration.include_global;
                let unreadable = migration.stage matches Stage::Fetching(table)
                    && event matches MigrationEvent::Rows(rows) && !owners_readable(table, rows@);
                &&& result is Ok <==> answers(event, migration.stage) && !unreadable
                &&& result is Err ==> *final(migration) == *migration
                &&& result is Ok ==> {
                    &&& final(migration).stage == next_stage(
                        migration.stage,
                        event,
                        owned,
                        global,
                    )
                    &&& final(migration).counts == next_counts(migration.stage, migration.counts)
                    &&& final(migration).owned_thread_ids == migration.owned_thread_ids
                    &&& final(migration).include_global == migration.include_global
                    &&& final(migration).schema == migration.schema
                }
            },
{
}

/// The rows that a migration wants inserted are those of the user among the rows that were fetched, with
/// the statement of the table's copy, and there are as many as it counts then.
pub proof fn rows_of_the_user_are_inserted(
    action: MigrationAction,
    table: MigratedTable,
    count: u64,
    all: Vec<SqliteRow>,
    schema: Seq<char>,
    owned: Set<Seq<char>>,
    include_global: bool,
    counts: MigrationCounts,
)
    requires
        is_wanted(
            action,
            Stage::Inserting(table, count),
            MigrationEvent::Rows(all),
            schema,
            owned,
            include_global,
        ),
    ensures
        action matches MigrationAction::InsertRows { sql, copy, rows } && {
            &&& sql@ == insert_text(schema, copy_spec(table))
            &&& copy@ == copy_spec(table)
            &&& rows@ == copied_rows(table, all@, owned, include_global)
            &&& count_of(next_counts(Stage::Inserting(table, count), counts), table)
                == rows@.len()
        },
{
    replaced_count(counts, table, count, table);
}

/// What a migration wants done at each stage: the file of the database, the name of the table in it and
/// the columns that it has are those of the copy.
pub proof fn sources_are_those_of_the_copy(
    action: MigrationAction,
    stage: Stage,
    event: MigrationEvent,
    schema: Seq<char>,
    owned: Set<Seq<char>>,
    include_global: bool,
)
    requires
        is_wanted(action, stage, event, schema, owned, include_global),
    ensures
        stage matches Stage::Opening(database) ==> (action matches MigrationAction::OpenDatabase {
            file_name,
        } && file_name@ == file_text(database)),
        stage matches Stage::Finding(found) ==> (action matches MigrationAction::FindTable {
            table,
        } && table@ == copy_spec(found).source),
        stage matches Stage::Listing(table) ==> (action matches MigrationAction::ListColumns {
            sql,
        } && sql@ == "SELECT name FROM pragma_table_info('"@ + copy_spec(table).source + "')"@),
        stage matches Stage::Fetching(table) ==> (action matches MigrationAction::FetchRows {
            sql,
        } && (event matches MigrationEvent::Columns(columns) && sql@ == select_text(
            copy_spec(table),
            texts(columns@),
        ))),
        stage is Closing ==> action is CloseDatabase,
        stage is Finished ==> action is Finish,
{
}

/// A migration starts with the first database, with nothing counted.
pub proof fn migration_starts_with_the_state(
    schema: &str,
    owned: StringHashSet,
    include_global: bool,
    started: (Migration, MigrationAction),
)
    requires
        call_ensures(Migration::new, (schema, owned, include_global), started),
    ensures
        started.0.schema@ == schema@,
        started.0.owned_thread_ids == owned,
        started.0.include_global == include_global,
        started.1 matches MigrationAction::OpenDatabase { file_name } && file_name@
            == "state_5.sqlite"@,
        forall|table: MigratedTable| #[trigger] count_of(started.0.counts, table) == 0,
        started.0.stage == run(Seq::empty(), owned@, include_global, started.0.counts).0,
{
}

} // verus!
