//! The projection of legacy rollout files into the thread history of a PostgreSQL schema.
//!
//! A [`LegacyProjection`] decides what happens next. Whoever runs it performs each action and reports
//! what came of it.
use crate::sqlite::{sqlite_cells, sqlite_required_text, SqliteCell};
use crate::text::{
    decimal, find_suffix, occurs, push_decimal, suffix_after, suffix_follows_the_first_occurrence,
    suffix_needs_an_occurrence, texts,
};
use sqlx::sqlite::SqliteRow;
use vstd::hash_set::StringHashSet;
use vstd::multiset::Multiset;
use vstd::prelude::*;

verus! {

/// The query for the threads of a SQLite database and the paths of their rollout files.
pub const SELECT_THREADS: &'static str =
    "SELECT id, rollout_path FROM threads ORDER BY created_at, id";

/// What stands between the state directory and the name of a rollout file in its path.
pub const SESSIONS: &'static str = "/sessions/";

/// What is said of the number of rollout files that were not found.
pub const MISSING_ROLLOUTS: &'static str =
    " owned thread rollout(s) were not found; their PostgreSQL history mode remains legacy";

/// Where a rollout file was found.
#[derive(Debug)]
pub enum RolloutLocation {
    /// At the path that the database holds.
    Stored(String),
    /// Below the directory `sessions` of the state directory.
    Sessions(String),
}

/// What a projection is waiting for.
#[derive(Debug)]
pub enum LegacyStage {
    /// It is being checked whether a thread's rollout file is at its stored path.
    CheckingStored { thread_id: String, path: String },
    /// It is being checked whether a thread's rollout file is below the directory `sessions`.
    CheckingSessions { thread_id: String, suffix: String },
    /// A thread's rollout file is being projected.
    Projecting { thread_id: String },
    /// The projected threads are being switched to the paginated history.
    Updating,
    Finished,
}

/// What came of an action.
#[derive(Debug, Clone, Copy, PartialEq, Eq, Structural)]
pub enum LegacyEvent {
    FileFound,
    FileMissing,
    /// It could not be found out whether there is a file.
    FileCheckFailed,
    Projected,
    Updated,
}

/// What is to be done next.
#[derive(Debug)]
pub enum LegacyAction {
    /// Find out whether there is a file at a path.
    CheckStored { path: String },
    /// Find out whether there is a file below the directory `sessions` of the state directory.
    CheckSessions { suffix: String },
    /// Run the deletions for the thread, then project its rollout file.
    Project { thread_id: String, rollout: RolloutLocation, deletions: Vec<String> },
    /// Run a statement with the ids of threads bound to its parameter.
    Update { sql: String, thread_ids: Vec<String> },
    Report,
}

/// Why a projection cannot go on.
#[derive(Debug)]
pub enum LegacyError {
    /// The event is not what the projection is waiting for.
    Unexpected,
    /// A row could not be read.
    Row(sqlx::Error),
}

/// A projection of the legacy threads of one user.
pub struct LegacyProjection {
    /// The schema that receives the history.
    pub schema: String,
    /// The threads that the user owns.
    pub owned_thread_ids: StringHashSet,
    /// The threads of the database, with the paths of their rollout files.
    pub rows: Vec<SqliteRow>,
    /// The first row that was not looked at.
    pub next_row: usize,
    pub stage: LegacyStage,
    pub projected_thread_ids: Vec<String>,
    /// The threads whose rollout file was not found.
    pub missing_rollouts: Vec<String>,
}

/// What a [`LegacyStage`] stands for.
#[verifier::ext_equal]
pub enum Waiting {
    CheckingStored { thread: Seq<char>, path: Seq<char> },
    CheckingSessions { thread: Seq<char>, suffix: Seq<char> },
    Projecting { thread: Seq<char> },
    Updating,
    Finished,
}

impl View for LegacyStage {
    type V = Waiting;

    open spec fn view(&self) -> Waiting {
        match *self {
            LegacyStage::CheckingStored { thread_id, path } => Waiting::CheckingStored {
                thread: thread_id@,
                path: path@,
            },
            LegacyStage::CheckingSessions { thread_id, suffix } => Waiting::CheckingSessions {
                thread: thread_id@,
                suffix: suffix@,
            },
            LegacyStage::Projecting { thread_id } => Waiting::Projecting { thread: thread_id@ },
            LegacyStage::Updating => Waiting::Updating,
            LegacyStage::Finished => Waiting::Finished,
        }
    }
}

/// How far a projection has come.
#[verifier::ext_equal]
pub struct LegacyProgress {
    pub next_row: int,
    pub waiting: Waiting,
    pub projected: Seq<Seq<char>>,
    pub missing: Seq<Seq<char>>,
}

/// A text that a row holds in a column, where null is the empty text.
pub open spec fn row_text(row: SqliteRow, column: Seq<char>) -> Option<Seq<char>> {
    if !sqlite_cells(row).contains_key(column) {
        None
    } else {
        match sqlite_cells(row)[column] {
            SqliteCell::Text(text) => Some(text),
            SqliteCell::Null => Some(Seq::empty()),
            _ => None,
        }
    }
}

/// What a search for the next thread of a user comes to.
pub enum Search {
    /// A row could not be read.
    Unreadable,
    /// A thread, the path of its rollout file, and the row after it.
    Found { thread: Seq<char>, path: Seq<char>, next_row: int },
    /// There are no more threads of the user.
    End,
}

/// The search for the next thread of a user, from a row on.
pub open spec fn search(rows: Seq<SqliteRow>, owned: Set<Seq<char>>, row: int) -> Search
    decreases rows.len() - row,
{
    if row >= rows.len() {
        Search::End
    } else {
        match row_text(rows[row], "id"@) {
            None => Search::Unreadable,
            Some(thread) => if !owned.contains(thread) {
                search(rows, owned, row + 1)
            } else {
                match row_text(rows[row], "rollout_path"@) {
                    None => Search::Unreadable,
                    Some(path) => Search::Found { thread, path, next_row: row + 1 },
                }
            },
        }
    }
}

/// The progress with the next thread of the user taken up, if the rows up to it can be read.
pub open spec fn advanced(
    rows: Seq<SqliteRow>,
    owned: Set<Seq<char>>,
    progress: LegacyProgress,
) -> Option<LegacyProgress> {
    match search(rows, owned, progress.next_row) {
        Search::Unreadable => None,
        Search::Found { thread, path, next_row } => Some(
            LegacyProgress {
                next_row,
                waiting: Waiting::CheckingStored { thread, path },
                ..progress
            },
        ),
        Search::End => Some(
            LegacyProgress {
                next_row: rows.len() as int,
                waiting: if progress.projected.len() == 0 {
                    Waiting::Finished
                } else {
                    Waiting::Updating
                },
                ..progress
            },
        ),
    }
}

/// Whether an event is what a projection is waiting for.
pub open spec fn expects(waiting: Waiting, event: LegacyEvent) -> bool {
    match waiting {
        Waiting::CheckingStored { .. } | Waiting::CheckingSessions { .. } => {
            event == LegacyEvent::FileFound || event == LegacyEvent::FileMissing || event
                == LegacyEvent::FileCheckFailed
        },
        Waiting::Projecting { .. } => event == LegacyEvent::Projected,
        Waiting::Updating => event == LegacyEvent::Updated,
        Waiting::Finished => false,
    }
}

/// The progress without the thread that was taken up, whose rollout file was not found.
pub open spec fn with_missing(progress: LegacyProgress, thread: Seq<char>) -> LegacyProgress {
    LegacyProgress { missing: progress.missing.push(thread), ..progress }
}

/// The progress with the thread that was taken up projected.
pub open spec fn with_projected(progress: LegacyProgress, thread: Seq<char>) -> LegacyProgress {
    LegacyProgress { projected: progress.projected.push(thread), ..progress }
}

/// The progress after an event, if the rows up to the next thread of the user can be read.
pub open spec fn next_progress(
    rows: Seq<SqliteRow>,
    owned: Set<Seq<char>>,
    progress: LegacyProgress,
    event: LegacyEvent,
) -> Option<LegacyProgress> {
    match progress.waiting {
        Waiting::CheckingStored { thread, path } => if event == LegacyEvent::FileFound {
            Some(LegacyProgress { waiting: Waiting::Projecting { thread }, ..progress })
        } else {
            match suffix_after(path, SESSIONS@) {
                Some(suffix) if event == LegacyEvent::FileMissing => Some(
                    LegacyProgress {
                        waiting: Waiting::CheckingSessions { thread, suffix },
                        ..progress
                    },
                ),
                _ => advanced(rows, owned, with_missing(progress, thread)),
            }
        },
        Waiting::CheckingSessions { thread, .. } => if event == LegacyEvent::FileFound {
            Some(LegacyProgress { waiting: Waiting::Projecting { thread }, ..progress })
        } else {
            advanced(rows, owned, with_missing(progress, thread))
        },
        Waiting::Projecting { thread } => advanced(rows, owned, with_projected(progress, thread)),
        Waiting::Updating => Some(LegacyProgress { waiting: Waiting::Finished, ..progress }),
        Waiting::Finished => Some(progress),
    }
}

/// The statement that deletes what a table of the history holds of a thread.
pub open spec fn deletion_text(schema: Seq<char>, table: Seq<char>) -> Seq<char> {
    "DELETE FROM \""@ + schema + "\".\""@ + table + "\" WHERE thread_id = $1"@
}

/// The statements that delete the history of a thread.
pub open spec fn deletion_texts(schema: Seq<char>) -> Seq<Seq<char>> {
    seq![
        deletion_text(schema, "thread_items"@),
        deletion_text(schema, "thread_turns"@),
        deletion_text(schema, "thread_rollout_events"@),
        deletion_text(schema, "thread_history_projection_state"@),
    ]
}

fn deletion(schema: &str, table: &str) -> (sql: String)
    ensures
        sql@ == deletion_text(schema@, table@),
{
    "DELETE FROM \"".to_owned().concat(schema).concat("\".\"").concat(table).concat(
        "\" WHERE thread_id = $1",
    )
}

/// Writes the statements that delete the history of a thread.
pub fn history_deletions(schema: &str) -> (deletions: Vec<String>)
    ensures
        texts(deletions@) == deletion_texts(schema@),
{
    let deletions = vec![
        deletion(schema, "thread_items"),
        deletion(schema, "thread_turns"),
        deletion(schema, "thread_rollout_events"),
        deletion(schema, "thread_history_projection_state"),
    ];
    assert(texts(deletions@) =~= deletion_texts(schema@));
    deletions
}

/// The statement that switches threads to the paginated history.
pub open spec fn update_mode_text(schema: Seq<char>) -> Seq<char> {
    "UPDATE \""@ + schema + "\".threads SET history_mode = 'paginated' WHERE id = ANY($1)"@
}

/// Writes the statement that switches threads to the paginated history.
pub fn update_mode_sql(schema: &str) -> (sql: String)
    ensures
        sql@ == update_mode_text(schema@),
{
    "UPDATE \"".to_owned().concat(schema).concat(
        "\".threads SET history_mode = 'paginated' WHERE id = ANY($1)",
    )
}

/// Whether a rollout file was found where the projection looked for it.
pub open spec fn is_location(rollout: RolloutLocation, before: Waiting) -> bool {
    match (rollout, before) {
        (RolloutLocation::Stored(path), Waiting::CheckingStored { path: stored, .. }) => path@
            == stored,
        (
            RolloutLocation::Sessions(suffix),
            Waiting::CheckingSessions { suffix: checked, .. },
        ) => suffix@ == checked,
        _ => false,
    }
}

/// Whether an action is what a projection wants done that waited for `before` and has come to
/// `progress`.
pub open spec fn is_next_action(
    action: LegacyAction,
    before: Option<Waiting>,
    progress: LegacyProgress,
    schema: Seq<char>,
) -> bool {
    match (progress.waiting, action) {
        (Waiting::CheckingStored { path: stored, .. }, LegacyAction::CheckStored { path }) => path@
            == stored,
        (
            Waiting::CheckingSessions { suffix: checked, .. },
            LegacyAction::CheckSessions { suffix },
        ) => suffix@ == checked,
        (
            Waiting::Projecting { thread },
            LegacyAction::Project { thread_id, rollout, deletions },
        ) => {
            &&& thread_id@ == thread
            &&& before matches Some(before) && is_location(rollout, before)
            &&& texts(deletions@) == deletion_texts(schema)
        },
        (Waiting::Updating, LegacyAction::Update { sql, thread_ids }) => {
            &&& sql@ == update_mode_text(schema)
            &&& texts(thread_ids@) == progress.projected
        },
        (Waiting::Finished, LegacyAction::Report) => true,
        _ => false,
    }
}

fn copy_texts(list: &Vec<String>) -> (copy: Vec<String>)
    ensures
        texts(copy@) == texts(list@),
{
    let mut copy: Vec<String> = Vec::new();
    let mut index: usize = 0;
    while index < list.len()
        invariant
            index <= list@.len(),
            copy@.len() == index,
            forall|i: int| 0 <= i < index ==> (#[trigger] copy@[i])@ == list@[i]@,
        decreases list@.len() - index,
    {
        copy.push(list[index].clone());
        index += 1;
    }
    assert(texts(copy@) =~= texts(list@));
    copy
}

struct NextThread {
    thread_id: String,
    path: String,
    next_row: usize,
}

/// Whether `found` is what a search came to.
spec fn is_found(found: Option<NextThread>, search: Search) -> bool {
    match (search, found) {
        (Search::Found { thread, path, next_row }, Some(found)) => {
            &&& found.thread_id@ == thread
            &&& found.path@ == path
            &&& found.next_row == next_row
        },
        (Search::End, None) => true,
        _ => false,
    }
}

impl LegacyProjection {
    /// How far this has come.
    pub open spec fn progress(&self) -> LegacyProgress {
        LegacyProgress {
            next_row: self.next_row as int,
            waiting: self.stage@,
            projected: texts(self.projected_thread_ids@),
            missing: texts(self.missing_rollouts@),
        }
    }

    /// The next row is one of the rows, or the end.
    pub open spec fn well_formed(&self) -> bool {
        self.next_row <= self.rows@.len()
    }

    /// Whether this differs from `other` in nothing but the progress.
    pub open spec fn same_task(&self, other: &LegacyProjection) -> bool {
        &&& self.schema == other.schema
        &&& self.owned_thread_ids == other.owned_thread_ids
        &&& self.rows == other.rows
    }

    /// The search for the next thread of the user.
    pub open spec fn search(&self) -> Search {
        search(self.rows@, self.owned_thread_ids@, self.next_row as int)
    }

    /// Finds the next thread of the user.
    fn find_thread(&self) -> (result: Result<Option<NextThread>, sqlx::Error>)
        ensures
            match result {
                Ok(found) => {
                    &&& is_found(found, self.search())
                    &&& found matches Some(found) ==> found.next_row <= self.rows@.len()
                },
                Err(_) => self.search() is Unreadable,
            },
    {
        let mut row: usize = self.next_row;
        while row < self.rows.len()
            invariant
                self.next_row <= row,
                search(self.rows@, self.owned_thread_ids@, self.next_row as int) == search(
                    self.rows@,
                    self.owned_thread_ids@,
                    row as int,
                ),
            decreases self.rows@.len() - row,
        {
            match sqlite_required_text(&self.rows[row], "id") {
                Err(error) => {
                    return Err(error);
                },
                Ok(thread_id) => {
                    assert(row_text(self.rows@[row as int], "id"@) == Some(thread_id@));
                    if self.owned_thread_ids.contains(thread_id.as_str()) {
                        return match sqlite_required_text(&self.rows[row], "rollout_path") {
                            Err(error) => Err(error),
                            Ok(path) => {
                                assert(row_text(self.rows@[row as int], "rollout_path"@) == Some(
                                    path@,
                                ));
                                Ok(Some(NextThread { thread_id, path, next_row: row + 1 }))
                            },
                        };
                    }
                },
            }
            row += 1;
        }
        Ok(None)
    }

    /// Takes up a thread, or ends where there are no more.
    fn take_up(&mut self, found: Option<NextThread>) -> (action: LegacyAction)
        requires
            is_found(found, old(self).search()),
            found matches Some(found) ==> found.next_row <= old(self).rows@.len(),
        ensures
            final(self).well_formed(),
            final(self).same_task(old(self)),
            advanced(old(self).rows@, old(self).owned_thread_ids@, old(self).progress()) == Some(
                final(self).progress(),
            ),
            is_next_action(action, None, final(self).progress(), old(self).schema@),
    {
        match found {
            Some(found) => {
                self.next_row = found.next_row;
                let path = found.path.clone();
                self.stage = LegacyStage::CheckingStored {
                    thread_id: found.thread_id,
                    path: found.path,
                };
                LegacyAction::CheckStored { path }
            },
            None => {
                self.next_row = self.rows.len();
                if self.projected_thread_ids.len() == 0 {
                    self.stage = LegacyStage::Finished;
                    LegacyAction::Report
                } else {
                    self.stage = LegacyStage::Updating;
                    LegacyAction::Update {
                        sql: update_mode_sql(self.schema.as_str()),
                        thread_ids: copy_texts(&self.projected_thread_ids),
                    }
                }
            },
        }
    }

    /// Starts a projection into `schema` for the user who owns `owned_thread_ids`.
    pub fn new(
        schema: &str,
        owned_thread_ids: StringHashSet,
        rows: Vec<SqliteRow>,
    ) -> (result: Result<(LegacyProjection, LegacyAction), LegacyError>)
        ensures
            ({
                let start = LegacyProgress {
                    next_row: 0,
                    waiting: Waiting::Finished,
                    projected: Seq::empty(),
                    missing: Seq::empty(),
                };
                match (advanced(rows@, owned_thread_ids@, start), result) {
                    (Some(progress), Ok((projection, action))) => {
                        &&& projection.well_formed()
                        &&& projection.schema@ == schema@
                        &&& projection.owned_thread_ids == owned_thread_ids
                        &&& projection.rows == rows
                        &&& projection.progress() == progress
                        &&& is_next_action(action, None, progress, schema@)
                    },
                    (None, Err(LegacyError::Row(_))) => true,
                    _ => false,
                }
            }),
    {
        let mut projection = LegacyProjection {
            schema: schema.to_owned(),
            owned_thread_ids,
            rows,
            next_row: 0,
            stage: LegacyStage::Finished,
            projected_thread_ids: Vec::new(),
            missing_rollouts: Vec::new(),
        };
        assert(projection.progress().projected =~= Seq::empty());
        assert(projection.progress().missing =~= Seq::empty());
        match projection.find_thread() {
            Err(error) => Err(LegacyError::Row(error)),
            Ok(found) => {
                let action = projection.take_up(found);
                Ok((projection, action))
            },
        }
    }

    /// Takes note of a thread whose rollout file was not found.
    fn end_missing(&mut self, thread_id: String) -> (result: Result<LegacyAction, LegacyError>)
        ensures
            final(self).same_task(old(self)),
            old(self).well_formed() ==> final(self).well_formed(),
            match result {
                Ok(action) => {
                    &&& advanced(
                        old(self).rows@,
                        old(self).owned_thread_ids@,
                        with_missing(old(self).progress(), thread_id@),
                    ) == Some(final(self).progress())
                    &&& is_next_action(action, None, final(self).progress(), old(self).schema@)
                },
                Err(error) => {
                    &&& error is Row
                    &&& old(self).search() is Unreadable
                    &&& *final(self) == *old(self)
                },
            },
    {
        match self.find_thread() {
            Err(error) => Err(LegacyError::Row(error)),
            Ok(found) => {
                self.missing_rollouts.push(thread_id);
                assert(self.progress() =~= with_missing(old(self).progress(), thread_id@));
                Ok(self.take_up(found))
            },
        }
    }

    /// Takes note of a thread that was projected.
    fn end_projected(&mut self, thread_id: String) -> (result: Result<LegacyAction, LegacyError>)
        ensures
            final(self).same_task(old(self)),
            old(self).well_formed() ==> final(self).well_formed(),
            match result {
                Ok(action) => {
                    &&& advanced(
                        old(self).rows@,
                        old(self).owned_thread_ids@,
                        with_projected(old(self).progress(), thread_id@),
                    ) == Some(final(self).progress())
                    &&& is_next_action(action, None, final(self).progress(), old(self).schema@)
                },
                Err(error) => {
                    &&& error is Row
                    &&& old(self).search() is Unreadable
                    &&& *final(self) == *old(self)
                },
            },
    {
        match self.find_thread() {
            Err(error) => Err(LegacyError::Row(error)),
            Ok(found) => {
                self.projected_thread_ids.push(thread_id);
                assert(self.progress() =~= with_projected(old(self).progress(), thread_id@));
                Ok(self.take_up(found))
            },
        }
    }

    /// Goes on with a rollout file that was found.
    fn project(&mut self, thread_id: String, rollout: RolloutLocation) -> (action: LegacyAction)
        requires
            is_location(rollout, old(self).stage@),
        ensures
            final(self).same_task(old(self)),
            old(self).well_formed() ==> final(self).well_formed(),
            final(self).progress() == (LegacyProgress {
                waiting: Waiting::Projecting { thread: thread_id@ },
                ..old(self).progress()
            }),
            is_next_action(
                action,
                Some(old(self).stage@),
                final(self).progress(),
                old(self).schema@,
            ),
    {
        let deletions = history_deletions(self.schema.as_str());
        self.stage = LegacyStage::Projecting { thread_id: thread_id.clone() };
        LegacyAction::Project { thread_id, rollout, deletions }
    }

    /// Takes note of an event and says what is to be done next. The projection stays as it is where
    /// it cannot go on.
    pub fn step(&mut self, event: LegacyEvent) -> (result: Result<LegacyAction, LegacyError>)
        ensures
            old(self).well_formed() ==> final(self).well_formed(),
            final(self).same_task(old(self)),
            match result {
                Ok(action) => {
                    &&& expects(old(self).stage@, event)
                    &&& next_progress(
                        old(self).rows@,
                        old(self).owned_thread_ids@,
                        old(self).progress(),
                        event,
                    ) == Some(final(self).progress())
                    &&& is_next_action(
                        action,
                        Some(old(self).stage@),
                        final(self).progress(),
                        old(self).schema@,
                    )
                },
                Err(LegacyError::Unexpected) => {
                    &&& !expects(old(self).stage@, event)
                    &&& *final(self) == *old(self)
                },
                Err(LegacyError::Row(_)) => {
                    &&& expects(old(self).stage@, event)
                    &&& next_progress(
                        old(self).rows@,
                        old(self).owned_thread_ids@,
                        old(self).progress(),
                        event,
                    ) is None
                    &&& *final(self) == *old(self)
                },
            },
    {
        match (&self.stage, event) {
            (LegacyStage::CheckingStored { thread_id, path }, LegacyEvent::FileFound) => {
                let thread_id = thread_id.clone();
                let path = path.clone();
                Ok(self.project(thread_id, RolloutLocation::Stored(path)))
            },
            (LegacyStage::CheckingStored { thread_id, path }, LegacyEvent::FileMissing) => {
                let thread_id = thread_id.clone();
                match find_suffix(path.as_str(), SESSIONS) {
                    Some(suffix) => {
                        self.stage = LegacyStage::CheckingSessions {
                            thread_id,
                            suffix: suffix.clone(),
                        };
                        Ok(LegacyAction::CheckSessions { suffix })
                    },
                    None => self.end_missing(thread_id),
                }
            },
            (LegacyStage::CheckingSessions { thread_id, suffix }, LegacyEvent::FileFound) => {
                let thread_id = thread_id.clone();
                let suffix = suffix.clone();
                Ok(self.project(thread_id, RolloutLocation::Sessions(suffix)))
            },
            (LegacyStage::CheckingStored { thread_id, .. }, LegacyEvent::FileCheckFailed)
            | (LegacyStage::CheckingSessions { thread_id, .. }, LegacyEvent::FileMissing)
            | (LegacyStage::CheckingSessions { thread_id, .. }, LegacyEvent::FileCheckFailed) => {
                let thread_id = thread_id.clone();
                self.end_missing(thread_id)
            },
            (LegacyStage::Projecting { thread_id }, LegacyEvent::Projected) => {
                let thread_id = thread_id.clone();
                self.end_projected(thread_id)
            },
            (LegacyStage::Updating, LegacyEvent::Updated) => {
                self.stage = LegacyStage::Finished;
                Ok(LegacyAction::Report)
            },
            _ => Err(LegacyError::Unexpected),
        }
    }

    /// What to tell the user if rollout files were not found.
    pub fn missing_message(&self) -> (message: Option<String>)
        ensures
            match message {
                None => self.missing_rollouts@.len() == 0,
                Some(message) => {
                    &&& self.missing_rollouts@.len() > 0
                    &&& message@ == decimal(self.missing_rollouts@.len()) + MISSING_ROLLOUTS@
                },
            },
    {
        if self.missing_rollouts.len() == 0 {
            None
        } else {
            let mut message = String::new();
            push_decimal(&mut message, self.missing_rollouts.len() as u64);
            message.append(MISSING_ROLLOUTS);
            assert(message@ =~= decimal(self.missing_rollouts@.len()) + MISSING_ROLLOUTS@);
            Some(message)
        }
    }
}

/// The threads of the user among the rows.
pub open spec fn threads_of_user(rows: Seq<SqliteRow>, owned: Set<Seq<char>>) -> Seq<Seq<char>>
    decreases rows.len(),
{
    if rows.len() == 0 {
        Seq::empty()
    } else {
        let before = threads_of_user(rows.drop_last(), owned);
        match row_text(rows.last(), "id"@) {
            Some(thread) if owned.contains(thread) => before.push(thread),
            _ => before,
        }
    }
}

/// The thread that a projection has taken up.
pub open spec fn in_hand(waiting: Waiting) -> Multiset<Seq<char>> {
    match waiting {
        Waiting::CheckingStored { thread, .. } => Multiset::singleton(thread),
        Waiting::CheckingSessions { thread, .. } => Multiset::singleton(thread),
        Waiting::Projecting { thread } => Multiset::singleton(thread),
        _ => Multiset::empty(),
    }
}

/// Whether each thread of the user among the rows that were looked at was projected, has no rollout
/// file, or has been taken up, and whether no row is left at the end.
pub open spec fn accounts_for_all(
    rows: Seq<SqliteRow>,
    owned: Set<Seq<char>>,
    progress: LegacyProgress,
) -> bool {
    &&& 0 <= progress.next_row <= rows.len()
    &&& threads_of_user(rows.take(progress.next_row), owned).to_multiset()
        == progress.projected.to_multiset().add(progress.missing.to_multiset()).add(
        in_hand(progress.waiting),
    )
    &&& (progress.waiting is Updating || progress.waiting is Finished) ==> progress.next_row
        == rows.len()
}

proof fn search_passes_others(rows: Seq<SqliteRow>, owned: Set<Seq<char>>, row: int)
    requires
        0 <= row <= rows.len(),
    ensures
        match search(rows, owned, row) {
            Search::Unreadable => true,
            Search::Found { thread, next_row, .. } => {
                &&& row < next_row <= rows.len()
                &&& threads_of_user(rows.take(next_row), owned) == threads_of_user(
                    rows.take(row),
                    owned,
                ).push(thread)
            },
            Search::End => threads_of_user(rows.take(rows.len() as int), owned) == threads_of_user(
                rows.take(row),
                owned,
            ),
        },
    decreases rows.len() - row,
{
    if row < rows.len() {
        assert(rows.take(row + 1).drop_last() =~= rows.take(row));
        assert(rows.take(row + 1).last() == rows[row]);
        search_passes_others(rows, owned, row + 1);
    }
}

/// Taking up the next thread keeps account of all threads, if no thread has been taken up.
pub proof fn taking_up_accounts_for_all(
    rows: Seq<SqliteRow>,
    owned: Set<Seq<char>>,
    progress: LegacyProgress,
)
    requires
        0 <= progress.next_row <= rows.len(),
        threads_of_user(rows.take(progress.next_row), owned).to_multiset()
            == progress.projected.to_multiset().add(progress.missing.to_multiset()),
    ensures
        advanced(rows, owned, progress) matches Some(next) ==> accounts_for_all(rows, owned, next),
{
    broadcast use vstd::seq_lib::group_to_multiset_ensures;

    search_passes_others(rows, owned, progress.next_row);
    if let Some(next) = advanced(rows, owned, progress) {
        let done = progress.projected.to_multiset().add(progress.missing.to_multiset());
        assert(done.add(in_hand(next.waiting)) =~= threads_of_user(
            rows.take(next.next_row),
            owned,
        ).to_multiset());
    }
}

/// A projection loses no thread of the user and takes none up twice: after each event, the threads
/// among the rows that were looked at are those that were projected, those without a rollout file
/// and the one that was taken up.
pub proof fn events_account_for_all(
    rows: Seq<SqliteRow>,
    owned: Set<Seq<char>>,
    progress: LegacyProgress,
    event: LegacyEvent,
)
    requires
        accounts_for_all(rows, owned, progress),
        expects(progress.waiting, event),
    ensures
        next_progress(rows, owned, progress, event) matches Some(next) ==> accounts_for_all(
            rows,
            owned,
            next,
        ),
{
    broadcast use vstd::seq_lib::group_to_multiset_ensures;

    let projected = progress.projected.to_multiset();
    let missing = progress.missing.to_multiset();
    match progress.waiting {
        Waiting::CheckingStored { thread, .. } | Waiting::CheckingSessions { thread, .. } => {
            assert(projected.add(missing).add(Multiset::singleton(thread)) =~= projected.add(
                progress.missing.push(thread).to_multiset(),
            ));
            taking_up_accounts_for_all(rows, owned, with_missing(progress, thread));
        },
        Waiting::Projecting { thread } => {
            assert(projected.add(missing).add(Multiset::singleton(thread)) =~= progress.projected.push(
                thread,
            ).to_multiset().add(missing));
            taking_up_accounts_for_all(rows, owned, with_projected(progress, thread));
        },
        _ => {},
    }
}

proof fn threads_of_user_are_owned(
    rows: Seq<SqliteRow>,
    owned: Set<Seq<char>>,
    thread: Seq<char>,
)
    requires
        threads_of_user(rows, owned).contains(thread),
    ensures
        owned.contains(thread),
    decreases rows.len(),
{
    if rows.len() > 0 {
        let before = threads_of_user(rows.drop_last(), owned);
        if before.contains(thread) {
            threads_of_user_are_owned(rows.drop_last(), owned, thread);
        }
    }
}

/// Only threads of the user are projected.
pub proof fn only_owned_threads_are_projected(
    rows: Seq<SqliteRow>,
    owned: Set<Seq<char>>,
    progress: LegacyProgress,
    thread: Seq<char>,
)
    requires
        accounts_for_all(rows, owned, progress),
        progress.projected.contains(thread) || in_hand(progress.waiting).contains(thread),
    ensures
        owned.contains(thread),
{
    broadcast use vstd::seq_lib::group_to_multiset_ensures;

    let taken = rows.take(progress.next_row);
    assert(threads_of_user(taken, owned).to_multiset().count(thread) > 0);
    threads_of_user_are_owned(taken, owned, thread);
}

/// How many events a projection may still wait for.
pub open spec fn events_left(rows: Seq<SqliteRow>, progress: LegacyProgress) -> int {
    4 * (rows.len() - progress.next_row) + match progress.waiting {
        Waiting::CheckingStored { .. } => 4int,
        Waiting::CheckingSessions { .. } => 3,
        Waiting::Projecting { .. } => 2,
        Waiting::Updating => 1,
        Waiting::Finished => 0,
    }
}

/// Each event brings a projection closer to its end.
pub proof fn projection_makes_progress(
    rows: Seq<SqliteRow>,
    owned: Set<Seq<char>>,
    progress: LegacyProgress,
    event: LegacyEvent,
)
    requires
        0 <= progress.next_row <= rows.len(),
        expects(progress.waiting, event),
    ensures
        next_progress(rows, owned, progress, event) matches Some(next) ==> 0 <= events_left(
            rows,
            next,
        ) < events_left(rows, progress),
{
    search_passes_others(rows, owned, progress.next_row);
}

/// Whether a row holds a text in a column, where null is the empty text.
pub open spec fn has_text(row: SqliteRow, column: Seq<char>, text: Seq<char>) -> bool {
    &&& sqlite_cells(row).contains_key(column)
    &&& sqlite_cells(row)[column] == SqliteCell::Text(text) || (sqlite_cells(row)[column] is Null
        && text.len() == 0)
}

/// Whether a row is that of a thread of another user.
pub open spec fn is_of_another(row: SqliteRow, owned: Set<Seq<char>>) -> bool {
    exists|thread: Seq<char>| #[trigger] has_text(row, "id"@, thread) && !owned.contains(thread)
}

/// Whether the next row of the user after `row` is the one at `found`.
pub open spec fn is_next_of_user(
    rows: Seq<SqliteRow>,
    owned: Set<Seq<char>>,
    row: int,
    found: int,
) -> bool {
    &&& row <= found < rows.len()
    &&& forall|i: int| row <= i < found ==> is_of_another(#[trigger] rows[i], owned)
    &&& exists|thread: Seq<char>| #[trigger]
        has_text(rows[found], "id"@, thread) && owned.contains(thread)
}

/// Whether the row at `found` stops a search from `row` on: the rows before it are those of other users,
/// and its id cannot be read, or it is one of the user whose path cannot be read.
pub open spec fn is_next_unreadable(
    rows: Seq<SqliteRow>,
    owned: Set<Seq<char>>,
    row: int,
    found: int,
) -> bool {
    &&& row <= found < rows.len()
    &&& forall|i: int| row <= i < found ==> is_of_another(#[trigger] rows[i], owned)
    &&& (forall|id: Seq<char>| !#[trigger] has_text(rows[found], "id"@, id)) || (is_next_of_user(
        rows,
        owned,
        row,
        found,
    ) && forall|path: Seq<char>| !#[trigger] has_text(rows[found], "rollout_path"@, path))
}

/// A search passes the threads of other users and takes up the first thread of the user, with the path
/// that its row holds. It ends only where all the other rows are those of other users.
pub proof fn search_finds_the_next_of_user(
    rows: Seq<SqliteRow>,
    owned: Set<Seq<char>>,
    row: int,
)
    requires
        0 <= row <= rows.len(),
    ensures
        match search(rows, owned, row) {
            Search::Found { thread, path, next_row } => {
                &&& is_next_of_user(rows, owned, row, next_row - 1)
                &&& has_text(rows[next_row - 1], "id"@, thread)
                &&& has_text(rows[next_row - 1], "rollout_path"@, path)
                &&& owned.contains(thread)
            },
            Search::End => forall|i: int|
                row <= i < rows.len() ==> is_of_another(#[trigger] rows[i], owned),
            Search::Unreadable => exists|found: int| #[trigger]
                is_next_unreadable(rows, owned, row, found),
        },
    decreases rows.len() - row,
{
    if row < rows.len() {
        let id = row_text(rows[row], "id"@);
        let path = row_text(rows[row], "rollout_path"@);
        if let Some(thread) = id {
            assert(has_text(rows[row], "id"@, thread)) by {
                if sqlite_cells(rows[row])["id"@] is Null {
                    assert(thread.len() == 0);
                }
            }
        }
        if let Some(path) = path {
            assert(has_text(rows[row], "rollout_path"@, path));
        }
        assert forall|text: Seq<char>| #[trigger] has_text(rows[row], "id"@, text) implies id
            == Some(text) by {
            if sqlite_cells(rows[row])["id"@] is Null {
                assert(text =~= Seq::empty());
            }
        }
        assert forall|text: Seq<char>| #[trigger]
            has_text(rows[row], "rollout_path"@, text) implies path == Some(text) by {
            if sqlite_cells(rows[row])["rollout_path"@] is Null {
                assert(text =~= Seq::empty());
            }
        }
        if id is Some && !owned.contains(id->0) {
            assert(is_of_another(rows[row], owned));
            search_finds_the_next_of_user(rows, owned, row + 1);
            if let Search::Unreadable = search(rows, owned, row) {
                let found = choose|found: int| #[trigger]
                    is_next_unreadable(rows, owned, row + 1, found);
                if is_next_of_user(rows, owned, row + 1, found) {
                    assert(is_next_of_user(rows, owned, row, found));
                }
                assert(is_next_unreadable(rows, owned, row, found));
            }
        } else if id is Some && path is None {
            assert(is_next_of_user(rows, owned, row, row));
            assert(is_next_unreadable(rows, owned, row, row));
        } else if id is None {
            assert(is_next_unreadable(rows, owned, row, row));
        } else {
            assert(is_next_of_user(rows, owned, row, row));
        }
    }
}

/// A thread is projected only from a file that was found: a projection starts to project the thread that
/// it is checking, where its file was found, and at no other event.
pub proof fn only_found_files_are_projected(
    rows: Seq<SqliteRow>,
    owned: Set<Seq<char>>,
    progress: LegacyProgress,
    event: LegacyEvent,
    thread: Seq<char>,
)
    requires
        next_progress(rows, owned, progress, event) matches Some(next) && next.waiting
            == (Waiting::Projecting { thread }),
    ensures
        event is FileFound,
        progress.waiting is CheckingStored || progress.waiting is CheckingSessions,
        progress.waiting matches Waiting::CheckingStored { thread: checked, .. } ==> checked
            == thread,
        progress.waiting matches Waiting::CheckingSessions { thread: checked, .. } ==> checked
            == thread,
{
}

/// A thread whose file was found is projected next, and nothing else changes.
pub proof fn found_file_is_projected(
    rows: Seq<SqliteRow>,
    owned: Set<Seq<char>>,
    progress: LegacyProgress,
    thread: Seq<char>,
)
    requires
        match progress.waiting {
            Waiting::CheckingStored { thread: checked, .. } => checked == thread,
            Waiting::CheckingSessions { thread: checked, .. } => checked == thread,
            _ => false,
        },
    ensures
        ({
            let next = next_progress(rows, owned, progress, LegacyEvent::FileFound)->0;
            &&& next_progress(rows, owned, progress, LegacyEvent::FileFound) is Some
            &&& next.waiting == (Waiting::Projecting { thread })
            &&& next.next_row == progress.next_row
            &&& next.projected == progress.projected
            &&& next.missing == progress.missing
        }),
{
}

/// Whether a projection has gone on from one thread: with the next thread of the user if there is one,
/// else with the update if a thread was projected, else with its end.
pub open spec fn goes_on(
    rows: Seq<SqliteRow>,
    owned: Set<Seq<char>>,
    row: int,
    next: LegacyProgress,
) -> bool {
    match next.waiting {
        Waiting::CheckingStored { thread, path } => {
            &&& is_next_of_user(rows, owned, row, next.next_row - 1)
            &&& owned.contains(thread)
            &&& has_text(rows[next.next_row - 1], "id"@, thread)
            &&& has_text(rows[next.next_row - 1], "rollout_path"@, path)
        },
        Waiting::Updating => {
            &&& next.next_row == rows.len()
            &&& next.projected.len() > 0
            &&& forall|i: int| row <= i < rows.len() ==> is_of_another(#[trigger] rows[i], owned)
        },
        Waiting::Finished => {
            &&& next.next_row == rows.len()
            &&& next.projected.len() == 0
            &&& forall|i: int| row <= i < rows.len() ==> is_of_another(#[trigger] rows[i], owned)
        },
        _ => false,
    }
}

/// A thread that is checked below the directory `sessions` and whose file is not found there, or cannot
/// be checked, is the last of the missing ones and is not projected. The projection goes on with the
/// next thread.
pub proof fn thread_without_a_file_is_missing(
    rows: Seq<SqliteRow>,
    owned: Set<Seq<char>>,
    progress: LegacyProgress,
    event: LegacyEvent,
    thread: Seq<char>,
    suffix: Seq<char>,
)
    requires
        0 <= progress.next_row <= rows.len(),
        progress.waiting == (Waiting::CheckingSessions { thread, suffix }),
        expects(progress.waiting, event),
        !(event is FileFound),
    ensures
        next_progress(rows, owned, progress, event) is None <==> search(
            rows,
            owned,
            progress.next_row,
        ) is Unreadable,
        next_progress(rows, owned, progress, event) matches Some(next) ==> {
            &&& next.missing == progress.missing.push(thread)
            &&& next.missing.last() == thread
            &&& next.projected == progress.projected
            &&& goes_on(rows, owned, progress.next_row, next)
        },
{
    search_finds_the_next_of_user(rows, owned, progress.next_row);
}

/// A thread whose file is not at its stored path is looked for below the directory `sessions`, under what
/// follows the first `/sessions/` of the path, if the file is known to be missing. It is missing if the
/// path has no such part or the file could not be checked.
pub proof fn thread_is_looked_for_below_sessions(
    rows: Seq<SqliteRow>,
    owned: Set<Seq<char>>,
    progress: LegacyProgress,
    event: LegacyEvent,
    thread: Seq<char>,
    path: Seq<char>,
)
    requires
        0 <= progress.next_row <= rows.len(),
        progress.waiting == (Waiting::CheckingStored { thread, path }),
        expects(progress.waiting, event),
        !(event is FileFound),
    ensures
        event is FileMissing ==> forall|position: int|
            {
                &&& #[trigger] occurs(path, "/sessions/"@, position)
                &&& forall|earlier: int|
                    0 <= earlier < position ==> !#[trigger] occurs(path, "/sessions/"@, earlier)
            } ==> next_progress(rows, owned, progress, event) == Some(
                LegacyProgress {
                    waiting: Waiting::CheckingSessions { thread, suffix: path.skip(position + 10) },
                    ..progress
                },
            ),
        event is FileCheckFailed || (forall|position: int|
            !#[trigger] occurs(path, "/sessions/"@, position)) ==> {
            &&& next_progress(rows, owned, progress, event) is None <==> search(
                rows,
                owned,
                progress.next_row,
            ) is Unreadable
            &&& next_progress(rows, owned, progress, event) matches Some(next) ==> {
                &&& next.missing == progress.missing.push(thread)
                &&& next.projected == progress.projected
                &&& goes_on(rows, owned, progress.next_row, next)
            }
        },
{
    reveal_strlit("/sessions/");
    assert("/sessions/"@.len() == 10);
    search_finds_the_next_of_user(rows, owned, progress.next_row);
    if forall|position: int| !#[trigger] occurs(path, "/sessions/"@, position) {
        suffix_needs_an_occurrence(path, "/sessions/"@);
    }
    assert forall|position: int|
        {
            &&& #[trigger] occurs(path, "/sessions/"@, position)
            &&& forall|earlier: int|
                0 <= earlier < position ==> !#[trigger] occurs(path, "/sessions/"@, earlier)
        } implies suffix_after(path, "/sessions/"@) == Some(path.skip(position + 10)) by {
        suffix_follows_the_first_occurrence(path, "/sessions/"@, position);
    }
}

/// A thread that was projected is the last of the projected ones, and no thread becomes missing by it.
/// Once the projected threads are updated, the projection is at its end.
pub proof fn projected_thread_is_kept(
    rows: Seq<SqliteRow>,
    owned: Set<Seq<char>>,
    progress: LegacyProgress,
    thread: Seq<char>,
)
    requires
        0 <= progress.next_row <= rows.len(),
    ensures
        progress.waiting == (Waiting::Projecting { thread }) ==> {
            let result = next_progress(rows, owned, progress, LegacyEvent::Projected);
            &&& result is None <==> search(rows, owned, progress.next_row) is Unreadable
            &&& result matches Some(next) ==> {
                &&& next.projected == progress.projected.push(thread)
                &&& next.missing == progress.missing
                &&& goes_on(rows, owned, progress.next_row, next)
            }
        },
        progress.waiting is Updating ==> next_progress(
            rows,
            owned,
            progress,
            LegacyEvent::Updated,
        ) == Some(LegacyProgress { waiting: Waiting::Finished, ..progress }),
{
    search_finds_the_next_of_user(rows, owned, progress.next_row);
}

/// A projection starts with the first thread of the user.
pub proof fn projection_starts_with_the_first_thread(
    rows: Seq<SqliteRow>,
    owned: Set<Seq<char>>,
    start: LegacyProgress,
)
    requires
        start.next_row == 0,
        start.projected.len() == 0,
    ensures
        advanced(rows, owned, start) is None <==> search(rows, owned, 0) is Unreadable,
        advanced(rows, owned, start) matches Some(next) ==> {
            &&& next.projected == start.projected
            &&& next.missing == start.missing
            &&& goes_on(rows, owned, 0, next)
        },
{
    search_finds_the_next_of_user(rows, owned, 0);
}

/// An event is expected exactly where the action that it comes of was asked for.
pub proof fn expected_events(waiting: Waiting)
    ensures
        waiting is CheckingStored || waiting is CheckingSessions ==> expects(
            waiting,
            LegacyEvent::FileFound,
        ) && expects(waiting, LegacyEvent::FileMissing) && expects(
            waiting,
            LegacyEvent::FileCheckFailed,
        ) && !expects(waiting, LegacyEvent::Projected) && !expects(waiting, LegacyEvent::Updated),
        waiting is Projecting ==> forall|event: LegacyEvent| #[trigger]
            expects(waiting, event) <==> event is Projected,
        waiting is Updating ==> forall|event: LegacyEvent| #[trigger]
            expects(waiting, event) <==> event is Updated,
        waiting is Finished ==> forall|event: LegacyEvent| !#[trigger] expects(waiting, event),
{
}

/// Before a thread is projected, everything that the tables of the history hold of it is deleted, and the
/// projected threads are then switched to the paginated history.
pub proof fn texts_of_statements(schema: Seq<char>, table: Seq<char>)
    ensures
        deletion_texts(schema).contains(
            "DELETE FROM \""@ + schema + "\".\""@ + table + "\" WHERE thread_id = $1"@,
        ) <== (table == "thread_items"@ || table == "thread_turns"@ || table
            == "thread_rollout_events"@ || table == "thread_history_projection_state"@),
        deletion_texts(schema).len() == 4,
        update_mode_text(schema) == "UPDATE \""@ + schema
            + "\".threads SET history_mode = 'paginated' WHERE id = ANY($1)"@,
{
    let texts = deletion_texts(schema);
    assert(texts[0] == deletion_text(schema, "thread_items"@));
    assert(texts[1] == deletion_text(schema, "thread_turns"@));
    assert(texts[2] == deletion_text(schema, "thread_rollout_events"@));
    assert(texts[3] == deletion_text(schema, "thread_history_projection_state"@));
}

/// A rollout file is projected from where it was found.
pub proof fn file_is_projected_from_where_it_was_found(
    action: LegacyAction,
    before: Waiting,
    progress: LegacyProgress,
    schema: Seq<char>,
    thread: Seq<char>,
)
    requires
        progress.waiting == (Waiting::Projecting { thread }),
        is_next_action(action, Some(before), progress, schema),
    ensures
        action matches LegacyAction::Project { thread_id, rollout, deletions } && {
            &&& thread_id@ == thread
            &&& deletions@.len() == 4
            &&& forall|i: int|
                0 <= i < deletions@.len() ==> (#[trigger] deletions@[i])@ == deletion_texts(
                    schema,
                )[i]
            &&& match before {
                Waiting::CheckingStored { path, .. } => rollout matches RolloutLocation::Stored(
                    found,
                ) && found@ == path,
                Waiting::CheckingSessions {
                    suffix,
                    ..
                } => rollout matches RolloutLocation::Sessions(found) && found@ == suffix,
                _ => false,
            }
        },
{
    match action {
        LegacyAction::Project { deletions, .. } => {
            assert(texts(deletions@).len() == deletions@.len());
            assert forall|i: int| 0 <= i < deletions@.len() implies (#[trigger] deletions@[i])@
                == deletion_texts(schema)[i] by {
                assert(texts(deletions@)[i] == deletions@[i]@);
            }
        },
        _ => {},
    }
}

/// A rollout file is looked for at the path, or below the directory `sessions` under the name, that the
/// projection waits for.
pub proof fn files_are_looked_for_where_they_may_be(
    action: LegacyAction,
    before: Option<Waiting>,
    progress: LegacyProgress,
    schema: Seq<char>,
)
    requires
        is_next_action(action, before, progress, schema),
    ensures
        progress.waiting matches Waiting::CheckingStored { path: wanted, .. } ==> (
        action matches LegacyAction::CheckStored { path } && path@ == wanted),
        progress.waiting matches Waiting::CheckingSessions { suffix: wanted, .. } ==> (
        action matches LegacyAction::CheckSessions { suffix } && suffix@ == wanted),
        progress.waiting is Projecting ==> action is Project,
        progress.waiting is Updating ==> action is Update,
        progress.waiting is Finished ==> action is Report,
{
}

/// A stage stands for itself.
pub proof fn stages_stand_for_themselves(stage: LegacyStage)
    ensures
        match stage {
            LegacyStage::CheckingStored { thread_id, path } => stage@ == (
            Waiting::CheckingStored { thread: thread_id@, path: path@ }),
            LegacyStage::CheckingSessions { thread_id, suffix } => stage@ == (
            Waiting::CheckingSessions { thread: thread_id@, suffix: suffix@ }),
            LegacyStage::Projecting { thread_id } => stage@ == (Waiting::Projecting {
                thread: thread_id@,
            }),
            LegacyStage::Updating => stage@ == Waiting::Updating,
            LegacyStage::Finished => stage@ == Waiting::Finished,
        },
{
}

/// The threads that are updated are the projected ones.
pub proof fn projected_threads_are_updated(
    action: LegacyAction,
    before: Option<Waiting>,
    progress: LegacyProgress,
    schema: Seq<char>,
)
    requires
        progress.waiting is Updating,
        is_next_action(action, before, progress, schema),
    ensures
        action matches LegacyAction::Update { sql, thread_ids } && {
            &&& sql@ == update_mode_text(schema)
            &&& thread_ids@.len() == progress.projected.len()
            &&& forall|i: int|
                0 <= i < thread_ids@.len() ==> (#[trigger] thread_ids@[i])@
                    == progress.projected[i]
        },
{
    match action {
        LegacyAction::Update { thread_ids, .. } => {
            assert forall|i: int| 0 <= i < thread_ids@.len() implies (#[trigger] thread_ids@[i])@
                == progress.projected[i] by {
                assert(texts(thread_ids@)[i] == thread_ids@[i]@);
            }
        },
        _ => {},
    }
}

/// A step that cannot be taken changes nothing: one at an event that is not expected, and one to a row
/// that cannot be read. Any other step leads to the next progress.
pub proof fn steps_follow_the_progress(event: LegacyEvent, result: Result<LegacyAction, LegacyError>)
    ensures
        forall|projection: &mut LegacyProjection|
            #![trigger call_ensures(LegacyProjection::step, (projection, event), result)]
            call_ensures(LegacyProjection::step, (projection, event), result) ==> {
                let next = next_progress(
                    projection.rows@,
                    projection.owned_thread_ids@,
                    projection.progress(),
                    event,
                );
                &&& result is Ok <==> expects(projection.stage@, event) && next is Some
                &&& result is Ok ==> final(projection).progress() == next->0
                &&& result is Err ==> *final(projection) == *projection
                &&& final(projection).rows == projection.rows
                &&& final(projection).owned_thread_ids == projection.owned_thread_ids
                &&& final(projection).schema == projection.schema
            },
{
}

/// The user is told how many rollout files were not found, if any.
pub proof fn missing_files_are_counted(projection: &LegacyProjection, message: Option<String>)
    requires
        call_ensures(LegacyProjection::missing_message, (projection,), message),
    ensures
        message is Some <==> projection.missing_rollouts@.len() > 0,
        message matches Some(text) ==> text@ == decimal(projection.missing_rollouts@.len())
            + " owned thread rollout(s) were not found; their PostgreSQL history mode remains legacy"@,
{
}

/// The threads are read in the order of their creation.
pub proof fn threads_are_read_in_order()
    ensures
        SELECT_THREADS@ == "SELECT id, rollout_path FROM threads ORDER BY created_at, id"@,
{
}

/// A projection starts with nothing projected or missing, and takes up the first thread of the user. It
/// does not start where the rows up to this thread cannot be read.
pub proof fn projection_starts_with_nothing_done(
    schema: &str,
    owned: StringHashSet,
    rows: Vec<SqliteRow>,
    result: Result<(LegacyProjection, LegacyAction), LegacyError>,
)
    requires
        call_ensures(LegacyProjection::new, (schema, owned, rows), result),
    ensures
        result is Err <==> search(rows@, owned@, 0) is Unreadable,
        result matches Ok((projection, action)) ==> {
            &&& projection.projected_thread_ids@.len() == 0
            &&& projection.missing_rollouts@.len() == 0
            &&& projection.schema@ == schema@
            &&& projection.owned_thread_ids == owned
            &&& projection.rows == rows
            &&& goes_on(rows@, owned@, 0, projection.progress())
            &&& is_next_action(action, None, projection.progress(), schema@)
        },
{
    search_finds_the_next_of_user(rows@, owned@, 0);
    if let Ok((projection, _)) = result {
        assert(texts(projection.projected_thread_ids@).len()
            == projection.projected_thread_ids@.len());
        assert(texts(projection.missing_rollouts@).len() == projection.missing_rollouts@.len());
    }
}

} // verus!
