//! How one table of a SQLite database is copied into PostgreSQL.
use crate::history::data;
use crate::schema::{table, table_text};
use crate::sqlite::{sqlite_cells, sqlite_integer_cell, sqlite_text_cell, SqliteCell};
use crate::text::{decimal, join, joined, joined_parts, push_decimal, same_text, texts};
use crate::value::{SqlDatum, SqlValue};
use sqlx::sqlite::SqliteRow;
use vstd::hash_set::StringHashSet;
use vstd::prelude::*;

verus! {

/// The texts that a list of string slices holds.
pub open spec fn names(columns: Seq<&str>) -> Seq<Seq<char>> {
    columns.map_values(|column: &str| column@)
}

/// A column name between double quotes.
pub open spec fn quoted_name(name: Seq<char>) -> Seq<char> {
    "\""@ + name + "\""@
}

/// Column names between double quotes, separated by commas.
pub open spec fn quoted_list(columns: Seq<Seq<char>>) -> Seq<char> {
    joined(columns.map_values(|name: Seq<char>| quoted_name(name)), ", "@)
}

/// Writes column names between double quotes, separated by commas.
pub fn quoted(columns: &[&str]) -> (text: String)
    ensures
        text@ == quoted_list(names(columns@)),
{
    let mut parts: Vec<String> = Vec::new();
    let mut index: usize = 0;
    while index < columns.len()
        invariant
            index <= columns.len(),
            parts@.len() == index,
            forall|i: int| 0 <= i < index ==> (#[trigger] parts@[i])@ == quoted_name(columns@[i]@),
        decreases columns.len() - index,
    {
        parts.push("\"".to_owned().concat(columns[index]).concat("\""));
        index += 1;
    }
    assert(texts(parts@) =~= names(columns@).map_values(|name: Seq<char>| quoted_name(name)));
    join(&parts, ", ")
}

/// The quoted names of two lists of columns that are not empty are those of the first, a comma, and
/// those of the second.
pub proof fn quoted_parts(first: Seq<Seq<char>>, second: Seq<Seq<char>>)
    requires
        first.len() > 0,
        second.len() > 0,
    ensures
        quoted_list(first + second) == quoted_list(first) + ", "@ + quoted_list(second),
{
    let quote = |name: Seq<char>| quoted_name(name);
    assert((first + second).map_values(quote) =~= first.map_values(quote) + second.map_values(
        quote,
    ));
    joined_parts(first.map_values(quote), second.map_values(quote), ", "@);
}

/// What is copied from a table, and where to.
pub struct TableCopy<'a> {
    /// The table in the SQLite database.
    pub source: &'a str,
    /// The table in the PostgreSQL schema.
    pub destination: &'a str,
    pub columns: &'a [&'a str],
    /// The columns that identify a row.
    pub conflict_columns: &'a [&'a str],
    /// The columns that SQLite stores as integers and PostgreSQL as booleans.
    pub boolean_columns: &'a [&'a str],
    pub integer_columns: &'a [&'a str],
    /// The column that holds the thread that a row belongs to.
    pub owner_column: Option<&'a str>,
}

/// What a [`TableCopy`] stands for.
#[verifier::ext_equal]
pub struct CopySpec {
    pub source: Seq<char>,
    pub destination: Seq<char>,
    pub columns: Seq<Seq<char>>,
    pub conflict_columns: Seq<Seq<char>>,
    pub boolean_columns: Seq<Seq<char>>,
    pub integer_columns: Seq<Seq<char>>,
    pub owner_column: Option<Seq<char>>,
}

impl<'a> View for TableCopy<'a> {
    type V = CopySpec;

    open spec fn view(&self) -> CopySpec {
        CopySpec {
            source: self.source@,
            destination: self.destination@,
            columns: names(self.columns@),
            conflict_columns: names(self.conflict_columns@),
            boolean_columns: names(self.boolean_columns@),
            integer_columns: names(self.integer_columns@),
            owner_column: match self.owner_column {
                Some(column) => Some(column@),
                None => None,
            },
        }
    }
}

/// Whether `name` is one of `columns`.
fn contains_name(columns: &[&str], name: &str) -> (found: bool)
    ensures
        found == names(columns@).contains(name@),
{
    let mut index: usize = 0;
    while index < columns.len()
        invariant
            index <= columns.len(),
            forall|i: int| 0 <= i < index ==> names(columns@)[i] != name@,
        decreases columns.len() - index,
    {
        if same_text(columns[index], name) {
            assert(names(columns@)[index as int] == name@);
            return true;
        }
        index += 1;
    }
    false
}

/// Whether `name` is one of `existing`.
fn contains_text(existing: &Vec<String>, name: &str) -> (found: bool)
    ensures
        found == texts(existing@).contains(name@),
{
    let mut index: usize = 0;
    while index < existing.len()
        invariant
            index <= existing.len(),
            forall|i: int| 0 <= i < index ==> texts(existing@)[i] != name@,
        decreases existing.len() - index,
    {
        if same_text(existing[index].as_str(), name) {
            assert(texts(existing@)[index as int] == name@);
            return true;
        }
        index += 1;
    }
    false
}

/// Finds out whether a SQLite database has the table whose name is bound to the parameter.
pub const TABLE_EXISTS: &'static str =
    "SELECT 1 FROM sqlite_master WHERE type = 'table' AND name = ?";

/// The query for the names of a table's columns.
pub open spec fn table_info_text(table: Seq<char>) -> Seq<char> {
    "SELECT name FROM pragma_table_info('"@ + table + "')"@
}

/// Writes the query for the names of a table's columns.
pub fn table_info_sql(table: &str) -> (sql: String)
    ensures
        sql@ == table_info_text(table@),
{
    "SELECT name FROM pragma_table_info('".to_owned().concat(table).concat("')")
}

/// What is selected for a column: the column where the table has it, and else a constant.
pub open spec fn selected_column(
    table: Seq<char>,
    column: Seq<char>,
    existing: Seq<Seq<char>>,
) -> Seq<char> {
    if existing.contains(column) {
        quoted_name(column)
    } else if table == "threads"@ && column == "is_pinned"@ {
        "0 AS \"is_pinned\""@
    } else {
        "NULL AS \""@ + column + "\""@
    }
}

/// What is selected for each of `columns`.
pub open spec fn selected_columns(
    table: Seq<char>,
    columns: Seq<Seq<char>>,
    existing: Seq<Seq<char>>,
) -> Seq<Seq<char>> {
    columns.map_values(|column: Seq<char>| selected_column(table, column, existing))
}

/// Writes what to select for each of `columns`, of which a table has only the `existing` ones.
pub fn select_columns(table: &str, columns: &[&str], existing: &Vec<String>) -> (selected: Vec<
    String,
>)
    ensures
        texts(selected@) == selected_columns(table@, names(columns@), texts(existing@)),
{
    let mut selected: Vec<String> = Vec::new();
    let mut index: usize = 0;
    while index < columns.len()
        invariant
            index <= columns.len(),
            selected@.len() == index,
            forall|i: int|
                0 <= i < index ==> (#[trigger] selected@[i])@ == selected_column(
                    table@,
                    columns@[i]@,
                    texts(existing@),
                ),
        decreases columns.len() - index,
    {
        let column = columns[index];
        if contains_text(existing, column) {
            selected.push("\"".to_owned().concat(column).concat("\""));
        } else if same_text(table, "threads") && same_text(column, "is_pinned") {
            selected.push("0 AS \"is_pinned\"".to_owned());
        } else {
            selected.push("NULL AS \"".to_owned().concat(column).concat("\""));
        }
        index += 1;
    }
    assert(texts(selected@) =~= selected_columns(table@, names(columns@), texts(existing@)));
    selected
}

/// The query for the rows of a table that has only the `existing` columns.
pub open spec fn select_text(copy: CopySpec, existing: Seq<Seq<char>>) -> Seq<char> {
    "SELECT "@ + joined(selected_columns(copy.source, copy.columns, existing), ", "@) + " FROM \""@
        + copy.source + "\""@
}

/// Writes the query for the rows of a table that has only the `existing` columns.
pub fn select_sql(copy: &TableCopy<'_>, existing: &Vec<String>) -> (sql: String)
    ensures
        sql@ == select_text(copy@, texts(existing@)),
{
    let selected = select_columns(copy.source, copy.columns, existing);
    "SELECT ".to_owned().concat(join(&selected, ", ").as_str()).concat(" FROM \"").concat(
        copy.source,
    ).concat("\"")
}

/// The parameters of a statement with `count` of them.
pub open spec fn parameter_list(count: nat) -> Seq<char> {
    joined(Seq::new(count, |i: int| "$"@ + decimal((i + 1) as nat)), ", "@)
}

fn parameters(count: usize) -> (text: String)
    ensures
        text@ == parameter_list(count as nat),
{
    let mut parts: Vec<String> = Vec::new();
    let mut index: usize = 0;
    while index < count
        invariant
            index <= count,
            parts@.len() == index,
            forall|i: int|
                0 <= i < index ==> (#[trigger] parts@[i])@ == "$"@ + decimal((i + 1) as nat),
        decreases count - index,
    {
        let mut part = "$".to_owned();
        index += 1;
        push_decimal(&mut part, index as u64);
        parts.push(part);
    }
    assert(texts(parts@) =~= Seq::new(count as nat, |i: int| "$"@ + decimal((i + 1) as nat)));
    join(&parts, ", ")
}

/// The assignment that takes a column over from the row that was to be inserted.
pub open spec fn update_text(column: Seq<char>) -> Seq<char> {
    "\""@ + column + "\" = EXCLUDED.\""@ + column + "\""@
}

/// The columns that are taken over from a row that was to be inserted twice.
pub open spec fn updated_columns(copy: CopySpec) -> Seq<Seq<char>> {
    copy.columns.filter(|column: Seq<char>| !copy.conflict_columns.contains(column))
}

/// A row that is there takes over all columns but those that identify it.
pub proof fn keys_are_not_updated(copy: CopySpec, column: Seq<char>)
    ensures
        updated_columns(copy).contains(column) <==> copy.columns.contains(column)
            && !copy.conflict_columns.contains(column),
{
    let is_updated = |column: Seq<char>| !copy.conflict_columns.contains(column);
    let updated = copy.columns.filter(is_updated);
    if copy.columns.contains(column) && is_updated(column) {
        copy.columns.lemma_filter_contains(is_updated, copy.columns.index_of(column));
    }
    if updated.contains(column) {
        copy.columns.lemma_filter_contains_rev(is_updated, column);
        copy.columns.lemma_filter_pred(is_updated, updated.index_of(column));
    }
}

/// What to do with a row that the destination has already.
pub open spec fn conflict_action_text(copy: CopySpec) -> Seq<char> {
    let updated = updated_columns(copy);
    if updated.len() == 0 {
        "DO NOTHING"@
    } else {
        "DO UPDATE SET "@ + joined(
            updated.map_values(|column: Seq<char>| update_text(column)),
            ", "@,
        )
    }
}

fn conflict_action(copy: &TableCopy<'_>) -> (text: String)
    ensures
        text@ == conflict_action_text(copy@),
{
    let mut updates: Vec<String> = Vec::new();
    let mut index: usize = 0;
    let ghost is_updated = |column: Seq<char>| !copy@.conflict_columns.contains(column);
    let ghost as_update = |column: Seq<char>| update_text(column);
    assert(copy@.columns.take(0) =~= Seq::empty());
    proof {
        reveal(Seq::filter);
    }
    while index < copy.columns.len()
        invariant
            index <= copy.columns.len(),
            is_updated == (|column: Seq<char>| !copy@.conflict_columns.contains(column)),
            as_update == (|column: Seq<char>| update_text(column)),
            texts(updates@) =~= copy@.columns.take(index as int).filter(is_updated).map_values(
                as_update,
            ),
        decreases copy.columns.len() - index,
    {
        let column = copy.columns[index];
        proof {
            let taken = copy@.columns.take(index as int);
            assert(copy@.columns.take(index + 1) =~= taken.push(column@));
            taken.lemma_filter_push(column@, is_updated);
            assert(copy@.columns.take(index + 1).last() == column@);
            assert(copy@.columns.take(index + 1).drop_last() =~= taken);
            reveal(Seq::filter);
        }
        let ghost before = texts(updates@);
        if !contains_name(copy.conflict_columns, column) {
            updates.push(
                "\"".to_owned().concat(column).concat("\" = EXCLUDED.\"").concat(column).concat(
                    "\"",
                ),
            );
            assert(texts(updates@) =~= before.push(update_text(column@)));
        }
        index += 1;
    }
    assert(copy@.columns.take(index as int) =~= copy@.columns);
    assert(updates@.len() == updated_columns(copy@).len());
    if updates.len() == 0 {
        "DO NOTHING".to_owned()
    } else {
        "DO UPDATE SET ".to_owned().concat(join(&updates, ", ").as_str())
    }
}

/// The statement that inserts a row into the destination, or updates the row that is there.
pub open spec fn insert_text(schema: Seq<char>, copy: CopySpec) -> Seq<char> {
    "INSERT INTO "@ + table_text(schema, copy.destination) + " ("@ + quoted_list(copy.columns)
        + ") VALUES ("@ + parameter_list(copy.columns.len()) + ") ON CONFLICT ("@ + quoted_list(
        copy.conflict_columns,
    ) + ") "@ + conflict_action_text(copy)
}

/// Writes the statement that inserts a row into the destination, or updates the row that is there.
pub fn insert_sql(schema: &str, copy: &TableCopy<'_>) -> (sql: String)
    ensures
        sql@ == insert_text(schema@, copy@),
{
    "INSERT INTO ".to_owned().concat(table(schema, copy.destination).as_str()).concat(" (").concat(
        quoted(copy.columns).as_str(),
    ).concat(") VALUES (").concat(parameters(copy.columns.len()).as_str()).concat(
        ") ON CONFLICT (",
    ).concat(quoted(copy.conflict_columns).as_str()).concat(") ").concat(
        conflict_action(copy).as_str(),
    )
}

/// What a column of a row is copied as, if the row has the column and its value is of the type that
/// the column is copied with.
pub open spec fn copied_datum(
    cells: Map<Seq<char>, SqliteCell>,
    column: Seq<char>,
    copy: CopySpec,
) -> Option<SqlDatum> {
    if !cells.contains_key(column) {
        None
    } else if copy.boolean_columns.contains(column) {
        match cells[column] {
            SqliteCell::Integer(value) => Some(SqlDatum::Bool(Some(value != 0))),
            SqliteCell::Null => Some(SqlDatum::Bool(None)),
            _ => None,
        }
    } else if copy.integer_columns.contains(column) {
        match cells[column] {
            SqliteCell::Integer(value) => Some(SqlDatum::Integer(Some(value))),
            SqliteCell::Null => Some(SqlDatum::Integer(None)),
            _ => None,
        }
    } else {
        match cells[column] {
            SqliteCell::Text(value) => Some(SqlDatum::Text(Some(value))),
            SqliteCell::Null => Some(SqlDatum::Text(None)),
            _ => None,
        }
    }
}

fn copied_value(row: &SqliteRow, column: &str, copy: &TableCopy<'_>) -> (result: Result<
    SqlValue,
    sqlx::Error,
>)
    ensures
        match result {
            Ok(value) => copied_datum(sqlite_cells(*row), column@, copy@) == Some(value@),
            Err(_) => copied_datum(sqlite_cells(*row), column@, copy@) is None,
        },
{
    if contains_name(copy.boolean_columns, column) {
        match sqlite_integer_cell(row, column) {
            Ok(Some(item)) => Ok(SqlValue::Bool(Some(item != 0))),
            Ok(None) => Ok(SqlValue::Bool(None)),
            Err(error) => Err(error),
        }
    } else if contains_name(copy.integer_columns, column) {
        match sqlite_integer_cell(row, column) {
            Ok(value) => Ok(SqlValue::Integer(value)),
            Err(error) => Err(error),
        }
    } else {
        match sqlite_text_cell(row, column) {
            Ok(value) => Ok(SqlValue::Text(value)),
            Err(error) => Err(error),
        }
    }
}

/// The values of the columns of a row, in the order of the parameters that they are inserted with.
pub fn row_values(row: &SqliteRow, copy: &TableCopy<'_>) -> (result: Result<
    Vec<SqlValue>,
    sqlx::Error,
>)
    ensures
        match result {
            Ok(values) => {
                &&& values@.len() == copy@.columns.len()
                &&& forall|i: int|
                    0 <= i < values@.len() ==> copied_datum(
                        sqlite_cells(*row),
                        #[trigger] copy@.columns[i],
                        copy@,
                    ) == Some(data(values@)[i])
            },
            Err(_) => exists|i: int|
                0 <= i < copy@.columns.len() && copied_datum(
                    sqlite_cells(*row),
                    #[trigger] copy@.columns[i],
                    copy@,
                ) is None,
        },
{
    let mut values: Vec<SqlValue> = Vec::new();
    while values.len() < copy.columns.len()
        invariant
            values@.len() <= copy@.columns.len(),
            copy@.columns.len() == copy.columns@.len(),
            forall|i: int|
                0 <= i < values@.len() ==> copied_datum(
                    sqlite_cells(*row),
                    #[trigger] copy@.columns[i],
                    copy@,
                ) == Some(data(values@)[i]),
        decreases copy@.columns.len() - values@.len(),
    {
        let column = copy.columns[values.len()];
        assert(copy@.columns[values@.len() as int] == column@);
        match copied_value(row, column, copy) {
            Ok(value) => {
                values.push(value);
            },
            Err(error) => {
                return Err(error);
            },
        }
    }
    Ok(values)
}

/// The thread that a row belongs to, if the column that holds it can be read. A row may belong to no
/// thread.
pub open spec fn owner(
    cells: Map<Seq<char>, SqliteCell>,
    owner_column: Option<Seq<char>>,
) -> Option<Option<Seq<char>>> {
    match owner_column {
        None => Some(None),
        Some(column) => if !cells.contains_key(column) {
            None
        } else {
            match cells[column] {
                SqliteCell::Text(thread) => Some(Some(thread)),
                SqliteCell::Null => Some(None),
                _ => None,
            }
        },
    }
}

/// Whether rows of a thread, or of no thread, are copied for the user who owns `owned_thread_ids`.
pub open spec fn belongs(
    thread: Option<Seq<char>>,
    owned_thread_ids: Set<Seq<char>>,
    include_global: bool,
) -> bool {
    match thread {
        Some(thread) => owned_thread_ids.contains(thread),
        None => include_global,
    }
}

/// Whether a row is copied for the user who owns `owned_thread_ids`.
pub fn row_belongs_to_user(
    row: &SqliteRow,
    owner_column: Option<&str>,
    owned_thread_ids: &StringHashSet,
    include_global: bool,
) -> (result: Result<bool, sqlx::Error>)
    ensures
        ({
            let column = match owner_column {
                Some(column) => Some(column@),
                None => None,
            };
            match (owner(sqlite_cells(*row), column), result) {
                (Some(thread), Ok(copied)) => copied == belongs(
                    thread,
                    owned_thread_ids@,
                    include_global,
                ),
                (None, Err(_)) => true,
                _ => false,
            }
        }),
{
    match owner_column {
        None => Ok(include_global),
        Some(column) => match sqlite_text_cell(row, column) {
            Ok(Some(thread)) => Ok(owned_thread_ids.contains(thread.as_str())),
            Ok(None) => Ok(include_global),
            Err(error) => Err(error),
        },
    }
}

/// A value arrives as it is stored, but for the booleans, which SQLite stores as integers: zero is false
/// and any other integer is true. Null stays null. A value of another kind than that of its column is
/// refused.
pub proof fn values_arrive_as_stored(
    cells: Map<Seq<char>, SqliteCell>,
    column: Seq<char>,
    copy: CopySpec,
)
    requires
        cells.contains_key(column),
    ensures
        copy.boolean_columns.contains(column) ==> match cells[column] {
            SqliteCell::Integer(value) => copied_datum(cells, column, copy) == Some(
                SqlDatum::Bool(Some(if value == 0 { false } else { true })),
            ),
            SqliteCell::Null => copied_datum(cells, column, copy) == Some(SqlDatum::Bool(None)),
            SqliteCell::Text(_) | SqliteCell::Other => copied_datum(cells, column, copy) is None,
        },
        !copy.boolean_columns.contains(column) && copy.integer_columns.contains(column) ==> match cells[column] {
            SqliteCell::Integer(value) => copied_datum(cells, column, copy) == Some(
                SqlDatum::Integer(Some(value)),
            ),
            SqliteCell::Null => copied_datum(cells, column, copy) == Some(SqlDatum::Integer(None)),
            SqliteCell::Text(_) | SqliteCell::Other => copied_datum(cells, column, copy) is None,
        },
        !copy.boolean_columns.contains(column) && !copy.integer_columns.contains(column) ==> match cells[column] {
            SqliteCell::Text(value) => copied_datum(cells, column, copy) == Some(
                SqlDatum::Text(Some(value)),
            ),
            SqliteCell::Null => copied_datum(cells, column, copy) == Some(SqlDatum::Text(None)),
            SqliteCell::Integer(_) | SqliteCell::Other => copied_datum(cells, column, copy) is None,
        },
{
}

/// A row without a column gives no value for it.
pub proof fn columns_that_are_missing_give_no_value(
    cells: Map<Seq<char>, SqliteCell>,
    column: Seq<char>,
    copy: CopySpec,
)
    requires
        !cells.contains_key(column),
    ensures
        copied_datum(cells, column, copy) is None,
{
}

/// A row belongs to the thread that its owner column names, and to none if there is no such column or it
/// holds null. What else the column may hold names no thread.
pub proof fn owners_are_read_from_their_column(
    cells: Map<Seq<char>, SqliteCell>,
    column: Seq<char>,
    thread: Seq<char>,
)
    ensures
        owner(cells, None) == Some(None::<Seq<char>>),
        owner(cells, Some(column)) == Some(Some(thread)) <==> cells.contains_pair(
            column,
            SqliteCell::Text(thread),
        ),
        owner(cells, Some(column)) == Some(None::<Seq<char>>) <==> cells.contains_pair(
            column,
            SqliteCell::Null,
        ),
        owner(cells, Some(column)) is None <==> !cells.contains_key(column) || cells[column]
            is Integer || cells[column] is Other,
{
}

/// A column that the source has is selected by its name. Of one that it has not, a null of that name is
/// selected, but threads are then not pinned.
pub proof fn selected_columns_have_their_names(
    table: Seq<char>,
    columns: Seq<Seq<char>>,
    existing: Seq<Seq<char>>,
    index: int,
)
    requires
        0 <= index < columns.len(),
    ensures
        selected_columns(table, columns, existing).len() == columns.len(),
        existing.contains(columns[index]) ==> selected_columns(table, columns, existing)[index]
            == "\""@ + columns[index] + "\""@,
        !existing.contains(columns[index]) && table == "threads"@ && columns[index] == "is_pinned"@
            ==> selected_columns(table, columns, existing)[index] == "0 AS \"is_pinned\""@,
        !existing.contains(columns[index]) && !(table == "threads"@ && columns[index]
            == "is_pinned"@) ==> selected_columns(table, columns, existing)[index]
            == "NULL AS \""@ + columns[index] + "\""@,
{
}

/// The query for rows selects from the source what is selected for each column, in order.
pub proof fn parts_of_select(copy: CopySpec, existing: Seq<Seq<char>>)
    ensures
        select_text(copy, existing) == "SELECT "@ + (joined(
            selected_columns(copy.source, copy.columns, existing),
            ", "@,
        ) + (" FROM \""@ + (copy.source + "\""@))),
{
    assert(select_text(copy, existing) =~= "SELECT "@ + (joined(
        selected_columns(copy.source, copy.columns, existing),
        ", "@,
    ) + (" FROM \""@ + (copy.source + "\""@))));
}

/// The list of one column is its quoted name.
pub proof fn quoted_one(column: Seq<char>)
    ensures
        quoted_list(seq![column]) == "\""@ + column + "\""@,
        quoted_list(Seq::empty()) == Seq::<char>::empty(),
{
    let quote = |name: Seq<char>| quoted_name(name);
    assert(seq![column].map_values(quote) =~= seq![quoted_name(column)]);
    assert(Seq::<Seq<char>>::empty().map_values(quote) =~= Seq::empty());
}

/// A list of parameters goes on with a comma and the next number.
pub proof fn parameters_count_up(count: nat)
    ensures
        parameter_list(0) == Seq::<char>::empty(),
        parameter_list(1) == "$"@ + decimal(1),
        count > 0 ==> parameter_list(count + 1) == parameter_list(count) + ", "@ + "$"@ + decimal(
            count + 1,
        ),
{
    let number = |i: int| "$"@ + decimal((i + 1) as nat);
    let more = Seq::new(count + 1, number);
    assert(more.drop_last() =~= Seq::new(count, number));
    assert(more.last() == "$"@ + decimal(count + 1));
    if count > 0 {
        assert(parameter_list(count + 1) =~= parameter_list(count) + ", "@ + "$"@ + decimal(
            count + 1,
        ));
    }
}

/// The insert names the destination, its columns, one parameter for each of them, and the columns that
/// identify a row. A row that is there takes over all other columns from the row that was to be
/// inserted, and nothing if there are none.
pub proof fn parts_of_insert(schema: Seq<char>, copy: CopySpec)
    ensures
        insert_text(schema, copy) == "INSERT INTO "@ + ("\""@ + schema + "\".\""@ + copy.destination
            + "\""@) + " ("@ + quoted_list(copy.columns) + ") VALUES ("@ + parameter_list(
            copy.columns.len(),
        ) + ") ON CONFLICT ("@ + quoted_list(copy.conflict_columns) + ") "@ + conflict_action_text(
            copy,
        ),
        updated_columns(copy).len() == 0 ==> conflict_action_text(copy) == "DO NOTHING"@,
        updated_columns(copy).len() > 0 ==> conflict_action_text(copy) == "DO UPDATE SET "@
            + joined(
            Seq::new(
                updated_columns(copy).len(),
                |i: int|
                    "\""@ + updated_columns(copy)[i] + "\" = EXCLUDED.\""@ + updated_columns(
                        copy,
                    )[i] + "\""@,
            ),
            ", "@,
        ),
{
    let updated = updated_columns(copy);
    assert(updated.map_values(|column: Seq<char>| update_text(column)) =~= Seq::new(
        updated.len(),
        |i: int| "\""@ + updated[i] + "\" = EXCLUDED.\""@ + updated[i] + "\""@,
    ));
}

/// The values of a row are those of its columns in order, and a row gives none if one of its columns has
/// none.
pub proof fn values_follow_the_columns<'a>(
    row: &SqliteRow,
    copy: &TableCopy<'a>,
    result: Result<Vec<SqlValue>, sqlx::Error>,
)
    requires
        call_ensures(row_values, (row, copy), result),
    ensures
        result is Ok <==> forall|i: int|
            0 <= i < copy.columns@.len() ==> copied_datum(
                sqlite_cells(*row),
                (#[trigger] copy.columns@[i])@,
                copy@,
            ) is Some,
        result matches Ok(values) ==> {
            &&& values@.len() == copy.columns@.len()
            &&& forall|i: int|
                0 <= i < values@.len() ==> copied_datum(
                    sqlite_cells(*row),
                    copy.columns@[i]@,
                    copy@,
                ) == Some((#[trigger] values@[i])@)
        },
{
    assert forall|i: int| 0 <= i < copy.columns@.len() implies copy@.columns[i] == (
    #[trigger] copy.columns@[i])@ by {}
    if let Ok(values) = result {
        assert forall|i: int| 0 <= i < copy.columns@.len() implies copied_datum(
            sqlite_cells(*row),
            (#[trigger] copy.columns@[i])@,
            copy@,
        ) == Some(values@[i]@) by {
            assert(copied_datum(sqlite_cells(*row), copy@.columns[i], copy@) == Some(
                data(values@)[i],
            ));
        }
    } else {
        let i = choose|i: int|
            0 <= i < copy@.columns.len() && copied_datum(
                sqlite_cells(*row),
                #[trigger] copy@.columns[i],
                copy@,
            ) is None;
        assert(copied_datum(sqlite_cells(*row), copy.columns@[i]@, copy@) is None);
    }
}

/// A row belongs to a user who owns the thread that it names. A row that names none is everyone's on a
/// request for global rows, and no one's else.
pub proof fn rows_belong_to_owners(
    row: &SqliteRow,
    column: &str,
    owned: &StringHashSet,
    include_global: bool,
    result: Result<bool, sqlx::Error>,
    unowned: Result<bool, sqlx::Error>,
)
    requires
        call_ensures(row_belongs_to_user, (row, Some(column), owned, include_global), result),
        call_ensures(row_belongs_to_user, (row, None, owned, include_global), unowned),
    ensures
        unowned matches Ok(copied) && copied == include_global,
        !sqlite_cells(*row).contains_key(column@) ==> result is Err,
        sqlite_cells(*row).contains_key(column@) ==> match sqlite_cells(*row)[column@] {
            SqliteCell::Text(thread) => result matches Ok(copied) && copied == owned@.contains(
                thread,
            ),
            SqliteCell::Null => result matches Ok(copied) && copied == include_global,
            SqliteCell::Integer(_) | SqliteCell::Other => result is Err,
        },
{
}

/// The statements for a table are those of its copy.
pub proof fn statements_of_a_copy<'a>(
    schema: &str,
    copy: &TableCopy<'a>,
    existing: &Vec<String>,
    select: String,
    insert: String,
)
    requires
        call_ensures(select_sql, (copy, existing), select),
        call_ensures(insert_sql, (schema, copy), insert),
    ensures
        select@ == select_text(copy@, texts(existing@)),
        insert@ == insert_text(schema@, copy@),
        copy@.source == copy.source@,
        copy@.destination == copy.destination@,
        copy@.columns.len() == copy.columns@.len(),
        copy@.conflict_columns.len() == copy.conflict_columns@.len(),
        copy@.boolean_columns.len() == copy.boolean_columns@.len(),
        copy@.integer_columns.len() == copy.integer_columns@.len(),
        forall|i: int|
            0 <= i < copy.columns@.len() ==> #[trigger] copy@.columns[i] == copy.columns@[i]@,
        forall|i: int|
            0 <= i < copy.conflict_columns@.len() ==> #[trigger] copy@.conflict_columns[i]
                == copy.conflict_columns@[i]@,
        forall|i: int|
            0 <= i < copy.boolean_columns@.len() ==> #[trigger] copy@.boolean_columns[i]
                == copy.boolean_columns@[i]@,
        forall|i: int|
            0 <= i < copy.integer_columns@.len() ==> #[trigger] copy@.integer_columns[i]
                == copy.integer_columns@[i]@,
        copy.owner_column is None <==> copy@.owner_column is None,
        copy.owner_column matches Some(column) ==> copy@.owner_column == Some(column@),
{
}

/// The query for the columns of a table names the table.
pub proof fn parts_of_table_info(table: &str, sql: String)
    requires
        call_ensures(table_info_sql, (table,), sql),
    ensures
        sql@ == "SELECT name FROM pragma_table_info('"@ + table@ + "')"@,
{
}

/// A table is looked up among the tables of its database, by its name.
pub proof fn tables_are_looked_up_by_name()
    ensures
        TABLE_EXISTS@ == "SELECT 1 FROM sqlite_master WHERE type = 'table' AND name = ?"@,
{
}

} // verus!
