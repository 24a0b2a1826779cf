//! The parts of `sqlx` that statements for either database backend are made with.
use crate::value::SqlDatum;
use sqlx::any::AnyArguments;
use sqlx::any::AnyRow;
use sqlx::query::Query;
use sqlx::query::QueryAs;
use sqlx::query::QueryScalar;
use sqlx::Any;
use sqlx::Arguments;
use sqlx::AssertSqlSafe;
use sqlx::FromRow;
use sqlx::Row;
use vstd::prelude::*;

verus! {

/// `sqlx::any::AnyArguments`: the values bound to the parameters of a statement, in order.
#[verifier::external_type_specification]
#[verifier::external_body]
pub struct ExAnyArguments(sqlx::any::AnyArguments);

/// `sqlx::any::AnyRow`: a row that a query returned.
#[verifier::external_type_specification]
#[verifier::external_body]
pub struct ExAnyRow(sqlx::any::AnyRow);

/// `sqlx::Error`.
#[verifier::external_type_specification]
#[verifier::external_body]
pub struct ExSqlxError(sqlx::Error);

/// The values that an argument list holds, in the order of their parameters.
pub uninterp spec fn argument_values(arguments: AnyArguments) -> Seq<SqlDatum>;

/// A value that a row holds, as far as booleans, integers and texts go.
pub enum Cell {
    Null,
    Bool(bool),
    Integer(i64),
    Text(Seq<char>),
    /// A value of another type.
    Other,
}

/// The values that a row holds, by column name.
pub uninterp spec fn row_cells(row: AnyRow) -> Map<Seq<char>, Cell>;

/// `AnyArguments::default` has no values.
#[verifier::external_body]
pub(crate) fn no_arguments() -> (arguments: AnyArguments)
    ensures
        argument_values(arguments) == Seq::<SqlDatum>::empty(),
{
    AnyArguments::default()
}

/// `Arguments::add` with an optional boolean appends it to the values, and always succeeds: the
/// encoding of a boolean and of a null of its type only pushes one value.
#[verifier::external_body]
pub(crate) fn add_bool(arguments: &mut AnyArguments, value: Option<bool>) -> (added: bool)
    ensures
        added,
        argument_values(*final(arguments)) == argument_values(*old(arguments)).push(
            SqlDatum::Bool(value),
        ),
{
    arguments.add(value).is_ok()
}

/// `Arguments::add` with an optional integer appends it to the values, and always succeeds: the
/// encoding of an integer and of a null of its type only pushes one value.
#[verifier::external_body]
pub(crate) fn add_integer(arguments: &mut AnyArguments, value: Option<i64>) -> (added: bool)
    ensures
        added,
        argument_values(*final(arguments)) == argument_values(*old(arguments)).push(
            SqlDatum::Integer(value),
        ),
{
    arguments.add(value).is_ok()
}

/// `Arguments::add` with an optional text appends it to the values, and always succeeds: the
/// encoding of a text and of a null of its type only pushes one value.
#[verifier::external_body]
pub(crate) fn add_text(arguments: &mut AnyArguments, value: Option<String>) -> (added: bool)
    ensures
        added,
        argument_values(*final(arguments)) == argument_values(*old(arguments)).push(
            SqlDatum::Text(crate::value::optional_text(value)),
        ),
{
    arguments.add(value).is_ok()
}

/// `Arguments::add` with an optional integer of 16 bits appends it to the values, and always succeeds: the
/// encoding of such an integer and of a null of its type only pushes one value.
#[verifier::external_body]
pub(crate) fn add_small_int(arguments: &mut AnyArguments, value: Option<i16>) -> (added: bool)
    ensures
        added,
        argument_values(*final(arguments)) == argument_values(*old(arguments)).push(
            SqlDatum::SmallInt(value),
        ),
{
    arguments.add(value).is_ok()
}

/// `Arguments::add` with an optional integer of 32 bits appends it to the values, and always succeeds: the
/// encoding of such an integer and of a null of its type only pushes one value.
#[verifier::external_body]
pub(crate) fn add_int(arguments: &mut AnyArguments, value: Option<i32>) -> (added: bool)
    ensures
        added,
        argument_values(*final(arguments)) == argument_values(*old(arguments)).push(
            SqlDatum::Int(value),
        ),
{
    arguments.add(value).is_ok()
}

/// `Arguments::add` with an optional list of bytes appends it to the values, and always succeeds: the
/// encoding of bytes and of a null of its type only pushes one value.
#[verifier::external_body]
pub(crate) fn add_bytes(arguments: &mut AnyArguments, value: Option<Vec<u8>>) -> (added: bool)
    ensures
        added,
        argument_values(*final(arguments)) == argument_values(*old(arguments)).push(
            SqlDatum::Bytes(crate::value::optional_bytes(value)),
        ),
{
    arguments.add(value).is_ok()
}

/// `Arguments::len` is the number of values that were added.
#[verifier::external_body]
pub(crate) fn argument_count(arguments: &AnyArguments) -> (count: usize)
    ensures
        count == argument_values(*arguments).len(),
{
    arguments.len()
}

/// `Row::try_get::<bool>` reads a column that the row has and whose value is a boolean. Nothing is
/// stated of the error that any other column gives.
#[verifier::external_body]
pub(crate) fn try_get_bool(row: &AnyRow, column: &str) -> (result: Result<bool, sqlx::Error>)
    ensures
        match result {
            Ok(value) => row_cells(*row).contains_pair(column@, Cell::Bool(value)),
            Err(_) => !(row_cells(*row).contains_key(column@) && row_cells(*row)[column@] is Bool),
        },
{
    row.try_get::<bool, _>(column)
}

/// `Row::try_get::<i64>` reads a column that the row has and whose value is an integer of any
/// width. Nothing is stated of the error that any other column gives.
#[verifier::external_body]
pub(crate) fn try_get_integer(row: &AnyRow, column: &str) -> (result: Result<i64, sqlx::Error>)
    ensures
        match result {
            Ok(value) => row_cells(*row).contains_pair(column@, Cell::Integer(value)),
            Err(_) => !(row_cells(*row).contains_key(column@) && row_cells(*row)[column@] is Integer),
        },
{
    row.try_get::<i64, _>(column)
}

/// `Row::try_get::<Option<bool>>` reads a column that the row has and whose value is a boolean or
/// null. Nothing is stated of the error that any other column gives.
#[verifier::external_body]
pub(crate) fn try_get_optional_bool(row: &AnyRow, column: &str) -> (result: Result<
    Option<bool>,
    sqlx::Error,
>)
    ensures
        match result {
            Ok(Some(value)) => row_cells(*row).contains_pair(column@, Cell::Bool(value)),
            Ok(None) => row_cells(*row).contains_pair(column@, Cell::Null),
            Err(_) => !(row_cells(*row).contains_key(column@) && (row_cells(*row)[column@] is Bool
                || row_cells(*row)[column@] is Null)),
        },
{
    row.try_get::<Option<bool>, _>(column)
}

/// `Row::try_get::<Option<i64>>` reads a column that the row has and whose value is an integer of
/// any width or null. Nothing is stated of the error that any other column gives.
#[verifier::external_body]
pub(crate) fn try_get_optional_integer(row: &AnyRow, column: &str) -> (result: Result<
    Option<i64>,
    sqlx::Error,
>)
    ensures
        match result {
            Ok(Some(value)) => row_cells(*row).contains_pair(column@, Cell::Integer(value)),
            Ok(None) => row_cells(*row).contains_pair(column@, Cell::Null),
            Err(_) => !(row_cells(*row).contains_key(column@) && (row_cells(
                *row,
            )[column@] is Integer || row_cells(*row)[column@] is Null)),
        },
{
    row.try_get::<Option<i64>, _>(column)
}

/// `Row::try_get::<String>` reads a column that the row has and whose value is a text. Nothing is
/// stated of the error that any other column gives.
#[verifier::external_body]
pub(crate) fn try_get_text(row: &AnyRow, column: &str) -> (result: Result<String, sqlx::Error>)
    ensures
        match result {
            Ok(value) => row_cells(*row).contains_pair(column@, Cell::Text(value@)),
            Err(_) => !(row_cells(*row).contains_key(column@) && row_cells(*row)[column@] is Text),
        },
{
    row.try_get::<String, _>(column)
}

/// A `sqlx` query: its SQL text and the values bound so far.
#[verifier::external_body]
pub struct PreparedQuery {
    pub query: Query<'static, Any, AnyArguments>,
}

/// The SQL text of a query.
pub uninterp spec fn query_text(query: PreparedQuery) -> Seq<char>;

/// The values bound to a query, in the order of their parameters.
pub uninterp spec fn query_values(query: PreparedQuery) -> Seq<SqlDatum>;

/// `sqlx::query` makes a query of the given text, with no values bound.
#[verifier::external_body]
pub(crate) fn plain_query(sql: String) -> (query: PreparedQuery)
    ensures
        query_text(query) == sql@,
        query_values(query) == Seq::<SqlDatum>::empty(),
{
    PreparedQuery { query: sqlx::query::<Any>(AssertSqlSafe(sql)) }
}

/// `sqlx::query_with` makes a query of the given text, with the given values bound.
#[verifier::external_body]
pub(crate) fn query_with(sql: String, arguments: AnyArguments) -> (query: PreparedQuery)
    ensures
        query_text(query) == sql@,
        query_values(query) == argument_values(arguments),
{
    PreparedQuery { query: sqlx::query_with::<Any, _>(AssertSqlSafe(sql), arguments) }
}

/// A `sqlx` query whose rows become values of type `O`.
#[verifier::external_body]
#[verifier::reject_recursive_types(O)]
pub struct RowQuery<O> {
    pub query: QueryAs<'static, Any, O, AnyArguments>,
}

/// A query whose rows become values of type `O`, with its SQL text and the values bound to it.
#[verifier::reject_recursive_types(O)]
pub struct PreparedQueryAs<O> {
    pub query: RowQuery<O>,
    pub text: Ghost<Seq<char>>,
    pub values: Ghost<Seq<SqlDatum>>,
}

/// `sqlx::query_as` makes a query of the given text, with no values bound.
#[verifier::external_body]
pub(crate) fn plain_query_as<O>(sql: String) -> (query: PreparedQueryAs<O>) where
    O: for <'row>FromRow<'row, AnyRow>,

    ensures
        query.text@ == sql@,
        query.values@ == Seq::<SqlDatum>::empty(),
{
    let text = Ghost(sql@);
    let query = RowQuery { query: sqlx::query_as::<Any, O>(AssertSqlSafe(sql)) };
    PreparedQueryAs { query, text, values: Ghost(Seq::empty()) }
}

/// `sqlx::query_as_with` makes a query of the given text, with the given values bound.
#[verifier::external_body]
pub(crate) fn query_as_with<O>(sql: String, arguments: AnyArguments) -> (query: PreparedQueryAs<
    O,
>) where O: for <'row>FromRow<'row, AnyRow>
    ensures
        query.text@ == sql@,
        query.values@ == argument_values(arguments),
{
    let text = Ghost(sql@);
    let values = Ghost(argument_values(arguments));
    let query = RowQuery { query: sqlx::query_as_with::<Any, O, _>(AssertSqlSafe(sql), arguments) };
    PreparedQueryAs { query, text, values }
}

/// A `sqlx` query for one column of type `O`.
#[verifier::external_body]
#[verifier::reject_recursive_types(O)]
pub struct ScalarQuery<O> {
    pub query: QueryScalar<'static, Any, O, AnyArguments>,
}

/// A query for one column of type `O`, with its SQL text and the values bound to it.
#[verifier::reject_recursive_types(O)]
pub struct PreparedQueryScalar<O> {
    pub query: ScalarQuery<O>,
    pub text: Ghost<Seq<char>>,
    pub values: Ghost<Seq<SqlDatum>>,
}

/// `sqlx::query_scalar` makes a query of the given text, with no values bound.
#[verifier::external_body]
pub(crate) fn plain_query_scalar<O>(sql: String) -> (query: PreparedQueryScalar<O>) where
    (O,): for <'row>FromRow<'row, AnyRow>,

    ensures
        query.text@ == sql@,
        query.values@ == Seq::<SqlDatum>::empty(),
{
    let text = Ghost(sql@);
    let query = ScalarQuery { query: sqlx::query_scalar::<Any, O>(AssertSqlSafe(sql)) };
    PreparedQueryScalar { query, text, values: Ghost(Seq::empty()) }
}

} // verus!
