//! Queries that run on SQLite and PostgreSQL alike.
use crate::any::{
    add_bool, add_bytes, add_int, add_integer, add_small_int, add_text, argument_count,
    argument_values, no_arguments, plain_query, plain_query_as, plain_query_scalar, query_as_with,
    query_text, query_values, query_with, row_cells, try_get_bool, try_get_integer,
    try_get_optional_bool, try_get_optional_integer, Cell, PreparedQuery, PreparedQueryAs,
    PreparedQueryScalar,
};
use crate::history::{data, Statement};
pub use crate::placeholders::numbered_placeholders;
use crate::placeholders::numbered;
use crate::text::{decimal, push_decimal};
use crate::value::{IntoSqlValue, IntoText, SqlDatum, SqlValue};
use sqlx::any::AnyArguments;
use sqlx::any::AnyRow;
pub use sqlx::Any;
use sqlx::FromRow;
use std::fmt::Display;
use std::fmt::Write;
use vstd::prelude::*;

verus! {

pub type Pool = sqlx::AnyPool;

pub type Connection = sqlx::AnyConnection;

pub type Row = AnyRow;

/// The boolean that a cell stands for: a boolean itself, or an integer that is not zero.
pub open spec fn cell_bool(cell: Cell) -> Option<bool> {
    match cell {
        Cell::Bool(value) => Some(value),
        Cell::Integer(value) => Some(value != 0),
        _ => None,
    }
}

/// Reads a boolean column, which SQLite gives as an integer.
pub fn bool_from_row(row: &Row, column: &str) -> (result: Result<bool, sqlx::Error>)
    ensures
        match result {
            Ok(value) => row_cells(*row).contains_key(column@) && cell_bool(
                row_cells(*row)[column@],
            ) == Some(value),
            Err(_) => !row_cells(*row).contains_key(column@) || cell_bool(
                row_cells(*row)[column@],
            ) is None,
        },
{
    match try_get_bool(row, column) {
        Ok(value) => Ok(value),
        Err(_) => match try_get_integer(row, column) {
            Ok(value) => Ok(value != 0),
            Err(error) => Err(error),
        },
    }
}

/// Reads a boolean column that may be null, which SQLite gives as an integer.
pub fn optional_bool_from_row(row: &Row, column: &str) -> (result: Result<Option<bool>, sqlx::Error>)
    ensures
        match result {
            Ok(Some(value)) => row_cells(*row).contains_key(column@) && cell_bool(
                row_cells(*row)[column@],
            ) == Some(value),
            Ok(None) => row_cells(*row).contains_pair(column@, Cell::Null),
            Err(_) => !row_cells(*row).contains_key(column@) || row_cells(*row)[column@] is Text
                || row_cells(*row)[column@] is Other,
        },
{
    match try_get_optional_bool(row, column) {
        Ok(value) => Ok(value),
        Err(_) => match try_get_optional_integer(row, column) {
            Ok(Some(value)) => Ok(Some(value != 0)),
            Ok(None) => Ok(None),
            Err(error) => Err(error),
        },
    }
}

/// A query whose anonymous parameters are numbered, with no values bound yet.
pub fn query(sql: &'static str) -> (query: PreparedQuery)
    ensures
        query_text(query) == numbered(sql@),
        query_values(query) == Seq::<SqlDatum>::empty(),
{
    plain_query(numbered_placeholders(sql))
}

/// Like [`query`], for rows that become values of type `O`.
pub fn query_as<O>(sql: &'static str) -> (query: PreparedQueryAs<O>) where
    O: for <'row>FromRow<'row, AnyRow>,

    ensures
        query.text@ == numbered(sql@),
        query.values@ == Seq::<SqlDatum>::empty(),
{
    plain_query_as::<O>(numbered_placeholders(sql))
}

/// Like [`query`], for one column of type `O`.
pub fn query_scalar<O>(sql: &'static str) -> (query: PreparedQueryScalar<O>) where
    (O,): for <'row>FromRow<'row, AnyRow>,

    ensures
        query.text@ == numbered(sql@),
        query.values@ == Seq::<SqlDatum>::empty(),
{
    plain_query_scalar::<O>(numbered_placeholders(sql))
}

/// Whether `text` is what a value shows itself as: what its `Display` impl writes, up to an error that
/// it may report.
pub open spec fn displays<T: Display + ?Sized>(value: &T, text: Seq<char>) -> bool {
    exists|shown: String|
        #[trigger] vstd::string::to_string_from_display_ensures::<T>(value, shown) && shown@ == text
}

/// Whether a value shows itself as `text` and as nothing else.
pub open spec fn shows_only<T: Display + ?Sized>(value: &T, text: Seq<char>) -> bool {
    &&& displays(value, text)
    &&& forall|other: Seq<char>| #[trigger] displays(value, other) ==> other == text
}

/// `write!` into an empty string gives what the value's `Display` impl writes. An error that the impl
/// reports is ignored, and what it wrote before stays.
#[verifier::external_body]
fn shown<T: Display + ?Sized>(value: &T) -> (text: String)
    ensures
        displays(value, text@),
{
    let mut text = String::new();
    let _ = write!(text, "{value}");
    text
}

/// A string shows itself as its text.
pub proof fn str_displays_itself(value: &str, text: Seq<char>)
    requires
        displays::<str>(value, text),
    ensures
        text == value@,
{
}

/// Appends a value to those that are bound to the parameters of a statement.
fn add_value(arguments: &mut AnyArguments, value: SqlValue)
    ensures
        argument_values(*final(arguments)) == argument_values(*old(arguments)).push(value@),
{
    let added = match value {
        SqlValue::Bool(value) => add_bool(arguments, value),
        SqlValue::SmallInt(value) => add_small_int(arguments, value),
        SqlValue::Int(value) => add_int(arguments, value),
        SqlValue::Integer(value) => add_integer(arguments, value),
        SqlValue::Text(value) => add_text(arguments, value),
        SqlValue::Bytes(value) => add_bytes(arguments, value),
    };
    assert(added);
}

/// A query whose anonymous parameters are numbered, with the values of a statement bound to them.
pub fn bound_query(statement: Statement) -> (query: PreparedQuery)
    ensures
        query_text(query) == numbered(statement.sql@),
        query_values(query) == data(statement.values@),
{
    let mut arguments = no_arguments();
    let values = statement.values;
    assert(argument_values(arguments) =~= data(values@.take(0)));
    for value in walk: values
        invariant
            walk.seq() == values@,
            argument_values(arguments) == data(values@.take(walk.index() as int)),
    {
        add_value(&mut arguments, value);
        assert(data(values@.take(walk.index() + 1)) =~= data(
            values@.take(walk.index() as int),
        ).push(value@));
    }
    assert(values@.take(values@.len() as int) =~= values@);
    query_with(numbered_placeholders(statement.sql), arguments)
}

/// An SQL text that is put together piece by piece, with the values of its parameters.
pub struct QueryBuilder {
    sql: String,
    arguments: AnyArguments,
}

/// What a [`QueryBuilder`] holds.
#[verifier::ext_equal]
pub struct Assembled {
    pub sql: Seq<char>,
    pub values: Seq<SqlDatum>,
}

impl View for QueryBuilder {
    type V = Assembled;

    closed spec fn view(&self) -> Assembled {
        Assembled { sql: self.sql@, values: argument_values(self.arguments) }
    }
}

impl Assembled {
    /// With `text` appended.
    pub open spec fn with_text(self, text: Seq<char>) -> Assembled {
        Assembled { sql: self.sql + text, ..self }
    }

    /// With a value bound to a new parameter at the end of the text.
    pub open spec fn with_value(self, value: SqlDatum) -> Assembled {
        Assembled {
            sql: self.sql + seq!['$'] + decimal(self.values.len() + 1),
            values: self.values.push(value),
        }
    }
}

/// A parameter is numbered by the place of its value, and later pieces leave both where they are.
pub proof fn parameter_numbers_its_value(
    before: Assembled,
    value: SqlDatum,
    text: Seq<char>,
    later: SqlDatum,
)
    ensures
        before.with_value(value).sql == before.sql + seq!['$'] + decimal(
            before.with_value(value).values.len(),
        ),
        before.with_value(value).values.last() == value,
        before.with_value(value).with_text(text).values == before.with_value(value).values,
        before.with_value(value).with_value(later).values[before.values.len() as int] == value,
        before.with_value(value).sql.is_prefix_of(before.with_value(value).with_text(text).sql),
        before.with_value(value).sql.is_prefix_of(before.with_value(value).with_value(later).sql),
{
    let after = before.with_value(value);
    assert(after.sql =~= after.with_text(text).sql.take(after.sql.len() as int));
    assert(after.sql =~= after.with_value(later).sql.take(after.sql.len() as int));
}

impl QueryBuilder {
    /// Starts with `sql`.
    pub fn new<S: IntoText>(sql: S) -> (builder: Self)
        ensures
            builder@ == (Assembled { sql: sql.text(), values: Seq::empty() }),
    {
        QueryBuilder { sql: sql.into_text(), arguments: no_arguments() }
    }

    /// Appends the text of `sql`.
    pub fn push<T: Display + ?Sized>(&mut self, sql: &T) -> (builder: &mut Self)
        ensures
            exists|text: Seq<char>| #[trigger]
                displays(sql, text) && builder@ == old(self)@.with_text(text),
            *final(self) == *final(builder),
    {
        let text = shown(sql);
        self.sql.append(text.as_str());
        self
    }

    /// Binds `value` to a new parameter at the end of the text.
    pub fn push_bind<T: IntoSqlValue>(&mut self, value: T) -> (builder: &mut Self)
        ensures
            builder@ == old(self)@.with_value(value.datum()),
            *final(self) == *final(builder),
    {
        add_value(&mut self.arguments, value.into_sql_value());
        self.sql.push('$');
        let index = argument_count(&self.arguments);
        push_decimal(&mut self.sql, index as u64);
        assert(self@.sql =~= old(self)@.with_value(value.datum()).sql);
        self
    }

    /// Appends a list of rows: one for each of `values`, whose elements `push_tuple` appends.
    pub fn push_values<T, F: FnMut(&mut Separated<'_, str>, T)>(
        &mut self,
        values: Vec<T>,
        mut push_tuple: F,
    ) -> (builder: &mut Self)
        requires
            forall|row: &mut Separated<'_, str>, value: T| #[trigger]
                push_tuple.requires((row, value)),
        ensures
            exists|states: Seq<Assembled>|
                {
                    &&& states.len() == values@.len() + 1
                    &&& #[trigger] states[0] == old(self)@.with_text("VALUES "@)
                    &&& builder@ == states.last()
                    &&& forall|i: int| #[trigger]
                        is_row(i, values@.len()) ==> exists|row: &mut Separated<'_, str>|
                            {
                                &&& #[trigger] push_tuple.ensures((row, values@[i]), ())
                                &&& row.builder@ == row_start(states[i], i)
                                &&& row.separator@ == ", "@
                                &&& !row.needs_separator
                                &&& states[i + 1] == final(row.builder)@.with_text(")"@)
                                &&& *final(final(row).builder) == *final(row).builder
                            }
                },
            *final(self) == *final(builder),
    {
        self.push("VALUES ");
        let ghost start_push = push_tuple;
        let ghost mut states: Seq<Assembled> = seq![self@];
        let mut first = true;
        for value in walk: values
            invariant
                walk.seq() == values@,
                states.len() == walk.index() + 1,
                states[0] == old(self)@.with_text("VALUES "@),
                self@ == states.last(),
                first == (walk.index() == 0),
                push_tuple == start_push,
                forall|row: &mut Separated<'_, str>, value: T| #[trigger]
                    push_tuple.requires((row, value)),
                forall|i: int| #[trigger]
                    is_row(i, (states.len() - 1) as nat) ==> exists|row: &mut Separated<'_, str>|
                        {
                            &&& #[trigger] push_tuple.ensures((row, values@[i]), ())
                            &&& row.builder@ == row_start(states[i], i)
                            &&& row.separator@ == ", "@
                            &&& !row.needs_separator
                            &&& states[i + 1] == final(row.builder)@.with_text(")"@)
                            &&& *final(final(row).builder) == *final(row).builder
                        },
        {
            if !first {
                self.push(", ");
            }
            self.push("(");
            let mut row = self.separated(", ");
            push_tuple(&mut row, value);
            self.push(")");
            proof {
                let before = states;
                states = states.push(self@);
                assert forall|i: int| #[trigger] is_row(i, before.len()) implies exists|
                    row: &mut Separated<'_, str>,
                |
                    {
                        &&& #[trigger] push_tuple.ensures((row, values@[i]), ())
                        &&& row.builder@ == row_start(states[i], i)
                        &&& row.separator@ == ", "@
                        &&& !row.needs_separator
                        &&& states[i + 1] == final(row.builder)@.with_text(")"@)
                        &&& *final(final(row).builder) == *final(row).builder
                    } by {
                    if i < before.len() - 1 {
                        assert(is_row(i, (before.len() - 1) as nat));
                    }
                }
            }
            first = false;
        }
        assert forall|i: int| #[trigger] is_row(i, values@.len()) implies exists|
            row: &mut Separated<'_, str>,
        |
            {
                &&& #[trigger] start_push.ensures((row, values@[i]), ())
                &&& row.builder@ == row_start(states[i], i)
                &&& row.separator@ == ", "@
                &&& !row.needs_separator
                &&& states[i + 1] == final(row.builder)@.with_text(")"@)
                &&& *final(final(row).builder) == *final(row).builder
            } by {
            assert(is_row(i, (states.len() - 1) as nat));
        }
        self
    }

    /// The SQL text so far.
    pub fn sql(&self) -> (sql: &str)
        ensures
            sql@ == self@.sql,
    {
        self.sql.as_str()
    }

    /// The query that was put together.
    pub fn build(self) -> (query: PreparedQuery)
        ensures
            query_text(query) == self@.sql,
            query_values(query) == self@.values,
    {
        query_with(self.sql, self.arguments)
    }

    /// The query that was put together, for rows that become values of type `O`.
    pub fn build_query_as<O>(self) -> (query: PreparedQueryAs<O>) where
        O: for <'row>FromRow<'row, AnyRow>,

        ensures
            query.text@ == self@.sql,
            query.values@ == self@.values,
    {
        query_as_with::<O>(self.sql, self.arguments)
    }

    /// A list at the end of the text, with `separator` between its elements.
    pub fn separated<'builder, Separator: Display + ?Sized>(
        &'builder mut self,
        separator: &'builder Separator,
    ) -> (separated: Separated<'builder, Separator>)
        ensures
            separated.builder@ == old(self)@,
            separated.separator == separator,
            !separated.needs_separator,
            *final(self) == *final(separated.builder),
    {
        Separated { builder: self, separator, needs_separator: false }
    }
}

/// Whether a list of `count` rows has a row at `index`.
pub open spec fn is_row(index: int, count: nat) -> bool {
    0 <= index < count
}

/// Where the row at `index` of a list of rows starts, after what stands before it.
pub open spec fn row_start(before: Assembled, index: int) -> Assembled {
    (if index == 0 {
        before
    } else {
        before.with_text(", "@)
    }).with_text("("@)
}

/// What a list separator adds before an element: nothing before the first one, then its text.
pub open spec fn separates<Separator: Display + ?Sized>(
    separator: &Separator,
    needed: bool,
    before: Assembled,
    after: Assembled,
) -> bool {
    if needed {
        exists|text: Seq<char>| #[trigger]
            displays(separator, text) && after == before.with_text(text)
    } else {
        after == before
    }
}

/// A list that is appended to a [`QueryBuilder`] element by element.
pub struct Separated<'builder, Separator: Display + ?Sized> {
    pub builder: &'builder mut QueryBuilder,
    pub separator: &'builder Separator,
    pub needs_separator: bool,
}

impl<'builder, Separator: Display + ?Sized> Separated<'builder, Separator> {
    fn push_separator(&mut self)
        ensures
            separates(
                old(self).separator,
                old(self).needs_separator,
                old(self).builder@,
                final(self).builder@,
            ),
            final(self).separator == old(self).separator,
            final(self).needs_separator,
            *final(final(self).builder) == *final(old(self).builder),
    {
        if self.needs_separator {
            self.builder.push(self.separator);
        }
        self.needs_separator = true;
    }

    /// Appends the text of `sql` as an element.
    pub fn push<T: Display + ?Sized>(&mut self, sql: &T) -> (separated: &mut Self)
        ensures
            exists|start: Assembled, text: Seq<char>|
                separates(
                    old(self).separator,
                    old(self).needs_separator,
                    old(self).builder@,
                    start,
                ) && #[trigger] displays(sql, text) && separated.builder@ == #[trigger] start.with_text(
                    text,
                ),
            separated.separator == old(self).separator,
            separated.needs_separator,
            *final(separated.builder) == *final(old(self).builder),
            *final(self) == *final(separated),
    {
        self.push_separator();
        self.builder.push(sql);
        self
    }

    /// Appends the text of `sql` to the last element.
    pub fn push_unseparated<T: Display + ?Sized>(&mut self, sql: &T) -> (separated: &mut Self)
        ensures
            exists|text: Seq<char>| #[trigger]
                displays(sql, text) && separated.builder@ == old(self).builder@.with_text(text),
            separated.separator == old(self).separator,
            separated.needs_separator == old(self).needs_separator,
            *final(separated.builder) == *final(old(self).builder),
            *final(self) == *final(separated),
    {
        self.builder.push(sql);
        self
    }

    /// Binds `value` to a new parameter as an element.
    pub fn push_bind<T: IntoSqlValue>(&mut self, value: T) -> (separated: &mut Self)
        ensures
            exists|start: Assembled|
                #[trigger] separates(
                    old(self).separator,
                    old(self).needs_separator,
                    old(self).builder@,
                    start,
                ) && separated.builder@ == start.with_value(value.datum()),
            separated.separator == old(self).separator,
            separated.needs_separator,
            *final(separated.builder) == *final(old(self).builder),
            *final(self) == *final(separated),
    {
        self.push_separator();
        self.builder.push_bind(value);
        self
    }

    /// Binds `value` to a new parameter at the end of the last element.
    pub fn push_bind_unseparated<T: IntoSqlValue>(&mut self, value: T) -> (separated: &mut Self)
        ensures
            separated.builder@ == old(self).builder@.with_value(value.datum()),
            separated.separator == old(self).separator,
            separated.needs_separator == old(self).needs_separator,
            *final(separated.builder) == *final(old(self).builder),
            *final(self) == *final(separated),
    {
        self.builder.push_bind(value);
        self
    }
}

/// A boolean column is true where it holds true or an integer other than zero, and false where it holds
/// false or zero. Nothing else is read as a boolean, but null is where it may be absent.
pub proof fn booleans_are_read_from_integers(
    row: &Row,
    column: &str,
    result: Result<bool, sqlx::Error>,
    optional: Result<Option<bool>, sqlx::Error>,
)
    requires
        call_ensures(bool_from_row, (row, column), result),
        call_ensures(optional_bool_from_row, (row, column), optional),
    ensures
        !row_cells(*row).contains_key(column@) ==> result is Err && optional is Err,
        row_cells(*row).contains_key(column@) ==> match row_cells(*row)[column@] {
            Cell::Bool(held) => {
                &&& result matches Ok(value) && value == held
                &&& optional matches Ok(Some(value)) && value == held
            },
            Cell::Integer(held) => {
                &&& result matches Ok(value) && value == (held < 0 || held > 0)
                &&& optional matches Ok(Some(value)) && value == (held < 0 || held > 0)
            },
            Cell::Null => result is Err && (optional matches Ok(value) && value is None),
            Cell::Text(_) | Cell::Other => result is Err && optional is Err,
        },
{
}

/// Appending two texts appends both in order, and binds nothing.
pub proof fn texts_are_appended(before: Assembled, first: Seq<char>, second: Seq<char>)
    ensures
        before.with_text(first).sql == before.sql + first,
        before.with_text(first).values == before.values,
        before.with_text(first).with_text(second) == before.with_text(first + second),
{
    assert(before.with_text(first).with_text(second).sql =~= before.with_text(
        first + second,
    ).sql);
}

/// A row of a list of rows opens with a parenthesis, after a comma unless it is the first.
pub proof fn rows_are_separated_by_commas(before: Assembled, index: int)
    ensures
        row_start(before, index).values == before.values,
        index == 0 ==> row_start(before, index).sql == before.sql + "("@,
        index > 0 ==> row_start(before, index).sql == before.sql + ", "@ + "("@,
{
}

/// A separator stands between elements and not before the first one, and binds nothing.
pub proof fn separators_stand_between(
    separator: &str,
    needed: bool,
    before: Assembled,
    after: Assembled,
)
    requires
        separates::<str>(separator, needed, before, after),
    ensures
        after.values == before.values,
        needed ==> after.sql == before.sql + separator@,
        !needed ==> after.sql == before.sql,
{
    if needed {
        let text = choose|text: Seq<char>| #[trigger]
            displays::<str>(separator, text) && after == before.with_text(text);
        str_displays_itself(separator, text);
    }
}

/// A statement becomes a query with its parameters numbered and its values bound in order.
pub proof fn statement_becomes_query(statement: Statement, query: PreparedQuery)
    requires
        call_ensures(bound_query, (statement,), query),
    ensures
        query_text(query) == numbered(statement.sql@),
        query_values(query).len() == statement.values@.len(),
        forall|i: int|
            0 <= i < statement.values@.len() ==> #[trigger] query_values(query)[i]
                == statement.values@[i]@,
{
}

/// A value is bound to the parameter that is written for it at the end of the text, numbered by the
/// values that are bound then.
pub proof fn bound_values_get_the_next_number<T: IntoSqlValue>(value: T)
    ensures
        forall|builder: &mut QueryBuilder, after: &mut QueryBuilder|
            #![trigger call_ensures(QueryBuilder::push_bind::<T>, (builder, value), after)]
            call_ensures(QueryBuilder::push_bind::<T>, (builder, value), after) ==> {
                &&& after@.values == builder@.values.push(value.datum())
                &&& after@.sql == builder@.sql + seq!['$'] + decimal(builder@.values.len() + 1)
            },
{
}

/// A text is appended as it shows itself, and binds nothing.
pub proof fn pushed_texts_are_appended(text: &str)
    ensures
        forall|builder: &mut QueryBuilder, after: &mut QueryBuilder|
            #![trigger call_ensures(QueryBuilder::push::<str>, (builder, text), after)]
            call_ensures(QueryBuilder::push::<str>, (builder, text), after) ==> {
                &&& after@.values == builder@.values
                &&& after@.sql == builder@.sql + text@
            },
{
    assert forall|builder: &mut QueryBuilder, after: &mut QueryBuilder|
        #![trigger call_ensures(QueryBuilder::push::<str>, (builder, text), after)]
        call_ensures(QueryBuilder::push::<str>, (builder, text), after) implies after@.values
        == builder@.values && after@.sql == builder@.sql + text@ by {
        let shown = choose|shown: Seq<char>| #[trigger]
            displays(text, shown) && after@ == builder@.with_text(shown);
        str_displays_itself(text, shown);
    }
}

/// An element of a list is preceded by the separator unless it is the first one, and its value gets the
/// next number.
pub proof fn bound_elements_are_separated<T: IntoSqlValue>(value: T)
    ensures
        forall|list: &mut Separated<'static, str>, after: &mut Separated<'static, str>|
            #![trigger call_ensures(Separated::<'static, str>::push_bind::<T>, (list, value), after)]
            call_ensures(Separated::<'static, str>::push_bind::<T>, (list, value), after) ==> {
                let start = if list.needs_separator {
                    list.builder@.sql + list.separator@
                } else {
                    list.builder@.sql
                };
                &&& after.needs_separator
                &&& after.builder@.values == list.builder@.values.push(value.datum())
                &&& after.builder@.sql == start + seq!['$'] + decimal(
                    list.builder@.values.len() + 1,
                )
            },
{
    assert forall|list: &mut Separated<'static, str>, after: &mut Separated<'static, str>|
        #![trigger call_ensures(Separated::<'static, str>::push_bind::<T>, (list, value), after)]
        call_ensures(Separated::<'static, str>::push_bind::<T>, (list, value), after) implies {
        let start = if list.needs_separator {
            list.builder@.sql + list.separator@
        } else {
            list.builder@.sql
        };
        &&& after.needs_separator
        &&& after.builder@.values == list.builder@.values.push(value.datum())
        &&& after.builder@.sql == start + seq!['$'] + decimal(list.builder@.values.len() + 1)
    } by {
        let start = choose|start: Assembled|
            #[trigger] separates(
                list.separator,
                list.needs_separator,
                list.builder@,
                start,
            ) && after.builder@ == start.with_value(value.datum());
        separators_stand_between(list.separator, list.needs_separator, list.builder@, start);
    }
}

/// A list without rows is nothing but the word that it starts with.
pub proof fn empty_lists_have_no_rows<T, F: FnMut(&mut Separated<'_, str>, T)>(
    values: Vec<T>,
    push_tuple: F,
)
    requires
        values@.len() == 0,
    ensures
        forall|builder: &mut QueryBuilder, after: &mut QueryBuilder|
            #![trigger call_ensures(QueryBuilder::push_values::<T, F>, (builder, values, push_tuple), after)]
            call_ensures(
                QueryBuilder::push_values::<T, F>,
                (builder, values, push_tuple),
                after,
            ) ==> after@.values == builder@.values && after@.sql == builder@.sql + "VALUES "@,
{
}

/// A query is what was put together: its text and its values.
pub proof fn queries_are_what_was_put_together(
    start: &'static str,
    builder: QueryBuilder,
    built: PreparedQuery,
    plain: PreparedQuery,
)
    requires
        call_ensures(QueryBuilder::build, (builder,), built),
        call_ensures(query, (start,), plain),
    ensures
        query_text(built) == builder@.sql,
        query_values(built) == builder@.values,
        query_text(plain) == numbered(start@),
        query_values(plain).len() == 0,
{
}

/// A text becomes an element of a list after the separator, unless it is the first one. What is pushed
/// without a separator goes on with the last element.
pub proof fn elements_are_separated(text: &str)
    ensures
        forall|list: &mut Separated<'static, str>, after: &mut Separated<'static, str>|
            #![trigger call_ensures(Separated::<'static, str>::push::<str>, (list, text), after)]
            call_ensures(Separated::<'static, str>::push::<str>, (list, text), after) ==> {
                &&& after.needs_separator
                &&& after.builder@.values == list.builder@.values
                &&& after.builder@.sql == if list.needs_separator {
                    list.builder@.sql + list.separator@ + text@
                } else {
                    list.builder@.sql + text@
                }
            },
        forall|list: &mut Separated<'static, str>, after: &mut Separated<'static, str>|
            #![trigger call_ensures(Separated::<'static, str>::push_unseparated::<str>, (list, text), after)]
            call_ensures(
                Separated::<'static, str>::push_unseparated::<str>,
                (list, text),
                after,
            ) ==> {
                &&& after.needs_separator == list.needs_separator
                &&& after.builder@.values == list.builder@.values
                &&& after.builder@.sql == list.builder@.sql + text@
            },
{
    assert forall|list: &mut Separated<'static, str>, after: &mut Separated<'static, str>|
        #![trigger call_ensures(Separated::<'static, str>::push::<str>, (list, text), after)]
        call_ensures(Separated::<'static, str>::push::<str>, (list, text), after) implies {
        &&& after.needs_separator
        &&& after.builder@.values == list.builder@.values
        &&& after.builder@.sql == if list.needs_separator {
            list.builder@.sql + list.separator@ + text@
        } else {
            list.builder@.sql + text@
        }
    } by {
        let (start, shown) = choose|start: Assembled, shown: Seq<char>|
            separates(
                list.separator,
                list.needs_separator,
                list.builder@,
                start,
            ) && #[trigger] displays(text, shown) && after.builder@ == #[trigger] start.with_text(
                shown,
            );
        str_displays_itself(text, shown);
        separators_stand_between(list.separator, list.needs_separator, list.builder@, start);
    }
    assert forall|list: &mut Separated<'static, str>, after: &mut Separated<'static, str>|
        #![trigger call_ensures(Separated::<'static, str>::push_unseparated::<str>, (list, text), after)]
        call_ensures(
            Separated::<'static, str>::push_unseparated::<str>,
            (list, text),
            after,
        ) implies {
        &&& after.needs_separator == list.needs_separator
        &&& after.builder@.values == list.builder@.values
        &&& after.builder@.sql == list.builder@.sql + text@
    } by {
        let shown = choose|shown: Seq<char>| #[trigger]
            displays(text, shown) && after.builder@ == list.builder@.with_text(shown);
        str_displays_itself(text, shown);
    }
}

/// A value that is bound without a separator goes on with the last element.
pub proof fn bound_values_may_go_on_with_an_element<T: IntoSqlValue>(value: T)
    ensures
        forall|list: &mut Separated<'static, str>, after: &mut Separated<'static, str>|
            #![trigger call_ensures(Separated::<'static, str>::push_bind_unseparated::<T>, (list, value), after)]
            call_ensures(
                Separated::<'static, str>::push_bind_unseparated::<T>,
                (list, value),
                after,
            ) ==> {
                &&& after.needs_separator == list.needs_separator
                &&& after.builder@.values == list.builder@.values.push(value.datum())
                &&& after.builder@.sql == list.builder@.sql + seq!['$'] + decimal(
                    list.builder@.values.len() + 1,
                )
            },
{
}

} // verus!
