//! Values that are bound to SQL parameters.
use vstd::prelude::*;
use vstd::slice::slice_to_vec;

verus! {

/// A value for an SQL parameter. `None` is the null of its type.
#[derive(Debug)]
pub enum SqlValue {
    Bool(Option<bool>),
    SmallInt(Option<i16>),
    Int(Option<i32>),
    Integer(Option<i64>),
    Text(Option<String>),
    Bytes(Option<Vec<u8>>),
}

/// What an [`SqlValue`] stands for.
#[verifier::ext_equal]
pub enum SqlDatum {
    Bool(Option<bool>),
    SmallInt(Option<i16>),
    Int(Option<i32>),
    Integer(Option<i64>),
    Text(Option<Seq<char>>),
    Bytes(Option<Seq<u8>>),
}

/// The text of an optional string.
pub open spec fn optional_text(text: Option<String>) -> Option<Seq<char>> {
    match text {
        Some(text) => Some(text@),
        None => None,
    }
}

/// The bytes of an optional list of bytes.
pub open spec fn optional_bytes(bytes: Option<Vec<u8>>) -> Option<Seq<u8>> {
    match bytes {
        Some(bytes) => Some(bytes@),
        None => None,
    }
}

impl View for SqlValue {
    type V = SqlDatum;

    open spec fn view(&self) -> SqlDatum {
        match *self {
            SqlValue::Bool(value) => SqlDatum::Bool(value),
            SqlValue::SmallInt(value) => SqlDatum::SmallInt(value),
            SqlValue::Int(value) => SqlDatum::Int(value),
            SqlValue::Integer(value) => SqlDatum::Integer(value),
            SqlValue::Text(value) => SqlDatum::Text(optional_text(value)),
            SqlValue::Bytes(value) => SqlDatum::Bytes(optional_bytes(value)),
        }
    }
}

/// What can be bound to an SQL parameter.
pub trait IntoSqlValue: Sized {
    /// The value that the parameter gets.
    spec fn datum(self) -> SqlDatum;

    /// Turns this into the value that the parameter gets.
    fn into_sql_value(self) -> (value: SqlValue)
        ensures
            value@ == self.datum(),
    ;
}

impl IntoSqlValue for SqlValue {
    open spec fn datum(self) -> SqlDatum {
        self@
    }

    fn into_sql_value(self) -> (value: SqlValue) {
        self
    }
}

impl IntoSqlValue for bool {
    open spec fn datum(self) -> SqlDatum {
        SqlDatum::Bool(Some(self))
    }

    fn into_sql_value(self) -> (value: SqlValue) {
        SqlValue::Bool(Some(self))
    }
}

impl IntoSqlValue for Option<bool> {
    open spec fn datum(self) -> SqlDatum {
        SqlDatum::Bool(self)
    }

    fn into_sql_value(self) -> (value: SqlValue) {
        SqlValue::Bool(self)
    }
}

impl IntoSqlValue for i64 {
    open spec fn datum(self) -> SqlDatum {
        SqlDatum::Integer(Some(self))
    }

    fn into_sql_value(self) -> (value: SqlValue) {
        SqlValue::Integer(Some(self))
    }
}

impl IntoSqlValue for Option<i64> {
    open spec fn datum(self) -> SqlDatum {
        SqlDatum::Integer(self)
    }

    fn into_sql_value(self) -> (value: SqlValue) {
        SqlValue::Integer(self)
    }
}

impl IntoSqlValue for String {
    open spec fn datum(self) -> SqlDatum {
        SqlDatum::Text(Some(self@))
    }

    fn into_sql_value(self) -> (value: SqlValue) {
        SqlValue::Text(Some(self))
    }
}

impl IntoSqlValue for Option<String> {
    open spec fn datum(self) -> SqlDatum {
        SqlDatum::Text(optional_text(self))
    }

    fn into_sql_value(self) -> (value: SqlValue) {
        SqlValue::Text(self)
    }
}

impl<'a> IntoSqlValue for &'a str {
    open spec fn datum(self) -> SqlDatum {
        SqlDatum::Text(Some(self@))
    }

    fn into_sql_value(self) -> (value: SqlValue) {
        SqlValue::Text(Some(self.to_owned()))
    }
}

impl IntoSqlValue for i16 {
    open spec fn datum(self) -> SqlDatum {
        SqlDatum::SmallInt(Some(self))
    }

    fn into_sql_value(self) -> (value: SqlValue) {
        SqlValue::SmallInt(Some(self))
    }
}

impl IntoSqlValue for Option<i16> {
    open spec fn datum(self) -> SqlDatum {
        SqlDatum::SmallInt(self)
    }

    fn into_sql_value(self) -> (value: SqlValue) {
        SqlValue::SmallInt(self)
    }
}

impl IntoSqlValue for i32 {
    open spec fn datum(self) -> SqlDatum {
        SqlDatum::Int(Some(self))
    }

    fn into_sql_value(self) -> (value: SqlValue) {
        SqlValue::Int(Some(self))
    }
}

impl IntoSqlValue for Option<i32> {
    open spec fn datum(self) -> SqlDatum {
        SqlDatum::Int(self)
    }

    fn into_sql_value(self) -> (value: SqlValue) {
        SqlValue::Int(self)
    }
}

impl<'a> IntoSqlValue for &'a String {
    open spec fn datum(self) -> SqlDatum {
        SqlDatum::Text(Some(self@))
    }

    fn into_sql_value(self) -> (value: SqlValue) {
        SqlValue::Text(Some(self.clone()))
    }
}

impl<'a> IntoSqlValue for Option<&'a str> {
    open spec fn datum(self) -> SqlDatum {
        match self {
            Some(text) => SqlDatum::Text(Some(text@)),
            None => SqlDatum::Text(None),
        }
    }

    fn into_sql_value(self) -> (value: SqlValue) {
        match self {
            Some(text) => SqlValue::Text(Some(text.to_owned())),
            None => SqlValue::Text(None),
        }
    }
}

impl IntoSqlValue for Vec<u8> {
    open spec fn datum(self) -> SqlDatum {
        SqlDatum::Bytes(Some(self@))
    }

    fn into_sql_value(self) -> (value: SqlValue) {
        SqlValue::Bytes(Some(self))
    }
}

impl IntoSqlValue for Option<Vec<u8>> {
    open spec fn datum(self) -> SqlDatum {
        SqlDatum::Bytes(optional_bytes(self))
    }

    fn into_sql_value(self) -> (value: SqlValue) {
        SqlValue::Bytes(self)
    }
}

impl<'a> IntoSqlValue for &'a [u8] {
    open spec fn datum(self) -> SqlDatum {
        SqlDatum::Bytes(Some(self@))
    }

    fn into_sql_value(self) -> (value: SqlValue) {
        SqlValue::Bytes(Some(slice_to_vec(self)))
    }
}

impl<'a> IntoSqlValue for Option<&'a [u8]> {
    open spec fn datum(self) -> SqlDatum {
        match self {
            Some(bytes) => SqlDatum::Bytes(Some(bytes@)),
            None => SqlDatum::Bytes(None),
        }
    }

    fn into_sql_value(self) -> (value: SqlValue) {
        match self {
            Some(bytes) => SqlValue::Bytes(Some(slice_to_vec(bytes))),
            None => SqlValue::Bytes(None),
        }
    }
}

/// What an SQL text can start with.
pub trait IntoText: Sized {
    /// The text.
    spec fn text(self) -> Seq<char>;

    /// Turns this into the text.
    fn into_text(self) -> (text: String)
        ensures
            text@ == self.text(),
    ;
}

impl IntoText for String {
    open spec fn text(self) -> Seq<char> {
        self@
    }

    fn into_text(self) -> (text: String) {
        self
    }
}

impl<'a> IntoText for &'a str {
    open spec fn text(self) -> Seq<char> {
        self@
    }

    fn into_text(self) -> (text: String) {
        self.to_owned()
    }
}

impl<'a> IntoText for &'a String {
    open spec fn text(self) -> Seq<char> {
        self@
    }

    fn into_text(self) -> (text: String) {
        self.clone()
    }
}

/// A value stands for itself: a null for the null of its type, and anything else for what it holds.
pub proof fn values_stand_for_themselves(value: SqlValue)
    ensures
        match value {
            SqlValue::Bool(held) => value@ == SqlDatum::Bool(held),
            SqlValue::SmallInt(held) => value@ == SqlDatum::SmallInt(held),
            SqlValue::Int(held) => value@ == SqlDatum::Int(held),
            SqlValue::Integer(held) => value@ == SqlDatum::Integer(held),
            SqlValue::Text(None) => value@ == SqlDatum::Text(None),
            SqlValue::Text(Some(held)) => value@ == SqlDatum::Text(Some(held@)),
            SqlValue::Bytes(None) => value@ == SqlDatum::Bytes(None),
            SqlValue::Bytes(Some(held)) => value@ == SqlDatum::Bytes(Some(held@)),
        },
{
}

/// What is bound to a parameter is the given value itself.
pub proof fn values_are_bound_as_given(
    boolean: bool,
    small: i16,
    medium: i32,
    integer: i64,
    text: String,
    slice: &str,
    bytes: Vec<u8>,
    byte_slice: &[u8],
)
    ensures
        boolean.datum() == SqlDatum::Bool(Some(boolean)),
        small.datum() == SqlDatum::SmallInt(Some(small)),
        medium.datum() == SqlDatum::Int(Some(medium)),
        integer.datum() == SqlDatum::Integer(Some(integer)),
        text.datum() == SqlDatum::Text(Some(text@)),
        (&text).datum() == SqlDatum::Text(Some(text@)),
        slice.datum() == SqlDatum::Text(Some(slice@)),
        bytes.datum() == SqlDatum::Bytes(Some(bytes@)),
        byte_slice.datum() == SqlDatum::Bytes(Some(byte_slice@)),
        Some(boolean).datum() == boolean.datum(),
        Some(small).datum() == small.datum(),
        Some(medium).datum() == medium.datum(),
        Some(integer).datum() == integer.datum(),
        Some(text).datum() == text.datum(),
        Some(slice).datum() == slice.datum(),
        Some(bytes).datum() == bytes.datum(),
        Some(byte_slice).datum() == byte_slice.datum(),
        None::<bool>.datum() == SqlDatum::Bool(None),
        None::<i16>.datum() == SqlDatum::SmallInt(None),
        None::<i32>.datum() == SqlDatum::Int(None),
        None::<i64>.datum() == SqlDatum::Integer(None),
        None::<String>.datum() == SqlDatum::Text(None),
        None::<&str>.datum() == SqlDatum::Text(None),
        None::<Vec<u8>>.datum() == SqlDatum::Bytes(None),
        None::<&[u8]>.datum() == SqlDatum::Bytes(None),
{
}

/// A text can start with any string, and then is this string.
pub proof fn texts_start_as_given(text: String, slice: &str)
    ensures
        IntoText::text(text) == text@,
        IntoText::text(&text) == text@,
        IntoText::text(slice) == slice@,
{
}

/// An optional string is absent with its text, and empty with it too.
pub proof fn optional_texts_keep_their_text(text: Option<String>, bytes: Option<Vec<u8>>)
    ensures
        text is None <==> optional_text(text) is None,
        text matches Some(held) ==> optional_text(text) == Some(held@),
        bytes is None <==> optional_bytes(bytes) is None,
        bytes matches Some(held) ==> optional_bytes(bytes) == Some(held@),
{
}

} // verus!
