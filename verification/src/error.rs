//! Errors of the thread store.
use crate::db::{displays, str_displays_itself};
use std::fmt::Display;
use vstd::prelude::*;

verus! {

/// Why the thread store could not do what it was asked for.
#[derive(Debug)]
pub enum ThreadStoreError {
    /// The request itself cannot be met.
    InvalidRequest { message: String },
    /// The store failed.
    Internal { message: String },
}

/// What a [`ThreadStoreError`] says.
#[verifier::ext_equal]
pub enum Failure {
    InvalidRequest(Seq<char>),
    Internal(Seq<char>),
}

pub type ThreadStoreResult<T> = Result<T, ThreadStoreError>;

impl View for ThreadStoreError {
    type V = Failure;

    open spec fn view(&self) -> Failure {
        match *self {
            ThreadStoreError::InvalidRequest { message } => Failure::InvalidRequest(message@),
            ThreadStoreError::Internal { message } => Failure::Internal(message@),
        }
    }
}

/// An internal error with the given message.
pub(crate) fn internal(message: String) -> (error: ThreadStoreError)
    ensures
        error@ == Failure::Internal(message@),
{
    ThreadStoreError::Internal { message }
}

/// The error of a failed access to the thread history.
pub fn thread_history_error<E: Display + ?Sized>(err: &E) -> (error: ThreadStoreError)
    ensures
        exists|text: Seq<char>| #[trigger]
            displays(err, text) && error@ == Failure::Internal(
                "failed to access thread history: "@ + text,
            ),
{
    let text = err.to_string();
    assert(displays(err, text@));
    internal("failed to access thread history: ".to_owned().concat(text.as_str()))
}

/// The error of a failed deletion of a thread's history.
pub fn thread_history_delete_error<E: Display + ?Sized>(err: &E) -> (error: ThreadStoreError)
    ensures
        exists|text: Seq<char>| #[trigger]
            displays(err, text) && error@ == Failure::Internal(
                "failed to delete thread history: "@ + text,
            ),
{
    let text = err.to_string();
    assert(displays(err, text@));
    internal("failed to delete thread history: ".to_owned().concat(text.as_str()))
}

/// The message of a number that the database cannot store.
pub open spec fn out_of_range(field: Seq<char>) -> Seq<char> {
    field + " exceeds SQLite integer range"@
}

/// The integer that the database stores for `value`, which must not exceed 63 bits.
pub fn sqlite_integer(value: u64, field: &str) -> (result: ThreadStoreResult<i64>)
    ensures
        match result {
            Ok(integer) => integer == value,
            Err(error) => value > i64::MAX && error@ == Failure::Internal(out_of_range(field@)),
        },
{
    if value <= i64::MAX as u64 {
        Ok(value as i64)
    } else {
        Err(internal(field.to_owned().concat(" exceeds SQLite integer range")))
    }
}

impl vstd::std_specs::convert::FromSpecImpl<sqlx::Error> for ThreadStoreError {
    open spec fn obeys_from_spec() -> bool {
        false
    }

    open spec fn from_spec(err: sqlx::Error) -> ThreadStoreError {
        arbitrary()
    }
}

impl From<sqlx::Error> for ThreadStoreError {
    fn from(err: sqlx::Error) -> (error: ThreadStoreError)
        ensures
            exists|text: Seq<char>| #[trigger]
                displays(&err, text) && error@ == Failure::Internal(
                    "failed to access thread history: "@ + text,
                ),
    {
        thread_history_error(&err)
    }
}

/// A number is stored as it is, unless it exceeds 63 bits.
pub proof fn stored_integers_are_exact(value: u64, field: &str, result: ThreadStoreResult<i64>)
    requires
        call_ensures(sqlite_integer, (value, field), result),
    ensures
        result is Ok <==> value < 0x8000_0000_0000_0000,
        result matches Ok(integer) ==> integer == value,
        result matches Err(error) ==> error@ == Failure::Internal(
            field@ + " exceeds SQLite integer range"@,
        ),
{
}

/// An error stands for its message, and for whose fault it is.
pub proof fn errors_stand_for_themselves(error: ThreadStoreError)
    ensures
        match error {
            ThreadStoreError::InvalidRequest { message } => error@ == Failure::InvalidRequest(
                message@,
            ),
            ThreadStoreError::Internal { message } => error@ == Failure::Internal(message@),
        },
{
}

/// Errors of the thread history say what was done when they came up, and then what came up.
pub proof fn history_errors_say_what_came_up(
    text: &str,
    access: ThreadStoreError,
    deletion: ThreadStoreError,
)
    requires
        call_ensures(thread_history_error::<str>, (text,), access),
        call_ensures(thread_history_delete_error::<str>, (text,), deletion),
    ensures
        access@ == Failure::Internal("failed to access thread history: "@ + text@),
        deletion@ == Failure::Internal("failed to delete thread history: "@ + text@),
{
    let shown = choose|shown: Seq<char>| #[trigger]
        displays(text, shown) && access@ == Failure::Internal(
            "failed to access thread history: "@ + shown,
        );
    str_displays_itself(text, shown);
    let shown = choose|shown: Seq<char>| #[trigger]
        displays(text, shown) && deletion@ == Failure::Internal(
            "failed to delete thread history: "@ + shown,
        );
    str_displays_itself(text, shown);
}

} // verus!
