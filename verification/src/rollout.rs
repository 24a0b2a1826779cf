//! Lines of a thread's rollout: the durable record that the history is projected from.
use crate::any::{row_cells, try_get_text, Cell};
use crate::db::{displays, shows_only, Row};
use crate::error::{internal, thread_history_error, Failure, ThreadStoreError, ThreadStoreResult};
use crate::json::{
    as_string, as_unsigned, get_member, is_object, json_shape, json_text, member, parse_json,
    parsed_json, string_of, unsigned_of, write_json, JsonShape,
};
use crate::value::optional_text;
use serde_json::Value;
use vstd::prelude::*;

verus! {

/// A rollout line as the database stores it: its head, and its item as JSON text.
#[derive(Debug)]
pub struct RolloutLine {
    pub timestamp: String,
    pub ordinal: Option<u64>,
    /// The item, as an object with the members `type` and `payload` in this order.
    pub item_json: String,
}

/// Why a stored row is no rollout line.
#[derive(Debug)]
pub enum RolloutLineError {
    /// The row is no JSON, or a part of it cannot be written.
    Json(serde_json::Error),
    NotAnObject,
    NoTimestamp,
}

/// What a stored row holds of a rollout line.
#[derive(Debug)]
pub struct RolloutFields {
    /// Whether the row is a JSON object at all.
    pub object: bool,
    pub timestamp: Option<String>,
    pub ordinal: Option<u64>,
    /// The JSON text of the line's type.
    pub line_type: Result<String, serde_json::Error>,
    /// The JSON text of the line's payload.
    pub payload: Result<String, serde_json::Error>,
}

/// The JSON text of an item.
pub open spec fn item_text(line_type: Seq<char>, payload: Seq<char>) -> Seq<char> {
    "{\"type\":"@ + line_type + ",\"payload\":"@ + payload + "}"@
}

impl RolloutLineError {
    /// What to tell the user.
    pub fn message(&self) -> (message: String)
        ensures
            match *self {
                RolloutLineError::Json(error) => displays(&error, message@),
                RolloutLineError::NotAnObject => message@
                    == "PostgreSQL rollout row is not a JSON object"@,
                RolloutLineError::NoTimestamp => message@
                    == "PostgreSQL rollout row has no timestamp"@,
            },
    {
        match self {
            RolloutLineError::Json(error) => {
                let message = error.to_string();
                assert(displays(error, message@));
                message
            },
            RolloutLineError::NotAnObject => "PostgreSQL rollout row is not a JSON object".to_owned(),
            RolloutLineError::NoTimestamp => "PostgreSQL rollout row has no timestamp".to_owned(),
        }
    }
}

/// Puts a rollout line together from what a row holds of it.
pub fn rollout_line_from_fields(fields: RolloutFields) -> (result: Result<
    RolloutLine,
    RolloutLineError,
>)
    ensures
        !fields.object ==> result matches Err(RolloutLineError::NotAnObject),
        fields.object && fields.timestamp is None ==> result matches Err(
            RolloutLineError::NoTimestamp,
        ),
        fields.object && fields.timestamp is Some ==> match (fields.line_type, fields.payload) {
            (Ok(line_type), Ok(payload)) => {
                &&& result is Ok
                &&& result->Ok_0.timestamp == fields.timestamp->0
                &&& result->Ok_0.ordinal == fields.ordinal
                &&& result->Ok_0.item_json@ == item_text(line_type@, payload@)
            },
            (Err(error), _) => result == Err::<RolloutLine, _>(RolloutLineError::Json(error)),
            (Ok(_), Err(error)) => result == Err::<RolloutLine, _>(RolloutLineError::Json(error)),
        },
{
    if !fields.object {
        return Err(RolloutLineError::NotAnObject);
    }
    let timestamp = match fields.timestamp {
        Some(timestamp) => timestamp,
        None => {
            return Err(RolloutLineError::NoTimestamp);
        },
    };
    let line_type = match fields.line_type {
        Ok(line_type) => line_type,
        Err(error) => {
            return Err(RolloutLineError::Json(error));
        },
    };
    let payload = match fields.payload {
        Ok(payload) => payload,
        Err(error) => {
            return Err(RolloutLineError::Json(error));
        },
    };
    let item_json = "{\"type\":".to_owned().concat(line_type.as_str()).concat(
        ",\"payload\":",
    ).concat(payload.as_str()).concat("}");
    Ok(RolloutLine { timestamp, ordinal: fields.ordinal, item_json })
}

/// The JSON text of a member, or `null` where there is none.
pub open spec fn member_text(value: Value, name: Seq<char>) -> Result<Seq<char>, Seq<char>> {
    match member(value, name) {
        Some(inner) => json_text(inner),
        None => Ok("null"@),
    }
}

/// The text of a member that is a string.
pub open spec fn string_member(value: Value, name: Seq<char>) -> Option<Seq<char>> {
    match member(value, name) {
        Some(inner) => string_of(inner),
        None => None,
    }
}

/// The number of a member that is an integer without a sign.
pub open spec fn unsigned_member(value: Value, name: Seq<char>) -> Option<u64> {
    match member(value, name) {
        Some(inner) => unsigned_of(inner),
        None => None,
    }
}

fn string_member_of(value: &Value, name: &str) -> (text: Option<String>)
    ensures
        optional_text(text) == string_member(*value, name@),
{
    match get_member(value, name) {
        Some(inner) => as_string(inner),
        None => None,
    }
}

/// Whether `text` is the JSON text of a member, or the error of one that cannot be written.
pub open spec fn is_member_text(
    text: Result<String, serde_json::Error>,
    value: Value,
    name: Seq<char>,
) -> bool {
    match (text, member_text(value, name)) {
        (Ok(text), Ok(expected)) => text@ == expected,
        (Err(error), Err(message)) => shows_only(&error, message),
        _ => false,
    }
}

fn member_text_of(value: &Value, name: &str) -> (text: Result<String, serde_json::Error>)
    ensures
        is_member_text(text, *value, name@),
{
    match get_member(value, name) {
        Some(inner) => write_json(inner),
        None => Ok("null".to_owned()),
    }
}

/// Reads what a row holds of a rollout line.
pub fn rollout_fields(value: &Value) -> (fields: RolloutFields)
    ensures
        fields.object == (json_shape(*value) is Object),
        optional_text(fields.timestamp) == string_member(*value, "timestamp"@),
        fields.ordinal == unsigned_member(*value, "ordinal"@),
        is_member_text(fields.line_type, *value, "type"@),
        is_member_text(fields.payload, *value, "payload"@),
{
    RolloutFields {
        object: is_object(value),
        timestamp: string_member_of(value, "timestamp"),
        ordinal: match get_member(value, "ordinal") {
            Some(inner) => as_unsigned(inner),
            None => None,
        },
        line_type: member_text_of(value, "type"),
        payload: member_text_of(value, "payload"),
    }
}

/// The item of a stored row, or what is said of a row that is no rollout line.
pub open spec fn row_item(raw: Seq<char>) -> Result<Seq<char>, Seq<char>> {
    match parsed_json(raw) {
        Err(message) => Err(message),
        Ok(value) => if !(json_shape(value) is Object) {
            Err("PostgreSQL rollout row is not a JSON object"@)
        } else if string_member(value, "timestamp"@) is None {
            Err("PostgreSQL rollout row has no timestamp"@)
        } else {
            match (member_text(value, "type"@), member_text(value, "payload"@)) {
                (Ok(line_type), Ok(payload)) => Ok(item_text(line_type, payload)),
                (Err(message), _) => Err(message),
                (_, Err(message)) => Err(message),
            }
        },
    }
}

/// Whether `error` is the one of a row whose JSON text is no rollout line.
pub open spec fn is_line_error(error: RolloutLineError, raw: Seq<char>) -> bool {
    match parsed_json(raw) {
        Ok(value) if !(json_shape(value) is Object) => error is NotAnObject,
        Ok(value) if string_member(value, "timestamp"@) is None => error is NoTimestamp,
        _ => error matches RolloutLineError::Json(error) && row_item(raw) matches Err(message)
            && shows_only(&error, message),
    }
}

/// Reads a rollout line from the JSON text of a row, whose members may stand in any order.
pub fn parse_postgres_rollout_line(raw: &str) -> (result: Result<RolloutLine, RolloutLineError>)
    ensures
        match result {
            Ok(line) => parsed_json(raw@) matches Ok(value) && {
                &&& Some(line.timestamp@) == string_member(value, "timestamp"@)
                &&& line.ordinal == unsigned_member(value, "ordinal"@)
                &&& row_item(raw@) == Ok::<Seq<char>, Seq<char>>(line.item_json@)
            },
            Err(error) => row_item(raw@) is Err && is_line_error(error, raw@),
        },
{
    match parse_json(raw) {
        Ok(value) => rollout_line_from_fields(rollout_fields(&value)),
        Err(error) => Err(RolloutLineError::Json(error)),
    }
}

/// The type of a rollout line, `unknown` where it has none.
pub open spec fn line_type_text(line: Option<Value>) -> Seq<char> {
    match line {
        Some(value) => match string_member(value, "type"@) {
            Some(text) => text,
            None => "unknown"@,
        },
        None => "unknown"@,
    }
}

/// The type of a rollout line's payload, if it has one.
pub open spec fn payload_type_text(line: Option<Value>) -> Option<Seq<char>> {
    match line {
        Some(value) => match member(value, "payload"@) {
            Some(payload) => string_member(payload, "type"@),
            None => None,
        },
        None => None,
    }
}

/// The type of a rollout line, given as JSON where it has such a form.
pub fn rollout_line_type(line: &Option<Value>) -> (line_type: String)
    ensures
        line_type@ == line_type_text(*line),
{
    if let Some(value) = line {
        if let Some(line_type) = string_member_of(value, "type") {
            return line_type;
        }
    }
    "unknown".to_owned()
}

/// The type of a rollout line's payload, given as JSON where the line has such a form.
pub fn rollout_payload_type(line: &Option<Value>) -> (payload_type: Option<String>)
    ensures
        optional_text(payload_type) == payload_type_text(*line),
{
    match line {
        Some(value) => match get_member(value, "payload") {
            Some(payload) => string_member_of(payload, "type"),
            None => None,
        },
        None => None,
    }
}

/// The order of a row's members makes no difference to the item that is read from it.
pub proof fn member_order_does_not_matter(raw: Seq<char>, reordered: Seq<char>)
    requires
        parsed_json(raw) matches Ok(value) && parsed_json(reordered) matches Ok(other)
            && json_shape(value) == json_shape(other),
    ensures
        row_item(raw) == row_item(reordered),
{
}

/// Whether a JSON value is an object with a member that is the given string, whatever else it holds.
pub open spec fn has_string(value: Value, name: Seq<char>, text: Seq<char>) -> bool {
    json_shape(value) matches JsonShape::Object(members) && members.contains_key(name)
        && json_shape(members[name]) == JsonShape::Text(text)
}

/// A line's type is the string that is the line's own member `type`, whatever other members the line
/// has. A line without such a string is of type `unknown`.
pub proof fn line_type_is_the_lines_own(line: Option<Value>, text: Seq<char>)
    ensures
        line matches Some(value) && has_string(value, "type"@, text) ==> line_type_text(line)
            == text,
        line_type_text(line) == text && text != "unknown"@ ==> (line matches Some(value)
            && has_string(value, "type"@, text)),
        line is None ==> line_type_text(line) == "unknown"@,
{
}

/// Lines whose members `type` hold the same are of the same type.
pub proof fn same_type_members_give_the_same_type(
    line: Value,
    other: Value,
    members: Map<Seq<char>, Value>,
    other_members: Map<Seq<char>, Value>,
)
    requires
        json_shape(line) == JsonShape::Object(members),
        json_shape(other) == JsonShape::Object(other_members),
        members.contains_key("type"@) == other_members.contains_key("type"@),
        members.contains_key("type"@) ==> json_shape(members["type"@]) == json_shape(
            other_members["type"@],
        ),
    ensures
        line_type_text(Some(line)) == line_type_text(Some(other)),
{
}

/// A payload's type is the string that is the payload's own member `type`, and a line without such a
/// payload has none.
pub proof fn payload_type_is_the_payloads_own(line: Option<Value>, text: Seq<char>)
    ensures
        payload_type_text(line) == Some(text) <==> (line matches Some(value) && (json_shape(
            value,
        ) matches JsonShape::Object(members) && members.contains_key("payload"@) && has_string(
            members["payload"@],
            "type"@,
            text,
        ))),
{
}

/// A stored row is a rollout line if it is a JSON object whose member `timestamp` is a string. Its item
/// is an object that holds the type and the payload as the row holds them, and `null` for one that
/// the row does not hold.
pub proof fn row_item_holds_type_and_payload(
    raw: Seq<char>,
    value: Value,
    members: Map<Seq<char>, Value>,
    timestamp: Seq<char>,
    line_type: Seq<char>,
    payload: Seq<char>,
)
    requires
        parsed_json(raw) == Ok::<Value, Seq<char>>(value),
        json_shape(value) == JsonShape::Object(members),
        has_string(value, "timestamp"@, timestamp),
        if members.contains_key("type"@) {
            json_text(members["type"@]) == Ok::<Seq<char>, Seq<char>>(line_type)
        } else {
            line_type == "null"@
        },
        if members.contains_key("payload"@) {
            json_text(members["payload"@]) == Ok::<Seq<char>, Seq<char>>(payload)
        } else {
            payload == "null"@
        },
    ensures
        row_item(raw) == Ok::<Seq<char>, Seq<char>>(
            "{\"type\":"@ + line_type + ",\"payload\":"@ + payload + "}"@,
        ),
{
}

/// A row that is no JSON, no object, or has no timestamp is refused, with the first of these as the
/// reason.
pub proof fn refused_rows(raw: Seq<char>)
    ensures
        parsed_json(raw) matches Err(message) ==> row_item(raw) == Err::<Seq<char>, Seq<char>>(
            message,
        ),
        parsed_json(raw) matches Ok(value) && !(json_shape(value) is Object) ==> row_item(raw)
            == Err::<Seq<char>, Seq<char>>("PostgreSQL rollout row is not a JSON object"@),
        parsed_json(raw) matches Ok(value) && json_shape(value) is Object && (forall|text: Seq<
            char,
        >|
            !#[trigger] has_string(value, "timestamp"@, text)) ==> row_item(raw) == Err::<
            Seq<char>,
            Seq<char>,
        >("PostgreSQL rollout row has no timestamp"@),
{
    if let Ok(value) = parsed_json(raw) {
        if let Some(text) = string_member(value, "timestamp"@) {
            assert(has_string(value, "timestamp"@, text));
        }
    }
}

/// A line's ordinal is the integer that is its member `ordinal`.
pub proof fn ordinal_is_the_lines_own(value: Value, ordinal: u64)
    ensures
        unsigned_member(value, "ordinal"@) == Some(ordinal) <==> (json_shape(
            value,
        ) matches JsonShape::Object(members) && members.contains_key("ordinal"@) && json_shape(
            members["ordinal"@],
        ) == JsonShape::Number(Some(ordinal))),
{
}

/// Reads the item of a stored rollout line.
pub fn rollout_item(raw: &str) -> (result: ThreadStoreResult<String>)
    ensures
        match (result, row_item(raw@)) {
            (Ok(item), Ok(expected)) => item@ == expected,
            (Err(error), Err(message)) => error@ == Failure::Internal(
                "failed to access thread history: "@ + message,
            ),
            _ => false,
        },
{
    match parse_postgres_rollout_line(raw) {
        Ok(line) => Ok(line.item_json),
        Err(error) => {
            let message = error.message();
            Err(thread_history_error(message.as_str()))
        },
    }
}

/// The rollout line that a row of the database holds as text.
pub open spec fn raw_line(row: Row) -> Option<Seq<char>> {
    if !row_cells(row).contains_key("raw_json"@) {
        None
    } else {
        match row_cells(row)["raw_json"@] {
            Cell::Text(raw) => Some(raw),
            _ => None,
        }
    }
}

/// The item of the rollout line that a row of the database holds.
pub open spec fn stored_item(row: Row) -> Option<Seq<char>> {
    match raw_line(row) {
        Some(raw) => match row_item(raw) {
            Ok(item) => Some(item),
            Err(_) => None,
        },
        None => None,
    }
}

/// Whether `message` says why a row of the database holds no rollout line.
pub open spec fn stored_message(row: Row, message: Seq<char>) -> bool {
    match raw_line(row) {
        Some(raw) => row_item(raw) == Err::<Seq<char>, Seq<char>>(message),
        None => exists|error: sqlx::Error| #[trigger] displays(&error, message),
    }
}

fn stored_rollout_item(row: &Row) -> (result: ThreadStoreResult<String>)
    ensures
        match result {
            Ok(item) => stored_item(*row) == Some(item@),
            Err(error) => stored_item(*row) is None && exists|message: Seq<char>| #[trigger]
                stored_message(*row, message) && error@ == Failure::Internal(
                    "failed to access thread history: "@ + message,
                ),
        },
{
    match try_get_text(row, "raw_json") {
        Ok(raw) => {
            assert(raw_line(*row) == Some(raw@));
            match rollout_item(raw.as_str()) {
                Ok(item) => Ok(item),
                Err(error) => {
                    assert(stored_message(*row, row_item(raw@)->Err_0));
                    Err(error)
                },
            }
        },
        Err(error) => {
            let failure = thread_history_error(&error);
            proof {
                let message = choose|message: Seq<char>| #[trigger]
                    displays(&error, message) && failure@ == Failure::Internal(
                        "failed to access thread history: "@ + message,
                    );
                assert(stored_message(*row, message));
            }
            Err(failure)
        },
    }
}

/// The items of a thread's rollout, as far as its rows could be read.
pub struct LoadedRollout {
    /// The items in order, as JSON text.
    pub items: Vec<String>,
    /// Why the row after these items could not be read.
    pub failure: Option<ThreadStoreError>,
}

/// Reads the items of a thread's rollout from its rows in order, up to the first row that holds no
/// rollout line.
pub fn load_rollout_items(rows: &Vec<Row>) -> (loaded: LoadedRollout)
    ensures
        loaded.items@.len() <= rows@.len(),
        forall|i: int|
            0 <= i < loaded.items@.len() ==> stored_item(rows@[i]) == Some(
                (#[trigger] loaded.items@[i])@,
            ),
        loaded.failure is None <==> forall|i: int|
            0 <= i < rows@.len() ==> stored_item(#[trigger] rows@[i]) is Some,
        match loaded.failure {
            None => loaded.items@.len() == rows@.len(),
            Some(error) => {
                &&& loaded.items@.len() < rows@.len()
                &&& stored_item(rows@[loaded.items@.len() as int]) is None
                &&& exists|message: Seq<char>| #[trigger]
                    stored_message(rows@[loaded.items@.len() as int], message) && error@
                        == Failure::Internal("failed to access thread history: "@ + message)
            },
        },
{
    let mut items: Vec<String> = Vec::new();
    while items.len() < rows.len()
        invariant
            items@.len() <= rows@.len(),
            forall|i: int|
                0 <= i < items@.len() ==> stored_item(rows@[i]) == Some((#[trigger] items@[i])@),
        decreases rows@.len() - items@.len(),
    {
        match stored_rollout_item(&rows[items.len()]) {
            Ok(item) => {
                items.push(item);
            },
            Err(error) => {
                return LoadedRollout { items, failure: Some(error) };
            },
        }
    }
    assert forall|i: int| 0 <= i < rows@.len() implies stored_item(#[trigger] rows@[i]) is Some by {
        assert(stored_item(rows@[i]) == Some(items@[i]@));
    }
    LoadedRollout { items, failure: None }
}

/// Reads the item of the row that holds a thread's session metadata, if there is such a row.
pub fn load_session_meta(row: &Option<Row>) -> (result: ThreadStoreResult<Option<String>>)
    ensures
        match (*row, result) {
            (None, Ok(item)) => item is None,
            (None, Err(_)) => false,
            (Some(row), Ok(item)) => item is Some && stored_item(row) == optional_text(item),
            (Some(row), Err(error)) => stored_item(row) is None && exists|message: Seq<char>|
             #[trigger]
                stored_message(row, message) && error@ == Failure::Internal(
                    "failed to access thread history: "@ + message,
                ),
        },
{
    match row {
        Some(row) => match stored_rollout_item(row) {
            Ok(item) => Ok(Some(item)),
            Err(error) => Err(error),
        },
        None => Ok(None),
    }
}

/// A decoded rollout item: session metadata of type `Meta`, or something else.
pub enum DecodedItem<Meta> {
    SessionMeta(Meta),
    Other,
}

/// The session metadata of a decoded item, which has to be one.
pub fn require_session_meta<Meta>(thread_id: &str, item: DecodedItem<Meta>) -> (result:
    ThreadStoreResult<Meta>)
    ensures
        match item {
            DecodedItem::SessionMeta(meta) => result == Ok::<Meta, ThreadStoreError>(meta),
            DecodedItem::Other => result is Err && result->Err_0@ == Failure::Internal(
                "thread "@ + thread_id@ + " has an invalid PostgreSQL session metadata row"@,
            ),
        },
{
    match item {
        DecodedItem::SessionMeta(meta) => Ok(meta),
        DecodedItem::Other => Err(
            internal(
                "thread ".to_owned().concat(thread_id).concat(
                    " has an invalid PostgreSQL session metadata row",
                ),
            ),
        ),
    }
}

/// The type that is read of a line is the string that is the line's own member `type`, and `unknown` if
/// there is no such string.
pub proof fn line_type_is_read(line: &Option<Value>, line_type: String, text: Seq<char>)
    requires
        call_ensures(rollout_line_type, (line,), line_type),
    ensures
        *line matches Some(value) && has_string(value, "type"@, text) ==> line_type@ == text,
        *line is None ==> line_type@ == "unknown"@,
        *line is Some ==> (forall|text: Seq<char>|
            !#[trigger] has_string((*line)->0, "type"@, text)) ==> line_type@ == "unknown"@,
{
    if let Some(value) = *line {
        if let Some(text) = string_member(value, "type"@) {
            assert(has_string(value, "type"@, text));
        }
    }
}

/// A rollout line that is read of a row has the row's timestamp and ordinal, and the item that the row
/// holds.
pub proof fn line_is_read_of_its_row(
    raw: &str,
    value: Value,
    result: Result<RolloutLine, RolloutLineError>,
)
    requires
        call_ensures(parse_postgres_rollout_line, (raw,), result),
        parsed_json(raw@) == Ok::<Value, Seq<char>>(value),
    ensures
        result is Ok <==> row_item(raw@) is Ok,
        result matches Ok(line) ==> {
            &&& has_string(value, "timestamp"@, line.timestamp@)
            &&& line.ordinal == unsigned_member(value, "ordinal"@)
            &&& row_item(raw@) == Ok::<Seq<char>, Seq<char>>(line.item_json@)
        },
{
}

/// Loading gives one item for each row in order if all rows hold rollout lines, and else those of the rows
/// before the first one that holds none.
pub proof fn loading_stops_at_the_first_bad_row(rows: &Vec<Row>, loaded: LoadedRollout, index: int)
    requires
        call_ensures(load_rollout_items, (rows,), loaded),
        0 <= index < rows@.len(),
        forall|i: int| 0 <= i < index ==> stored_item(#[trigger] rows@[i]) is Some,
    ensures
        stored_item(rows@[index]) is None ==> loaded.items@.len() == index && loaded.failure
            is Some,
        stored_item(rows@[index]) matches Some(item) ==> loaded.items@.len() > index
            && loaded.items@[index]@ == item,
{
    let count = loaded.items@.len() as int;
    if count < index {
        assert(stored_item(rows@[count]) is Some);
    }
    if count > index {
        assert(stored_item(rows@[index]) == Some(loaded.items@[index]@));
    }
}

/// The session metadata is the item of the row that is read, and there is none without a row.
pub proof fn session_metadata_is_the_item_of_its_row(
    row: &Option<Row>,
    result: ThreadStoreResult<Option<String>>,
)
    requires
        call_ensures(load_session_meta, (row,), result),
    ensures
        *row is None ==> (result matches Ok(item) && item is None),
        *row matches Some(found) ==> match stored_item(found) {
            Some(text) => result matches Ok(Some(item)) && item@ == text,
            None => result is Err,
        },
{
}

/// The row's text is read from its column `raw_json`.
pub proof fn rows_hold_their_line_as_text(row: Row, text: Seq<char>)
    ensures
        raw_line(row) == Some(text) <==> row_cells(row).contains_pair(
            "raw_json"@,
            Cell::Text(text),
        ),
        raw_line(row) == Some(text) ==> stored_item(row) == match row_item(text) {
            Ok(item) => Some(item),
            Err(_) => None,
        },
        raw_line(row) is None ==> stored_item(row) is None,
{
}

/// Reading a row is reading its fields and putting the line together from them.
pub proof fn rows_are_read_field_by_field(
    raw: &str,
    value: Value,
    fields: RolloutFields,
    from_fields: Result<RolloutLine, RolloutLineError>,
    result: Result<RolloutLine, RolloutLineError>,
)
    requires
        parsed_json(raw@) == Ok::<Value, Seq<char>>(value),
        call_ensures(rollout_fields, (&value,), fields),
        call_ensures(rollout_line_from_fields, (fields,), from_fields),
        call_ensures(parse_postgres_rollout_line, (raw,), result),
    ensures
        match (from_fields, result) {
            (Ok(line), Ok(other)) => {
                &&& line.timestamp@ == other.timestamp@
                &&& line.ordinal == other.ordinal
                &&& line.item_json@ == other.item_json@
            },
            (Err(error), Err(other)) => {
                &&& error is NotAnObject <==> other is NotAnObject
                &&& error is NoTimestamp <==> other is NoTimestamp
                &&& error is Json <==> other is Json
            },
            _ => false,
        },
{
}

/// A row that is no object is refused as such, an object without a timestamp for the lack of it, and any
/// other row that is refused for its JSON.
pub proof fn refused_rows_have_their_reason(
    raw: &str,
    result: Result<RolloutLine, RolloutLineError>,
)
    requires
        call_ensures(parse_postgres_rollout_line, (raw,), result),
    ensures
        result matches Err(RolloutLineError::NotAnObject) <==> (parsed_json(raw@) matches Ok(value)
            && !(json_shape(value) is Object)),
        result matches Err(RolloutLineError::NoTimestamp) <==> (parsed_json(raw@) matches Ok(value)
            && json_shape(value) is Object && string_member(value, "timestamp"@) is None),
{
}

/// Only an item that holds session metadata is taken as such.
pub proof fn only_session_metadata_is_taken<Meta>(
    thread_id: &str,
    meta: Meta,
    taken: ThreadStoreResult<Meta>,
    refused: ThreadStoreResult<Meta>,
)
    requires
        call_ensures(
            require_session_meta::<Meta>,
            (thread_id, DecodedItem::SessionMeta(meta)),
            taken,
        ),
        call_ensures(require_session_meta::<Meta>, (thread_id, DecodedItem::Other), refused),
    ensures
        taken matches Ok(found) && found == meta,
        refused matches Err(error) && error@ == Failure::Internal(
            "thread "@ + thread_id@ + " has an invalid PostgreSQL session metadata row"@,
        ),
{
}

/// The item of a stored row is given as it is, and a row that holds none is an error that says why.
pub proof fn items_are_read_or_said_why_not(raw: &str, result: ThreadStoreResult<String>)
    requires
        call_ensures(rollout_item, (raw,), result),
    ensures
        row_item(raw@) matches Ok(text) ==> (result matches Ok(item) && item@ == text),
        row_item(raw@) matches Err(message) ==> (result matches Err(error) && error@
            == Failure::Internal("failed to access thread history: "@ + message)),
{
}

/// What is said of a row that is no rollout line.
pub proof fn refused_rows_are_described(error: &RolloutLineError, message: String)
    requires
        call_ensures(RolloutLineError::message, (error,), message),
    ensures
        *error is NotAnObject ==> message@ == "PostgreSQL rollout row is not a JSON object"@,
        *error is NoTimestamp ==> message@ == "PostgreSQL rollout row has no timestamp"@,
        *error matches RolloutLineError::Json(inner) ==> displays(&inner, message@),
{
}

} // verus!
