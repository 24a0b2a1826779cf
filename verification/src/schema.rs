//! Names of PostgreSQL schemas and tables.
use crate::text::characters;
use vstd::prelude::*;

verus! {

/// Why a schema name was refused.
#[derive(Debug)]
pub enum SchemaNameError {
    /// The name has no characters.
    Empty,
    /// The name holds something else than ASCII letters, digits and underscores, or starts with a
    /// digit.
    Invalid(String),
}

/// A letter of the ASCII alphabet, in either case.
pub open spec fn is_letter(character: char) -> bool {
    'a' <= character <= 'z' || 'A' <= character <= 'Z'
}

/// A decimal digit.
pub open spec fn is_digit(character: char) -> bool {
    '0' <= character <= '9'
}

/// What a schema name may start with.
pub open spec fn may_start(character: char) -> bool {
    character == '_' || is_letter(character)
}

/// What a schema name may go on with.
pub open spec fn may_continue(character: char) -> bool {
    may_start(character) || is_digit(character)
}

/// A name that needs no escaping between double quotes.
pub open spec fn is_identifier(name: Seq<char>) -> bool {
    &&& name.len() > 0
    &&& may_start(name[0])
    &&& forall|i: int| 1 <= i < name.len() ==> may_continue(#[trigger] name[i])
}

/// The name of a table in a schema, both quoted.
pub open spec fn table_text(schema: Seq<char>, name: Seq<char>) -> Seq<char> {
    "\""@ + schema + "\".\""@ + name + "\""@
}

/// The message of a refused schema name.
pub open spec fn schema_name_message(error: SchemaNameError) -> Seq<char> {
    match error {
        SchemaNameError::Empty => "PostgreSQL schema name cannot be empty"@,
        SchemaNameError::Invalid(name) => "invalid PostgreSQL schema name `"@ + name@ + "`"@,
    }
}

impl SchemaNameError {
    /// What to tell the user.
    pub fn message(&self) -> (message: String)
        ensures
            message@ == schema_name_message(*self),
    {
        match self {
            SchemaNameError::Empty => "PostgreSQL schema name cannot be empty".to_owned(),
            SchemaNameError::Invalid(name) => "invalid PostgreSQL schema name `".to_owned().concat(
                name.as_str(),
            ).concat("`"),
        }
    }
}

fn letter(character: char) -> (is: bool)
    ensures
        is == is_letter(character),
{
    ('a' <= character && character <= 'z') || ('A' <= character && character <= 'Z')
}

/// Accepts the names that can stand between double quotes without escaping.
pub fn validate_identifier(value: &str) -> (result: Result<(), SchemaNameError>)
    ensures
        result is Ok <==> is_identifier(value@),
        result matches Err(SchemaNameError::Empty) <==> value@.len() == 0,
        result matches Err(SchemaNameError::Invalid(name)) <==> value@.len() > 0 && !is_identifier(
            value@,
        ),
        result matches Err(SchemaNameError::Invalid(name)) ==> name@ == value@,
{
    let characters = characters(value);
    if characters.len() == 0 {
        return Err(SchemaNameError::Empty);
    }
    let first = characters[0];
    let mut valid = first == '_' || letter(first);
    let mut index: usize = 1;
    while valid && index < characters.len()
        invariant
            characters@ == value@,
            1 <= index <= characters.len(),
            valid ==> may_start(value@[0]) && forall|i: int|
                1 <= i < index ==> may_continue(#[trigger] value@[i]),
            !valid ==> !is_identifier(value@),
        decreases characters.len() - index,
    {
        let character = characters[index];
        valid = character == '_' || letter(character) || ('0' <= character && character <= '9');
        index += 1;
    }
    if valid {
        Ok(())
    } else {
        Err(SchemaNameError::Invalid(value.to_owned()))
    }
}

/// The name of a table in a schema, both quoted.
pub fn table(schema: &str, name: &str) -> (text: String)
    ensures
        text@ == table_text(schema@, name@),
{
    "\"".to_owned().concat(schema).concat("\".\"").concat(name).concat("\"")
}

/// An accepted schema name holds no double quote, so it cannot end its own quoting.
pub proof fn identifier_has_no_quote(name: Seq<char>)
    requires
        is_identifier(name),
    ensures
        !name.contains('"'),
{
}

/// With accepted schema names, different tables have different quoted names.
pub proof fn table_text_is_injective(
    schema: Seq<char>,
    name: Seq<char>,
    other_schema: Seq<char>,
    other_name: Seq<char>,
)
    requires
        is_identifier(schema),
        is_identifier(other_schema),
        table_text(schema, name) == table_text(other_schema, other_name),
    ensures
        schema == other_schema,
        name == other_name,
{
    reveal_strlit("\"");
    reveal_strlit("\".\"");
    let left = table_text(schema, name);
    let right = table_text(other_schema, other_name);
    if schema.len() < other_schema.len() {
        assert(left[1 + schema.len() as int] == '"');
        assert(right[1 + schema.len() as int] == other_schema[schema.len() as int]);
        assert(other_schema.contains(other_schema[schema.len() as int]));
    }
    if other_schema.len() < schema.len() {
        assert(right[1 + other_schema.len() as int] == '"');
        assert(left[1 + other_schema.len() as int] == schema[other_schema.len() as int]);
        assert(schema.contains(schema[other_schema.len() as int]));
    }
    assert(left.len() == right.len());
    assert forall|i: int| 0 <= i < schema.len() implies schema[i] == other_schema[i] by {
        assert(left[1 + i] == schema[i]);
        assert(right[1 + i] == other_schema[i]);
    }
    assert(schema =~= other_schema);
    let start = 4 + schema.len() as int;
    assert(left.subrange(start, left.len() - 1) =~= name);
    assert(right.subrange(start, right.len() - 1) =~= other_name);
}

/// A name is accepted exactly if it is not empty, does not start with a digit, and holds nothing but ASCII
/// letters, digits and underscores. Each of the other names is refused with the name itself.
pub proof fn accepted_names(value: &str, result: Result<(), SchemaNameError>)
    requires
        call_ensures(validate_identifier, (value,), result),
    ensures
        result is Ok <==> {
            &&& value@.len() > 0
            &&& !('0' <= value@[0] <= '9')
            &&& forall|i: int|
                0 <= i < value@.len() ==> {
                    let character = #[trigger] value@[i];
                    'a' <= character <= 'z' || 'A' <= character <= 'Z' || '0' <= character <= '9'
                        || character == '_'
                }
        },
        result matches Err(error) ==> schema_name_message(error) == if value@.len() == 0 {
            "PostgreSQL schema name cannot be empty"@
        } else {
            "invalid PostgreSQL schema name `"@ + value@ + "`"@
        },
{
    if is_identifier(value@) {
        assert forall|i: int| 0 <= i < value@.len() implies {
            let character = #[trigger] value@[i];
            'a' <= character <= 'z' || 'A' <= character <= 'Z' || '0' <= character <= '9'
                || character == '_'
        } by {
            if i > 0 {
                assert(may_continue(value@[i]));
            }
        }
    }
}

/// The name of a table is that of its schema and its own, each between double quotes, with a dot between
/// them.
pub proof fn parts_of_table_name(schema: &str, name: &str, text: String)
    requires
        call_ensures(table, (schema, name), text),
    ensures
        text@ == seq!['"'] + schema@ + seq!['"', '.', '"'] + name@ + seq!['"'],
{
    reveal_strlit("\"");
    reveal_strlit("\".\"");
    assert("\""@ =~= seq!['"']);
    assert("\".\""@ =~= seq!['"', '.', '"']);
}

} // verus!
