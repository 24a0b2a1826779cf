//! Numbering of anonymous SQL parameters.
use crate::text::{characters, decimal, decimal_is_digits, push_decimal};
use vstd::prelude::*;

verus! {

/// What surrounds a position of an SQL text.
pub enum Quoting {
    Plain,
    Single,
    Double,
}

/// How one more character changes the quoting.
pub open spec fn quoting_after(quoting: Quoting, character: char) -> Quoting {
    match quoting {
        Quoting::Plain => if character == '\'' {
            Quoting::Single
        } else if character == '"' {
            Quoting::Double
        } else {
            Quoting::Plain
        },
        Quoting::Single => if character == '\'' {
            Quoting::Plain
        } else {
            Quoting::Single
        },
        Quoting::Double => if character == '"' {
            Quoting::Plain
        } else {
            Quoting::Double
        },
    }
}

/// The quoting at the end of `sql`.
pub open spec fn quoting(sql: Seq<char>) -> Quoting
    decreases sql.len(),
{
    if sql.len() == 0 {
        Quoting::Plain
    } else {
        quoting_after(quoting(sql.drop_last()), sql.last())
    }
}

/// The number of anonymous parameters in `sql`: question marks outside quotes.
pub open spec fn parameters(sql: Seq<char>) -> nat
    decreases sql.len(),
{
    if sql.len() == 0 {
        0
    } else if sql.last() == '?' && quoting(sql.drop_last()) is Plain {
        parameters(sql.drop_last()) + 1
    } else {
        parameters(sql.drop_last())
    }
}

/// `sql` with its n-th anonymous parameter written as `$n`.
pub open spec fn numbered(sql: Seq<char>) -> Seq<char>
    decreases sql.len(),
{
    if sql.len() == 0 {
        Seq::empty()
    } else if sql.last() == '?' && quoting(sql.drop_last()) is Plain {
        numbered(sql.drop_last()) + seq!['$'] + decimal(parameters(sql))
    } else {
        numbered(sql.drop_last()).push(sql.last())
    }
}

proof fn one_more(sql: Seq<char>, character: char)
    ensures
        sql.push(character).drop_last() == sql,
        quoting(sql.push(character)) == quoting_after(quoting(sql), character),
        character == '?' && quoting(sql) is Plain ==> {
            &&& parameters(sql.push(character)) == parameters(sql) + 1
            &&& numbered(sql.push(character)) == numbered(sql) + seq!['$'] + decimal(
                parameters(sql) + 1,
            )
        },
        !(character == '?' && quoting(sql) is Plain) ==> {
            &&& parameters(sql.push(character)) == parameters(sql)
            &&& numbered(sql.push(character)) == numbered(sql).push(character)
        },
{
    assert(sql.push(character).drop_last() =~= sql);
}

proof fn parameters_at_most_length(sql: Seq<char>)
    ensures
        parameters(sql) <= sql.len(),
    decreases sql.len(),
{
    if sql.len() > 0 {
        parameters_at_most_length(sql.drop_last());
    }
}

/// SQLite queries in the runtime use anonymous `?` parameters. PostgreSQL requires numbered
/// parameters, while SQLite accepts them, so `$N` is the common representation for both runtime
/// backends.
pub fn numbered_placeholders(sql: &str) -> (output: String)
    ensures
        output@ == numbered(sql@),
{
    let mut output = String::new();
    let mut index: u64 = 0;
    let mut single_quoted = false;
    let mut double_quoted = false;
    let characters = characters(sql);
    let mut position: usize = 0;
    while position < characters.len()
        invariant
            characters@ == sql@,
            position <= characters.len(),
            output@ == numbered(sql@.take(position as int)),
            index == parameters(sql@.take(position as int)),
            single_quoted == (quoting(sql@.take(position as int)) is Single),
            double_quoted == (quoting(sql@.take(position as int)) is Double),
        decreases characters.len() - position,
    {
        let character = characters[position];
        proof {
            one_more(sql@.take(position as int), character);
            assert(sql@.take(position as int).push(character) =~= sql@.take(position + 1));
            parameters_at_most_length(sql@.take(position as int));
        }
        if character == '\'' && !double_quoted {
            output.push(character);
            single_quoted = !single_quoted;
        } else if character == '"' && !single_quoted {
            output.push(character);
            double_quoted = !double_quoted;
        } else if character == '?' && !single_quoted && !double_quoted {
            index += 1;
            output.push('$');
            push_decimal(&mut output, index);
        } else {
            output.push(character);
        }
        position += 1;
    }
    assert(sql@.take(position as int) =~= sql@);
    output
}

proof fn inert_suffix(sql: Seq<char>, suffix: Seq<char>)
    requires
        forall|i: int|
            0 <= i < suffix.len() ==> #[trigger] suffix[i] != '\'' && suffix[i] != '"' && suffix[i]
                != '?',
    ensures
        quoting(sql + suffix) == quoting(sql),
        parameters(sql + suffix) == parameters(sql),
    decreases suffix.len(),
{
    if suffix.len() == 0 {
        assert(sql + suffix =~= sql);
    } else {
        inert_suffix(sql, suffix.drop_last());
        one_more(sql + suffix.drop_last(), suffix.last());
        assert((sql + suffix.drop_last()).push(suffix.last()) =~= sql + suffix);
    }
}

/// Numbering keeps every quote: at its end the numbered text is quoted as the original is.
pub proof fn numbering_keeps_quoting(sql: Seq<char>)
    ensures
        quoting(numbered(sql)) == quoting(sql),
{
    numbering_effect(sql);
}

/// A numbered text has no anonymous parameter left.
pub proof fn numbering_leaves_no_parameter(sql: Seq<char>)
    ensures
        parameters(numbered(sql)) == 0,
{
    numbering_effect(sql);
}

proof fn numbering_effect(sql: Seq<char>)
    ensures
        quoting(numbered(sql)) == quoting(sql),
        parameters(numbered(sql)) == 0,
    decreases sql.len(),
{
    if sql.len() > 0 {
        let before = sql.drop_last();
        numbering_effect(before);
        if sql.last() == '?' && quoting(before) is Plain {
            let mark = seq!['$'] + decimal(parameters(sql));
            decimal_is_digits(parameters(sql));
            assert forall|i: int| 0 <= i < mark.len() implies #[trigger] mark[i] != '\'' && mark[i]
                != '"' && mark[i] != '?' by {
                if i > 0 {
                    assert(mark[i] == decimal(parameters(sql))[i - 1]);
                }
            }
            inert_suffix(numbered(before), mark);
            assert(numbered(sql) =~= numbered(before) + mark);
        } else {
            one_more(numbered(before), sql.last());
        }
    }
}

/// A text without anonymous parameters is left as it is.
pub proof fn numbering_without_parameters(sql: Seq<char>)
    requires
        parameters(sql) == 0,
    ensures
        numbered(sql) == sql,
    decreases sql.len(),
{
    if sql.len() > 0 {
        numbering_without_parameters(sql.drop_last());
        assert(sql.drop_last().push(sql.last()) =~= sql);
    } else {
        assert(sql =~= Seq::<char>::empty());
    }
}

/// Numbering a text that was numbered before changes nothing.
pub proof fn numbering_twice(sql: Seq<char>)
    ensures
        numbered(numbered(sql)) == numbered(sql),
{
    numbering_leaves_no_parameter(sql);
    numbering_without_parameters(numbered(sql));
}

/// A doubled quote inside single quotes stands for the character: what follows is still quoted.
pub proof fn doubled_quote_stays_quoted(sql: Seq<char>)
    requires
        quoting(sql) is Single,
    ensures
        quoting(sql.push('\'').push('\'')) is Single,
        numbered(sql.push('\'').push('\'')) == numbered(sql).push('\'').push('\''),
{
    one_more(sql, '\'');
    one_more(sql.push('\''), '\'');
}

/// A piece of an SQL text.
pub enum SqlPiece {
    /// A character that is neither a quote nor a question mark.
    Plain(char),
    /// A text between single quotes, without a single quote in it.
    SingleQuoted(Seq<char>),
    /// A text between double quotes, without a double quote in it.
    DoubleQuoted(Seq<char>),
    /// An anonymous parameter.
    Parameter,
}

impl SqlPiece {
    pub open spec fn well_formed(self) -> bool {
        match self {
            SqlPiece::Plain(character) => character != '\'' && character != '"' && character != '?',
            SqlPiece::SingleQuoted(text) => !text.contains('\''),
            SqlPiece::DoubleQuoted(text) => !text.contains('"'),
            SqlPiece::Parameter => true,
        }
    }
}

/// How many parameters there are among pieces.
pub open spec fn parameter_count(pieces: Seq<SqlPiece>) -> nat {
    pieces.filter(|piece: SqlPiece| piece is Parameter).len()
}

/// The SQL text of pieces, in which a parameter is written as a question mark, or else as a dollar sign
/// and its number among the parameters.
pub open spec fn sql_text(pieces: Seq<SqlPiece>, with_numbers: bool) -> Seq<char>
    decreases pieces.len(),
{
    if pieces.len() == 0 {
        Seq::empty()
    } else {
        sql_text(pieces.drop_last(), with_numbers) + match pieces.last() {
            SqlPiece::Plain(character) => seq![character],
            SqlPiece::SingleQuoted(text) => seq!['\''] + text + seq!['\''],
            SqlPiece::DoubleQuoted(text) => seq!['"'] + text + seq!['"'],
            SqlPiece::Parameter => if with_numbers {
                seq!['$'] + decimal(parameter_count(pieces))
            } else {
                seq!['?']
            },
        }
    }
}

proof fn quoted_text_is_kept(sql: Seq<char>, text: Seq<char>, mark: char)
    requires
        quoting(sql) is Plain,
        mark == '\'' || mark == '"',
        !text.contains(mark),
    ensures
        quoting(sql.push(mark) + text) == if mark == '"' {
            Quoting::Double
        } else {
            Quoting::Single
        },
        parameters(sql.push(mark) + text) == parameters(sql),
        numbered(sql.push(mark) + text) == numbered(sql).push(mark) + text,
    decreases text.len(),
{
    one_more(sql, mark);
    if text.len() == 0 {
        assert(sql.push(mark) + text =~= sql.push(mark));
        assert(numbered(sql).push(mark) + text =~= numbered(sql).push(mark));
    } else {
        let start = text.drop_last();
        assert forall|i: int| 0 <= i < start.len() implies start[i] != mark by {
            assert(start[i] == text[i]);
        }
        quoted_text_is_kept(sql, start, mark);
        assert(text.contains(text.last()));
        one_more(sql.push(mark) + start, text.last());
        assert((sql.push(mark) + start).push(text.last()) =~= sql.push(mark) + text);
        assert((numbered(sql).push(mark) + start).push(text.last()) =~= numbered(sql).push(mark)
            + text);
    }
}

proof fn quoted_piece_is_kept(sql: Seq<char>, text: Seq<char>, mark: char)
    requires
        quoting(sql) is Plain,
        mark == '\'' || mark == '"',
        !text.contains(mark),
    ensures
        ({
            let piece = seq![mark] + text + seq![mark];
            &&& quoting(sql + piece) is Plain
            &&& parameters(sql + piece) == parameters(sql)
            &&& numbered(sql + piece) == numbered(sql) + piece
        }),
{
    let piece = seq![mark] + text + seq![mark];
    quoted_text_is_kept(sql, text, mark);
    one_more(sql.push(mark) + text, mark);
    assert((sql.push(mark) + text).push(mark) =~= sql + piece);
    assert((numbered(sql).push(mark) + text).push(mark) =~= numbered(sql) + piece);
}

/// Numbering writes the n-th question mark outside quotes as `$n` and keeps everything else, the
/// question marks in quoted text too.
pub proof fn numbering_replaces_parameters(pieces: Seq<SqlPiece>)
    requires
        forall|i: int| 0 <= i < pieces.len() ==> (#[trigger] pieces[i]).well_formed(),
    ensures
        numbered(sql_text(pieces, false)) == sql_text(pieces, true),
        parameters(sql_text(pieces, false)) == parameter_count(pieces),
        quoting(sql_text(pieces, false)) is Plain,
    decreases pieces.len(),
{
    reveal(Seq::filter);
    if pieces.len() > 0 {
        let before = pieces.drop_last();
        assert forall|i: int| 0 <= i < before.len() implies (#[trigger] before[i]).well_formed() by {
            assert(before[i] == pieces[i]);
        }
        numbering_replaces_parameters(before);
        let sql = sql_text(before, false);
        assert(pieces[pieces.len() - 1].well_formed());
        match pieces.last() {
            SqlPiece::Plain(character) => {
                one_more(sql, character);
                assert(sql + seq![character] =~= sql.push(character));
                assert(numbered(sql) + seq![character] =~= numbered(sql).push(character));
            },
            SqlPiece::SingleQuoted(text) => quoted_piece_is_kept(sql, text, '\''),
            SqlPiece::DoubleQuoted(text) => quoted_piece_is_kept(sql, text, '"'),
            SqlPiece::Parameter => {
                one_more(sql, '?');
                assert(sql + seq!['?'] =~= sql.push('?'));
                assert(numbered(sql) + (seq!['$'] + decimal(parameter_count(pieces)))
                    =~= numbered(sql) + seq!['$'] + decimal(parameter_count(pieces)));
            },
        }
    }
}

} // verus!
