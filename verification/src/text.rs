//! Text that SQL statements and messages are put together from.
use vstd::prelude::*;

verus! {

/// `String::push` appends the given character to the end of the string.
pub assume_specification[ String::push ](text: &mut String, character: char)
    ensures
        final(text)@ == old(text)@.push(character),
;

/// The character of a decimal digit.
pub open spec fn digit(value: nat) -> char
    recommends
        value < 10,
{
    (48 + value) as char
}

/// The decimal notation of a natural number, without leading zeros.
pub open spec fn decimal(value: nat) -> Seq<char>
    decreases value,
{
    if value < 10 {
        seq![digit(value)]
    } else {
        decimal(value / 10).push(digit(value % 10))
    }
}

/// The decimal notation of an integer, with a leading minus sign below zero.
pub open spec fn signed_decimal(value: int) -> Seq<char> {
    if value < 0 {
        seq!['-'] + decimal((-value) as nat)
    } else {
        decimal(value as nat)
    }
}

/// Every character of a decimal notation is a digit.
pub proof fn decimal_is_digits(value: nat)
    ensures
        decimal(value).len() > 0,
        forall|i: int| 0 <= i < decimal(value).len() ==> '0' <= #[trigger] decimal(value)[i] <= '9',
    decreases value,
{
    if value >= 10 {
        decimal_is_digits(value / 10);
    }
}

fn digit_char(value: u64) -> (character: char)
    requires
        value < 10,
    ensures
        character == digit(value as nat),
{
    (48u8 + value as u8) as char
}

/// Appends the decimal notation of `value`.
pub fn push_decimal(text: &mut String, value: u64)
    ensures
        final(text)@ == old(text)@ + decimal(value as nat),
    decreases value,
{
    if value >= 10 {
        push_decimal(text, value / 10);
    }
    text.push(digit_char(value % 10));
    assert(text@ =~= old(text)@ + decimal(value as nat));
}

/// Appends the decimal notation of `value`, with a minus sign below zero.
pub fn push_signed_decimal(text: &mut String, value: i64)
    ensures
        final(text)@ == old(text)@ + signed_decimal(value as int),
{
    if value < 0 {
        text.push('-');
        let magnitude: u64 = (-(value as i128)) as u64;
        push_decimal(text, magnitude);
        assert(text@ =~= old(text)@ + signed_decimal(value as int));
    } else {
        push_decimal(text, value as u64);
    }
}

/// The parts in order, with `separator` between neighbours.
pub open spec fn joined(parts: Seq<Seq<char>>, separator: Seq<char>) -> Seq<char>
    decreases parts.len(),
{
    if parts.len() == 0 {
        Seq::empty()
    } else if parts.len() == 1 {
        parts[0]
    } else {
        joined(parts.drop_last(), separator) + separator + parts.last()
    }
}

/// Joining two lists that are not empty joins what each of them joins to.
pub proof fn joined_parts(first: Seq<Seq<char>>, second: Seq<Seq<char>>, separator: Seq<char>)
    requires
        first.len() > 0,
        second.len() > 0,
    ensures
        joined(first + second, separator) == joined(first, separator) + separator + joined(
            second,
            separator,
        ),
    decreases second.len(),
{
    let both = first + second;
    if second.len() == 1 {
        assert(both.drop_last() =~= first);
    } else {
        assert(both.drop_last() =~= first + second.drop_last());
        joined_parts(first, second.drop_last(), separator);
    }
    assert(joined(both, separator) =~= joined(first, separator) + separator + joined(
        second,
        separator,
    ));
}

/// The texts that a list of strings holds.
pub open spec fn texts(parts: Seq<String>) -> Seq<Seq<char>> {
    parts.map_values(|part: String| part@)
}

/// Joins `parts` with `separator` between neighbours.
pub fn join(parts: &Vec<String>, separator: &str) -> (text: String)
    ensures
        text@ == joined(texts(parts@), separator@),
{
    let mut text = String::new();
    let mut index: usize = 0;
    while index < parts.len()
        invariant
            index <= parts.len(),
            text@ == joined(texts(parts@).take(index as int), separator@),
        decreases parts.len() - index,
    {
        if index > 0 {
            text.append(separator);
        }
        text.append(parts[index].as_str());
        index += 1;
        proof {
            let taken = texts(parts@).take(index as int);
            assert(taken.drop_last() =~= texts(parts@).take(index - 1));
            assert(taken.last() == parts[index - 1]@);
            if index == 1 {
                assert(text@ =~= taken[0]);
            }
        }
    }
    assert(texts(parts@).take(index as int) =~= texts(parts@));
    text
}

/// The characters of `text`.
pub fn characters(text: &str) -> (list: Vec<char>)
    ensures
        list@ == text@,
{
    let mut list: Vec<char> = Vec::new();
    for character in walk: text.chars()
        invariant
            walk.seq() == text@,
            list@ == text@.take(walk.index() as int),
    {
        list.push(character);
        assert(list@ =~= text@.take(walk.index() + 1));
    }
    assert(text@.take(text@.len() as int) =~= text@);
    list
}

/// Whether two strings hold the same text.
pub fn same_text(left: &str, right: &str) -> (same: bool)
    ensures
        same == (left@ == right@),
{
    left.to_owned() == right.to_owned()
}

/// What follows the first occurrence of `marker` in `text`.
pub open spec fn suffix_after(text: Seq<char>, marker: Seq<char>) -> Option<Seq<char>>
    decreases text.len(),
{
    if text.len() < marker.len() {
        None
    } else if text.take(marker.len() as int) == marker {
        Some(text.skip(marker.len() as int))
    } else if text.len() == 0 {
        None
    } else {
        suffix_after(text.skip(1), marker)
    }
}

fn occurs_at(text: &Vec<char>, marker: &Vec<char>, start: usize) -> (occurs: bool)
    requires
        start + marker@.len() <= text@.len(),
    ensures
        occurs == (text@.skip(start as int).take(marker@.len() as int) == marker@),
{
    let ghost found = text@.skip(start as int).take(marker@.len() as int);
    let mut index: usize = 0;
    while index < marker.len()
        invariant
            index <= marker@.len(),
            start + marker@.len() <= text@.len(),
            found == text@.skip(start as int).take(marker@.len() as int),
            forall|i: int| 0 <= i < index ==> found[i] == marker@[i],
        decreases marker@.len() - index,
    {
        assert(start + index < text.len());
        if text[start + index] != marker[index] {
            assert(found[index as int] != marker@[index as int]);
            return false;
        }
        index += 1;
    }
    assert(found =~= marker@);
    true
}

fn text_from(characters: &Vec<char>, start: usize) -> (text: String)
    requires
        start <= characters@.len(),
    ensures
        text@ == characters@.skip(start as int),
{
    let mut text = String::new();
    let mut index = start;
    while index < characters.len()
        invariant
            start <= index <= characters@.len(),
            text@ == characters@.subrange(start as int, index as int),
        decreases characters@.len() - index,
    {
        text.push(characters[index]);
        index += 1;
        assert(text@ =~= characters@.subrange(start as int, index as int));
    }
    assert(text@ =~= characters@.skip(start as int));
    text
}

/// Finds what follows the first occurrence of `marker` in `text`.
pub fn find_suffix(text: &str, marker: &str) -> (suffix: Option<String>)
    ensures
        match (suffix, suffix_after(text@, marker@)) {
            (Some(suffix), Some(expected)) => suffix@ == expected,
            (None, None) => true,
            _ => false,
        },
{
    let text_characters = characters(text);
    let marker_characters = characters(marker);
    let mut start: usize = 0;
    assert(text@.skip(0) =~= text@);
    while marker_characters.len() <= text_characters.len() - start
        invariant
            text_characters@ == text@,
            marker_characters@ == marker@,
            start <= text@.len(),
            suffix_after(text@, marker@) == suffix_after(text@.skip(start as int), marker@),
        decreases text@.len() - start,
    {
        if occurs_at(&text_characters, &marker_characters, start) {
            let rest = start + marker_characters.len();
            assert(text@.skip(start as int).skip(marker@.len() as int) =~= text@.skip(rest as int));
            return Some(text_from(&text_characters, rest));
        }
        if start == text_characters.len() {
            return None;
        }
        assert(text@.skip(start as int).skip(1) =~= text@.skip(start + 1));
        start += 1;
    }
    None
}

/// The number that a decimal notation stands for.
pub open spec fn value_of(digits: Seq<char>) -> int
    decreases digits.len(),
{
    if digits.len() == 0 {
        0
    } else {
        10 * value_of(digits.drop_last()) + (digits.last() as int - '0' as int)
    }
}

/// A decimal notation stands for the number that it was made from, and has no leading zero.
pub proof fn decimal_has_its_value(value: nat)
    ensures
        value_of(decimal(value)) == value,
        decimal(value)[0] == '0' ==> value == 0,
        value == 0 ==> decimal(value) == seq!['0'],
    decreases value,
{
    if value < 10 {
        assert(decimal(value).drop_last() =~= Seq::empty());
        assert(value_of(decimal(value).drop_last()) == 0);
    } else {
        decimal_has_its_value(value / 10);
        decimal_is_digits(value / 10);
        assert(decimal(value).drop_last() =~= decimal(value / 10));
        assert(decimal(value)[0] == decimal(value / 10)[0]);
    }
}

/// The notation of a number below zero is a minus sign and the notation of its magnitude; any other
/// number is written without a sign.
pub proof fn signed_decimal_has_its_value(value: int)
    ensures
        value >= 0 ==> value_of(signed_decimal(value)) == value && '0' <= signed_decimal(value)[0]
            <= '9',
        value < 0 ==> signed_decimal(value)[0] == '-' && value_of(signed_decimal(value).skip(1))
            == -value,
{
    if value < 0 {
        decimal_has_its_value((-value) as nat);
        assert(signed_decimal(value).skip(1) =~= decimal((-value) as nat));
    } else {
        decimal_has_its_value(value as nat);
        decimal_is_digits(value as nat);
    }
}

/// A list of no parts joins to nothing, and a list of one part to this part.
pub proof fn joined_few(part: Seq<char>, separator: Seq<char>)
    ensures
        joined(Seq::empty(), separator) == Seq::<char>::empty(),
        joined(seq![part], separator) == part,
{
}

/// Whether `marker` occurs in `text` at a position.
pub open spec fn occurs(text: Seq<char>, marker: Seq<char>, position: int) -> bool {
    &&& 0 <= position
    &&& position + marker.len() <= text.len()
    &&& text.subrange(position, position + marker.len()) == marker
}

/// What follows a marker follows its first occurrence.
pub proof fn suffix_follows_the_first_occurrence(
    text: Seq<char>,
    marker: Seq<char>,
    position: int,
)
    requires
        occurs(text, marker, position),
        forall|earlier: int| 0 <= earlier < position ==> !#[trigger] occurs(text, marker, earlier),
    ensures
        suffix_after(text, marker) == Some(text.skip(position + marker.len())),
    decreases position,
{
    assert(text.take(marker.len() as int) =~= text.subrange(0, marker.len() as int));
    if position > 0 {
        assert(!occurs(text, marker, 0));
        let rest = text.skip(1);
        assert(rest.subrange(position - 1, position - 1 + marker.len()) =~= text.subrange(
            position,
            position + marker.len(),
        ));
        assert forall|earlier: int| 0 <= earlier < position - 1 implies !#[trigger] occurs(
            rest,
            marker,
            earlier,
        ) by {
            assert(!occurs(text, marker, earlier + 1));
            assert(rest.subrange(earlier, earlier + marker.len()) =~= text.subrange(
                earlier + 1,
                earlier + 1 + marker.len(),
            ));
        }
        suffix_follows_the_first_occurrence(rest, marker, position - 1);
        assert(rest.skip(position - 1 + marker.len()) =~= text.skip(position + marker.len()));
    }
}

/// Nothing follows a marker that does not occur.
pub proof fn suffix_needs_an_occurrence(text: Seq<char>, marker: Seq<char>)
    requires
        forall|position: int| !#[trigger] occurs(text, marker, position),
    ensures
        suffix_after(text, marker) is None,
    decreases text.len(),
{
    if text.len() >= marker.len() {
        assert(!occurs(text, marker, 0));
        assert(text.take(marker.len() as int) =~= text.subrange(0, marker.len() as int));
        if text.len() > 0 {
            let rest = text.skip(1);
            assert forall|position: int| !#[trigger] occurs(rest, marker, position) by {
                if occurs(rest, marker, position) {
                    assert(rest.subrange(position, position + marker.len()) =~= text.subrange(
                        position + 1,
                        position + 1 + marker.len(),
                    ));
                    assert(occurs(text, marker, position + 1));
                }
            }
            suffix_needs_an_occurrence(rest, marker);
        }
    }
}

/// What is found after a marker follows its first occurrence, and nothing is found without one.
pub proof fn suffixes_are_found(
    text: &str,
    marker: &str,
    suffix: Option<String>,
    position: int,
)
    requires
        call_ensures(find_suffix, (text, marker), suffix),
    ensures
        occurs(text@, marker@, position) && (forall|earlier: int|
            0 <= earlier < position ==> !#[trigger] occurs(text@, marker@, earlier)) ==> (
        suffix matches Some(found) && found@ == text@.skip(position + marker@.len())),
        (forall|any: int| !#[trigger] occurs(text@, marker@, any)) ==> suffix is None,
{
    if occurs(text@, marker@, position) && (forall|earlier: int|
        0 <= earlier < position ==> !#[trigger] occurs(text@, marker@, earlier)) {
        suffix_follows_the_first_occurrence(text@, marker@, position);
    }
    if forall|any: int| !#[trigger] occurs(text@, marker@, any) {
        suffix_needs_an_occurrence(text@, marker@);
    }
}

/// The texts of a list of strings are those of the strings.
pub proof fn texts_are_those_of_the_strings(parts: Seq<String>, index: int)
    requires
        0 <= index < parts.len(),
    ensures
        texts(parts).len() == parts.len(),
        texts(parts)[index] == parts[index]@,
{
}

} // verus!
