//! What holds of the grammar for every line.
use crate::grammar::{
    conforms, digits_end, explicit_preposition, fraction_end, fraction_start, has_unit,
    inferred_preposition, integer_end, is_digit, is_separator, name_of, name_start, next_space,
    parse_spec, preposition_start, unit_end, unit_of, unit_start, IngredientView,
};
use crate::ingredient_parser::ParsingError;
use vstd::prelude::*;

verus! {

/// A run of digits ends inside the line, holds digits only, and cannot be
/// made longer.
pub proof fn digits_end_is_maximal(line: Seq<char>, from: int)
    requires
        0 <= from <= line.len(),
    ensures
        from <= digits_end(line, from) <= line.len(),
        forall|i: int| from <= i < digits_end(line, from) ==> is_digit(#[trigger] line[i]),
        digits_end(line, from) < line.len() ==> !is_digit(line[digits_end(line, from)]),
    decreases line.len() - from,
{
    if from < line.len() && is_digit(line[from]) {
        digits_end_is_maximal(line, from + 1);
    }
}

/// The first space at or after a position lies inside the line or at its
/// end, and no space stands before it.
pub proof fn next_space_is_first(line: Seq<char>, from: int)
    requires
        0 <= from <= line.len(),
    ensures
        from <= next_space(line, from) <= line.len(),
        forall|i: int| from <= i < next_space(line, from) ==> #[trigger] line[i] != ' ',
        next_space(line, from) < line.len() ==> line[next_space(line, from)] == ' ',
    decreases line.len() - from,
{
    if from < line.len() && line[from] != ' ' {
        next_space_is_first(line, from + 1);
    }
}

/// The boundaries of the grammar follow one another inside the line.
pub proof fn boundaries_are_ordered(line: Seq<char>)
    ensures
        0 <= integer_end(line) <= fraction_start(line) <= fraction_end(line) <= unit_start(line)
            <= unit_end(line) <= line.len(),
        unit_start(line) <= preposition_start(line) <= name_start(line) <= line.len(),
        has_unit(line) ==> unit_end(line) < preposition_start(line),
        conforms(line) ==> 0 < integer_end(line),
{
    digits_end_is_maximal(line, 0);
    digits_end_is_maximal(line, fraction_start(line));
    next_space_is_first(line, unit_start(line));
}

/// Every ingredient that a line parses to is well formed, and no line
/// fails for its quantity: the digits that the grammar reads always make a
/// decimal number.
pub proof fn parsed_ingredient_is_well_formed(line: Seq<char>)
    ensures
        parse_spec(line) matches Ok(ingredient) ==> ingredient.well_formed(),
        parse_spec(line) != Err::<IngredientView, ParsingError>(ParsingError::InvalidQuantity),
{
    if parse_spec(line) is Ok {
        boundaries_are_ordered(line);
        digits_end_is_maximal(line, 0);
        digits_end_is_maximal(line, fraction_start(line));
    }
}

/// A line without any digit does not match.
pub proof fn line_without_digit_does_not_match(line: Seq<char>)
    requires
        forall|i: int| 0 <= i < line.len() ==> !is_digit(#[trigger] line[i]),
    ensures
        parse_spec(line) == Err::<IngredientView, ParsingError>(ParsingError::NoMatch),
{
}

/// A line that matches the grammar and leaves nothing for the name fails
/// for its missing name, and only such a line does.
pub proof fn missing_name_exactly_when_nothing_is_left(line: Seq<char>)
    ensures
        parse_spec(line) == Err::<IngredientView, ParsingError>(ParsingError::MissingName) <==> (
        conforms(line) && name_start(line) == line.len()),
{
    boundaries_are_ordered(line);
}

/// Without a unit an ingredient has no preposition, whatever its name
/// starts with and whatever preposition the line holds.
pub proof fn no_unit_no_preposition(line: Seq<char>)
    ensures
        parse_spec(line) matches Ok(ingredient) ==> (ingredient.unit.len() == 0
            ==> ingredient.preposition.len() == 0),
{
}

/// With a unit, a preposition written in the line is the ingredient's
/// preposition, whatever the name starts with.
pub proof fn explicit_preposition_wins(line: Seq<char>)
    ensures
        parse_spec(line) matches Ok(ingredient) ==> (ingredient.unit.len() > 0 ==> (
        explicit_preposition(line) matches Some(token) ==> ingredient.preposition == token)),
{
}

/// With a unit and no preposition in the line, the preposition goes by the
/// first letter of the name: `d'` before a vowel or an `h`, `de ` before
/// anything else.
pub proof fn missing_preposition_is_inferred(line: Seq<char>)
    ensures
        parse_spec(line) matches Ok(ingredient) ==> (ingredient.unit.len() > 0
            && explicit_preposition(line) is None ==> ingredient.preposition
            == inferred_preposition(ingredient.name)),
{
}

/// Two lines of one length agree on where a run of digits ends when they
/// hold digits at the same positions.
proof fn digits_end_agrees(a: Seq<char>, b: Seq<char>, from: int)
    requires
        a.len() == b.len(),
        forall|i: int| 0 <= i < a.len() ==> is_digit(#[trigger] a[i]) == is_digit(b[i]),
    ensures
        digits_end(a, from) == digits_end(b, from),
    decreases a.len() - from,
{
    if 0 <= from < a.len() && is_digit(a[from]) {
        digits_end_agrees(a, b, from + 1);
    }
}

/// Two lines of one length agree on where the next space is when they hold
/// spaces at the same positions.
proof fn next_space_agrees(a: Seq<char>, b: Seq<char>, from: int)
    requires
        a.len() == b.len(),
        forall|i: int| 0 <= i < a.len() ==> (#[trigger] a[i] == ' ') == (b[i] == ' '),
    ensures
        next_space(a, from) == next_space(b, from),
    decreases a.len() - from,
{
    if 0 <= from < a.len() && a[from] != ' ' {
        next_space_agrees(a, b, from + 1);
    }
}

/// The separator between the integer digits and the fraction digits may be
/// a point or a comma: two lines that differ in nothing else parse to the
/// same result.
pub proof fn separator_does_not_matter(line: Seq<char>, other: Seq<char>)
    requires
        line.len() == other.len(),
        0 <= integer_end(line) < line.len(),
        is_separator(line[integer_end(line)]),
        is_separator(other[integer_end(line)]),
        forall|i: int|
            0 <= i < line.len() && i != integer_end(line) ==> #[trigger] line[i] == other[i],
    ensures
        parse_spec(line) == parse_spec(other),
{
    let at = integer_end(line);
    digits_end_agrees(line, other, 0);
    digits_end_agrees(line, other, at + 1);
    boundaries_are_ordered(line);
    boundaries_are_ordered(other);
    next_space_agrees(line, other, unit_start(line));
    let start = preposition_start(line);
    assert(line.subrange(0, at) =~= other.subrange(0, at));
    assert(line.subrange(at + 1, fraction_end(line)) =~= other.subrange(
        at + 1,
        fraction_end(line),
    ));
    assert(unit_of(line) =~= unit_of(other));
    if start + 3 <= line.len() {
        assert(line.subrange(start, start + 3) =~= other.subrange(start, start + 3));
    }
    if start + 2 <= line.len() {
        assert(line.subrange(start, start + 2) =~= other.subrange(start, start + 2));
    }
    assert(name_of(line) =~= name_of(other));
    assert(line.contains('\n') == other.contains('\n')) by {
        if line.contains('\n') {
            let i = choose|i: int| 0 <= i < line.len() && line[i] == '\n';
            assert(other[i] == '\n');
        }
        if other.contains('\n') {
            let i = choose|i: int| 0 <= i < other.len() && other[i] == '\n';
            assert(line[i] == other[i]);
            assert(line[i] == '\n');
        }
    }
}

} // verus!
