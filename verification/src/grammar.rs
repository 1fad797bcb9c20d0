//! The grammar of an ingredient line, as a mathematical model.
//!
//! A line reads, from left to right: a quantity (digits, then optionally a
//! `.` or a `,` and more digits), an optional unit (any characters up to the
//! first space), an optional explicit preposition (`de ` or `d'`) and a name
//! (the rest of the line). Every boundary below is a position in the line,
//! counted in characters.
use crate::ingredient_parser::ParsingError;
use vstd::prelude::*;

verus! {

/// The fields of an ingredient, as sequences of characters.
pub struct IngredientView {
    pub name: Seq<char>,
    pub preposition: Seq<char>,
    pub quantity: Seq<char>,
    pub unit: Seq<char>,
}

impl IngredientView {
    /// What holds of every ingredient that was read from a line: it has a
    /// name, its quantity is a decimal number, its preposition is empty,
    /// `de ` or `d'`, and it has a preposition exactly when it has a unit.
    pub open spec fn well_formed(self) -> bool {
        &&& self.name.len() > 0
        &&& is_decimal(self.quantity)
        &&& (self.preposition == Seq::<char>::empty() || self.preposition == plain_preposition()
            || self.preposition == elided_preposition())
        &&& (self.unit.len() == 0 <==> self.preposition.len() == 0)
    }
}

/// True for the ten decimal digits.
pub open spec fn is_digit(c: char) -> bool {
    '0' <= c && c <= '9'
}

/// True for the two characters that may stand between the integer digits
/// and the fraction digits.
pub open spec fn is_separator(c: char) -> bool {
    c == '.' || c == ','
}

/// True when `c`, as the first letter of a name, calls for the elided
/// preposition: a vowel or an `h`, in either case.
pub open spec fn calls_for_elision(c: char) -> bool {
    c == 'a' || c == 'e' || c == 'i' || c == 'o' || c == 'u' || c == 'y' || c == 'h' || c == 'A'
        || c == 'E' || c == 'I' || c == 'O' || c == 'U' || c == 'Y' || c == 'H'
}

/// The preposition `de `.
pub open spec fn plain_preposition() -> Seq<char> {
    seq!['d', 'e', ' ']
}

/// The preposition `d'`.
pub open spec fn elided_preposition() -> Seq<char> {
    seq!['d', '\'']
}

/// The preposition that a name takes when the line gives none.
pub open spec fn inferred_preposition(name: Seq<char>) -> Seq<char> {
    if name.len() > 0 && calls_for_elision(name[0]) {
        elided_preposition()
    } else {
        plain_preposition()
    }
}

/// Where the longest run of digits that starts at `from` ends.
pub open spec fn digits_end(line: Seq<char>, from: int) -> int
    decreases line.len() - from,
{
    if 0 <= from < line.len() && is_digit(line[from]) {
        digits_end(line, from + 1)
    } else {
        from
    }
}

/// The position of the first space at or after `from`, or the length of the
/// line when there is none.
pub open spec fn next_space(line: Seq<char>, from: int) -> int
    decreases line.len() - from,
{
    if 0 <= from < line.len() && line[from] != ' ' {
        next_space(line, from + 1)
    } else {
        from
    }
}

/// The position after one space at `at`, or `at` itself when no space stands there.
pub open spec fn past_space(line: Seq<char>, at: int) -> int {
    if 0 <= at < line.len() && line[at] == ' ' {
        at + 1
    } else {
        at
    }
}

/// True when `token` stands in `line` at position `at`.
pub open spec fn token_at(line: Seq<char>, at: int, token: Seq<char>) -> bool {
    0 <= at && at + token.len() <= line.len() && line.subrange(at, at + token.len()) == token
}

/// True when the line has the shape of the grammar: it starts with a digit
/// and holds no line break.
pub open spec fn conforms(line: Seq<char>) -> bool {
    line.len() > 0 && is_digit(line[0]) && !line.contains('\n')
}

/// The integer digits of the quantity are the characters before this position.
pub open spec fn integer_end(line: Seq<char>) -> int {
    digits_end(line, 0)
}

/// Where the fraction digits would start: after the separator, if one
/// follows the integer digits.
pub open spec fn fraction_start(line: Seq<char>) -> int {
    let end = integer_end(line);
    if 0 <= end < line.len() && is_separator(line[end]) {
        end + 1
    } else {
        end
    }
}

/// Where the quantity ends.
pub open spec fn fraction_end(line: Seq<char>) -> int {
    digits_end(line, fraction_start(line))
}

/// Where the unit would start: after the quantity and at most one space.
pub open spec fn unit_start(line: Seq<char>) -> int {
    past_space(line, fraction_end(line))
}

/// Where the unit would end: at the first space after its start.
pub open spec fn unit_end(line: Seq<char>) -> int {
    next_space(line, unit_start(line))
}

/// True when a unit was read: a space closes it.
pub open spec fn has_unit(line: Seq<char>) -> bool {
    unit_end(line) < line.len()
}

/// Where an explicit preposition would start: after the unit, the space
/// that closes it and at most one more space.
pub open spec fn preposition_start(line: Seq<char>) -> int {
    if has_unit(line) {
        past_space(line, unit_end(line) + 1)
    } else {
        unit_start(line)
    }
}

/// The explicit preposition that stands in `line` at `at`, if one does.
pub open spec fn preposition_at(line: Seq<char>, at: int) -> Option<Seq<char>> {
    if token_at(line, at, plain_preposition()) {
        Some(plain_preposition())
    } else if token_at(line, at, elided_preposition()) {
        Some(elided_preposition())
    } else {
        None
    }
}

/// The explicit preposition of the line, if it has one.
pub open spec fn explicit_preposition(line: Seq<char>) -> Option<Seq<char>> {
    preposition_at(line, preposition_start(line))
}

/// Where the name starts.
pub open spec fn name_start(line: Seq<char>) -> int {
    preposition_start(line) + match explicit_preposition(line) {
        Some(token) => token.len() as int,
        None => 0,
    }
}

/// The name: the rest of the line.
pub open spec fn name_of(line: Seq<char>) -> Seq<char> {
    line.subrange(name_start(line), line.len() as int)
}

/// The unit, empty when none was read.
pub open spec fn unit_of(line: Seq<char>) -> Seq<char> {
    if has_unit(line) {
        line.subrange(unit_start(line), unit_end(line))
    } else {
        Seq::empty()
    }
}

/// The preposition: none without a unit, else the explicit one, else the
/// one that the name takes.
pub open spec fn preposition_of(line: Seq<char>) -> Seq<char> {
    if unit_of(line).len() == 0 {
        Seq::empty()
    } else {
        match explicit_preposition(line) {
            Some(token) => token,
            None => inferred_preposition(name_of(line)),
        }
    }
}

/// A quantity in decimal notation: the integer digits alone, or the integer
/// digits, a point and the fraction digits.
pub open spec fn decimal_text(integer: Seq<char>, fraction: Seq<char>) -> Seq<char> {
    if fraction.len() == 0 {
        integer
    } else {
        integer + seq!['.'] + fraction
    }
}

/// True when `text` holds digits only.
pub open spec fn all_digits(text: Seq<char>) -> bool {
    forall|i: int| 0 <= i < text.len() ==> is_digit(#[trigger] text[i])
}

/// True when `text` is a number in decimal notation: digits, or digits, a
/// point and digits.
pub open spec fn is_decimal(text: Seq<char>) -> bool {
    exists|integer: Seq<char>, fraction: Seq<char>|
        integer.len() > 0 && all_digits(integer) && all_digits(fraction) && text
            == #[trigger] decimal_text(integer, fraction)
}

/// The quantity of the line in decimal notation.
pub open spec fn quantity_of(line: Seq<char>) -> Seq<char> {
    decimal_text(
        line.subrange(0, integer_end(line)),
        line.subrange(fraction_start(line), fraction_end(line)),
    )
}

/// What a line parses to.
pub open spec fn parse_spec(line: Seq<char>) -> Result<IngredientView, ParsingError> {
    if !conforms(line) {
        Err(ParsingError::NoMatch)
    } else if name_of(line).len() == 0 {
        Err(ParsingError::MissingName)
    } else {
        Ok(
            IngredientView {
                name: name_of(line),
                preposition: preposition_of(line),
                quantity: quantity_of(line),
                unit: unit_of(line),
            },
        )
    }
}

} // verus!
