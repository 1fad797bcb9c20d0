//! Reading one ingredient line into its name, preposition, quantity and unit.
use crate::grammar::{
    digits_end, elided_preposition, inferred_preposition, is_digit, next_space, parse_spec,
    past_space, plain_preposition, preposition_at, IngredientView,
};
use crate::laws::parsed_ingredient_is_well_formed;
use vstd::prelude::*;
use vstd::string::StrSliceExecFns;
use vstd::string::StringExecFns;

verus! {

/// Why a line could not be turned into an ingredient.
#[derive(Debug, Clone, Copy, PartialEq, Eq, Structural)]
pub enum ParsingError {
    /// The line does not have the shape of the grammar: it does not start
    /// with a digit, or it runs over more than one line.
    NoMatch,
    /// The grammar was followed up to the name, and no name was left.
    MissingName,
    /// The digits of the quantity do not make a number. `parse` never
    /// returns it: it is for callers that turn the quantity into a number
    /// of the machine.
    InvalidQuantity,
}

/// One ingredient of a recipe.
#[derive(Debug, Clone, PartialEq, Eq)]
pub struct ParsedIngredient {
    pub name: String,
    /// Empty, `de ` or `d'`.
    pub preposition: String,
    /// In decimal notation, with a point: `125`, `1.5`.
    pub quantity: String,
    pub unit: String,
}

impl View for ParsedIngredient {
    type V = IngredientView;

    open spec fn view(&self) -> IngredientView {
        IngredientView {
            name: self.name@,
            preposition: self.preposition@,
            quantity: self.quantity@,
            unit: self.unit@,
        }
    }
}

/// The outcome of reading a line, with the ingredient taken by its view.
pub open spec fn outcome_view(parsed: Result<ParsedIngredient, ParsingError>) -> Result<
    IngredientView,
    ParsingError,
> {
    match parsed {
        Ok(ingredient) => Ok(ingredient@),
        Err(error) => Err(error),
    }
}

/// The characters of `text`, in order.
fn characters(text: &str) -> (chars: Vec<char>)
    ensures
        chars@ == text@,
{
    let mut chars: Vec<char> = Vec::new();
    for c in it: text.chars()
        invariant
            chars@ == it.seq().take(it.index() as int),
            it.seq() == text@,
    {
        chars.push(c);
    }
    chars
}

fn is_digit_char(c: char) -> (digit: bool)
    ensures
        digit == is_digit(c),
{
    '0' <= c && c <= '9'
}

/// Walks over the digits that start at `from`.
fn scan_digits(line: &Vec<char>, from: usize) -> (end: usize)
    requires
        from <= line.len(),
    ensures
        end == digits_end(line@, from as int),
        from <= end <= line.len(),
{
    let mut at: usize = from;
    while at < line.len() && is_digit_char(line[at])
        invariant
            from <= at <= line.len(),
            digits_end(line@, from as int) == digits_end(line@, at as int),
        decreases line.len() - at,
    {
        at += 1;
    }
    at
}

/// Walks up to the first space at or after `from`.
fn scan_to_space(line: &Vec<char>, from: usize) -> (end: usize)
    requires
        from <= line.len(),
    ensures
        end == next_space(line@, from as int),
        from <= end <= line.len(),
{
    let mut at: usize = from;
    while at < line.len() && line[at] != ' '
        invariant
            from <= at <= line.len(),
            next_space(line@, from as int) == next_space(line@, at as int),
        decreases line.len() - at,
    {
        at += 1;
    }
    at
}

/// Steps over one space, if one stands at `at`.
fn skip_space(line: &Vec<char>, at: usize) -> (next: usize)
    requires
        at <= line.len(),
    ensures
        next == past_space(line@, at as int),
        at <= next <= line.len(),
{
    if at < line.len() && line[at] == ' ' {
        at + 1
    } else {
        at
    }
}

fn has_line_break(line: &Vec<char>) -> (found: bool)
    ensures
        found == line@.contains('\n'),
{
    let mut at: usize = 0;
    while at < line.len()
        invariant
            at <= line.len(),
            forall|i: int| 0 <= i < at ==> line@[i] != '\n',
        decreases line.len() - at,
    {
        if line[at] == '\n' {
            return true;
        }
        at += 1;
    }
    false
}

/// The length of the explicit preposition that stands at `at`: 3 for `de `,
/// 2 for `d'`, 0 for none.
fn explicit_preposition_len(line: &Vec<char>, at: usize) -> (len: usize)
    requires
        at <= line.len(),
    ensures
        len == (match preposition_at(line@, at as int) {
            Some(token) => token.len(),
            None => 0,
        }),
{
    let left: usize = line.len() - at;
    if left >= 3 && line[at] == 'd' && line[at + 1] == 'e' && line[at + 2] == ' ' {
        assert(line@.subrange(at as int, at + 3) =~= plain_preposition());
        3
    } else if left >= 2 && line[at] == 'd' && line[at + 1] == '\'' {
        assert(line@.subrange(at as int, at + 2) =~= elided_preposition());
        2
    } else {
        0
    }
}

/// The preposition that `name` takes when the line gives none: `d'` before
/// a vowel or an `h`, in either case, and `de ` before anything else.
pub fn infer_preposition(name: &str) -> (preposition: &str)
    ensures
        preposition@ == inferred_preposition(name@),
{
    proof {
        reveal_strlit("d'");
        reveal_strlit("de ");
    }
    if name.is_empty() {
        return "de ";
    }
    let first = name.get_char(0);
    if first == 'a' || first == 'e' || first == 'i' || first == 'o' || first == 'u' || first == 'y'
        || first == 'h' || first == 'A' || first == 'E' || first == 'I' || first == 'O' || first
        == 'U' || first == 'Y' || first == 'H' {
        "d'"
    } else {
        "de "
    }
}

/// Reads one ingredient line.
///
/// The line is a quantity, then optionally a unit closed by a space, then
/// optionally `de ` or `d'`, then the name. Without a unit the ingredient
/// has no preposition; with a unit and no preposition in the line, the
/// preposition is the one that the name takes.
pub fn parse(raw_ingredient: &str) -> (parsed: Result<ParsedIngredient, ParsingError>)
    ensures
        outcome_view(parsed) == parse_spec(raw_ingredient@),
        parsed matches Ok(ingredient) ==> ingredient@.well_formed(),
        parsed matches Err(error) ==> error != ParsingError::InvalidQuantity,
{
    proof {
        parsed_ingredient_is_well_formed(raw_ingredient@);
    }
    let line = characters(raw_ingredient);
    let len = line.len();
    if len == 0 || !is_digit_char(line[0]) || has_line_break(&line) {
        return Err(ParsingError::NoMatch);
    }
    let integer_end = scan_digits(&line, 0);
    let fraction_start = if integer_end < len && (line[integer_end] == '.' || line[integer_end]
        == ',') {
        integer_end + 1
    } else {
        integer_end
    };
    let fraction_end = scan_digits(&line, fraction_start);
    let unit_start = skip_space(&line, fraction_end);
    let unit_end = scan_to_space(&line, unit_start);
    let preposition_start = if unit_end < len {
        skip_space(&line, unit_end + 1)
    } else {
        unit_start
    };
    let explicit_len = explicit_preposition_len(&line, preposition_start);
    let name_start = preposition_start + explicit_len;
    if name_start == len {
        return Err(ParsingError::MissingName);
    }
    let name = raw_ingredient.substring_char(name_start, len);
    let unit = if unit_end < len {
        raw_ingredient.substring_char(unit_start, unit_end)
    } else {
        ""
    };
    proof {
        reveal_strlit("");
        reveal_strlit("d'");
        reveal_strlit("de ");
        reveal_strlit(".");
        assert("d'"@ =~= elided_preposition());
        assert("de "@ =~= plain_preposition());
        assert("."@ =~= seq!['.']);
        assert(""@ =~= Seq::<char>::empty());
    }
    let preposition = if unit.is_empty() {
        ""
    } else if explicit_len == 3 {
        "de "
    } else if explicit_len == 2 {
        "d'"
    } else {
        infer_preposition(name)
    };
    let integer = String::from_str(raw_ingredient.substring_char(0, integer_end));
    let quantity = if fraction_start < fraction_end {
        integer.concat(".").concat(raw_ingredient.substring_char(fraction_start, fraction_end))
    } else {
        integer
    };
    Ok(
        ParsedIngredient {
            name: String::from_str(name),
            preposition: String::from_str(preposition),
            quantity,
            unit: String::from_str(unit),
        },
    )
}

} // verus!
