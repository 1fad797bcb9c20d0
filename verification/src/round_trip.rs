//! From the parts of an ingredient to a line and back: a line written from
//! its parts parses to those parts.
use crate::grammar::{
    all_digits, conforms, decimal_text, digits_end, elided_preposition, explicit_preposition,
    fraction_end, fraction_start, has_unit, inferred_preposition, integer_end, is_digit,
    is_separator, name_start, next_space, parse_spec, plain_preposition, preposition_start,
    token_at, unit_end, unit_of, unit_start, IngredientView,
};
use crate::ingredient_parser::ParsingError;
use vstd::prelude::*;

verus! {

/// The parts that a line is written from.
pub struct WrittenLine {
    /// The digits before the separator.
    pub integer: Seq<char>,
    /// The separator, written only before a fraction.
    pub separator: char,
    /// The digits after the separator; empty for a whole number.
    pub fraction: Seq<char>,
    /// Whether a space follows the quantity.
    pub spaced: bool,
    /// The unit; empty for a bare count. A space closes a unit that is not empty.
    pub unit: Seq<char>,
    /// The preposition as written: empty, `de ` or `d'`.
    pub preposition: Seq<char>,
    /// The name.
    pub name: Seq<char>,
}

impl WrittenLine {
    /// The quantity as written, with the separator of the line.
    pub open spec fn quantity(self) -> Seq<char> {
        if self.fraction.len() == 0 {
            self.integer
        } else {
            self.integer + seq![self.separator] + self.fraction
        }
    }

    /// What follows the quantity up to the preposition.
    pub open spec fn middle(self) -> Seq<char> {
        let gap = if self.spaced {
            seq![' ']
        } else {
            Seq::empty()
        };
        if self.unit.len() == 0 {
            gap
        } else {
            gap + self.unit + seq![' ']
        }
    }

    /// The line.
    pub open spec fn line(self) -> Seq<char> {
        self.quantity() + self.middle() + self.preposition + self.name
    }

    /// Where the fraction digits start in the line.
    pub open spec fn fraction_at(self) -> int {
        if self.fraction.len() == 0 {
            self.integer.len() as int
        } else {
            self.integer.len() as int + 1
        }
    }

    /// Where the unit starts in the line.
    pub open spec fn unit_at(self) -> int {
        self.quantity().len() + if self.spaced {
            1int
        } else {
            0int
        }
    }

    /// Where the preposition starts in the line.
    pub open spec fn preposition_at(self) -> int {
        self.quantity().len() as int + self.middle().len() as int
    }

    /// Where the name starts in the line.
    pub open spec fn name_at(self) -> int {
        self.preposition_at() + self.preposition.len()
    }

    /// The first character after the quantity and its space, if the line
    /// goes on.
    pub open spec fn after_quantity(self) -> Option<char> {
        if self.unit.len() > 0 {
            Some(self.unit[0])
        } else if self.name.len() > 0 {
            Some(self.name[0])
        } else {
            None
        }
    }

    /// True when the parts can be told apart in the line.
    pub open spec fn well_written(self) -> bool {
        &&& self.integer.len() > 0
        &&& all_digits(self.integer)
        &&& all_digits(self.fraction)
        &&& is_separator(self.separator)
        &&& forall|i: int|
            0 <= i < self.unit.len() ==> #[trigger] self.unit[i] != ' ' && self.unit[i] != '\n'
        &&& forall|i: int| 0 <= i < self.name.len() ==> #[trigger] self.name[i] != '\n'
        // written without a space, what follows the quantity does not go on with it
        &&& (!self.spaced ==> (self.after_quantity() matches Some(c) ==> !is_digit(c) && (
        self.fraction.len() == 0 ==> !is_separator(c))))
        // a bare count has no preposition, and its name holds no space and
        // does not look like one
        &&& (self.unit.len() == 0 ==> {
            &&& self.preposition.len() == 0
            &&& forall|i: int| 0 <= i < self.name.len() ==> #[trigger] self.name[i] != ' '
            &&& !token_at(self.name, 0, elided_preposition())
        })
        // after a unit the preposition is one of the two, or the name does
        // not look like one and does not start with a space
        &&& (self.unit.len() > 0 ==> {
            ||| self.preposition == plain_preposition()
            ||| self.preposition == elided_preposition()
            ||| {
                &&& self.preposition.len() == 0
                &&& !token_at(self.name, 0, plain_preposition())
                &&& !token_at(self.name, 0, elided_preposition())
                &&& (self.name.len() > 0 ==> self.name[0] != ' ')
            }
        })
    }

    /// What the line is meant to parse to.
    pub open spec fn meaning(self) -> Result<IngredientView, ParsingError> {
        if self.name.len() == 0 {
            Err(ParsingError::MissingName)
        } else {
            Ok(
                IngredientView {
                    name: self.name,
                    preposition: if self.unit.len() == 0 {
                        Seq::empty()
                    } else if self.preposition.len() == 0 {
                        inferred_preposition(self.name)
                    } else {
                        self.preposition
                    },
                    quantity: decimal_text(self.integer, self.fraction),
                    unit: self.unit,
                },
            )
        }
    }
}

/// A run of digits that is closed by the end of the line or by another
/// character ends there.
proof fn digits_end_at(line: Seq<char>, from: int, end: int)
    requires
        0 <= from <= end <= line.len(),
        forall|i: int| from <= i < end ==> is_digit(#[trigger] line[i]),
        end < line.len() ==> !is_digit(line[end]),
    ensures
        digits_end(line, from) == end,
    decreases end - from,
{
    if from < end {
        digits_end_at(line, from + 1, end);
    }
}

/// The next space is at the first position that holds one.
proof fn next_space_at(line: Seq<char>, from: int, end: int)
    requires
        0 <= from <= end <= line.len(),
        forall|i: int| from <= i < end ==> #[trigger] line[i] != ' ',
        end < line.len() ==> line[end] == ' ',
    ensures
        next_space(line, from) == end,
    decreases end - from,
{
    if from < end {
        next_space_at(line, from + 1, end);
    }
}

/// True when `line` holds the parts of `written` at their places, and
/// nothing else.
spec fn laid_out(written: WrittenLine, line: Seq<char>) -> bool {
    let a = written.integer.len() as int;
    let fs = written.fraction_at();
    let fe = written.quantity().len() as int;
    let us = written.unit_at();
    let ps = written.preposition_at();
    let ns = written.name_at();
    &&& a <= fs <= fe <= us <= ps <= ns <= line.len()
    &&& fe == fs + written.fraction.len()
    &&& line.len() == ns + written.name.len()
    &&& ps == if written.unit.len() == 0 {
        us
    } else {
        us + written.unit.len() + 1
    }
    &&& forall|i: int| 0 <= i < a ==> #[trigger] line[i] == written.integer[i]
    &&& (a < fs ==> line[a] == written.separator)
    &&& forall|i: int| fs <= i < fe ==> #[trigger] line[i] == written.fraction[i - fs]
    &&& (fe < us ==> line[fe] == ' ')
    &&& forall|i: int|
        us <= i < us + written.unit.len() ==> #[trigger] line[i] == written.unit[i - us]
    &&& (us < ps ==> line[ps - 1] == ' ')
    &&& forall|i: int| ps <= i < ns ==> #[trigger] line[i] == written.preposition[i - ps]
    &&& forall|i: int| ns <= i < line.len() ==> #[trigger] line[i] == written.name[i - ns]
}

proof fn line_is_laid_out(written: WrittenLine)
    ensures
        laid_out(written, written.line()),
{
}

/// The boundaries that the grammar finds in a written line are those of
/// its parts.
proof fn boundaries_of_written_line(written: WrittenLine, line: Seq<char>)
    requires
        written.well_written(),
        laid_out(written, line),
    ensures
        integer_end(line) == written.integer.len(),
        fraction_start(line) == written.fraction_at(),
        fraction_end(line) == written.quantity().len(),
        unit_start(line) == written.unit_at(),
        has_unit(line) == (written.unit.len() > 0),
        has_unit(line) ==> unit_end(line) == written.unit_at() + written.unit.len(),
        preposition_start(line) == written.preposition_at(),
{
    let unit_at = written.unit_at();
    digits_end_at(line, 0, written.integer.len() as int);
    digits_end_at(line, written.fraction_at(), written.quantity().len() as int);
    if written.unit.len() > 0 {
        next_space_at(line, unit_at, unit_at + written.unit.len());
    } else {
        next_space_at(line, unit_at, line.len() as int);
    }
}

/// The grammar finds in a written line the preposition that was written.
proof fn preposition_of_written_line(written: WrittenLine, line: Seq<char>)
    requires
        written.well_written(),
        laid_out(written, line),
        preposition_start(line) == written.preposition_at(),
    ensures
        explicit_preposition(line) == if written.preposition.len() == 0 {
            None
        } else {
            Some(written.preposition)
        },
        name_start(line) == written.name_at(),
{
    let at = written.preposition_at();
    let plain = plain_preposition();
    let elided = elided_preposition();
    if written.preposition == plain {
        assert(line.subrange(at, at + 3) =~= plain);
    } else if written.preposition == elided {
        assert(line.subrange(at, at + 2) =~= elided);
    } else {
        if token_at(line, at, plain) {
            assert(line.subrange(at, at + 3) =~= written.name.subrange(0, 3));
        }
        if token_at(line, at, elided) {
            assert(line.subrange(at, at + 2) =~= written.name.subrange(0, 2));
        }
    }
}

/// A written line has the shape of the grammar.
proof fn written_line_conforms(written: WrittenLine, line: Seq<char>)
    requires
        written.well_written(),
        laid_out(written, line),
    ensures
        conforms(line),
{
    assert forall|i: int| 0 <= i < line.len() implies line[i] != '\n' by {}
}

/// A line written from its parts parses to them: the name and the unit as
/// they are, the quantity with a point whatever the separator was, the
/// preposition as written or, after a unit that is followed by none, the
/// one that the name takes. Without a name the line fails for its missing
/// name.
pub proof fn written_line_parses_to_its_parts(written: WrittenLine)
    requires
        written.well_written(),
    ensures
        parse_spec(written.line()) == written.meaning(),
{
    let line = written.line();
    line_is_laid_out(written);
    boundaries_of_written_line(written, line);
    preposition_of_written_line(written, line);
    written_line_conforms(written, line);
    let us = written.unit_at();
    assert(line.subrange(0, written.integer.len() as int) =~= written.integer);
    assert(line.subrange(written.fraction_at(), written.quantity().len() as int)
        =~= written.fraction);
    assert(line.subrange(written.name_at(), line.len() as int) =~= written.name);
    if written.unit.len() > 0 {
        assert(line.subrange(us, us + written.unit.len()) =~= written.unit);
    } else {
        assert(unit_of(line) =~= written.unit);
    }
}

} // verus!
