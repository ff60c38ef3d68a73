//! A point in a text buffer: a line and a column.
use vstd::prelude::*;

use crate::decimal::{decimal, push_decimal};
use core::cmp::Ordering;

verus! {

/// Position in source code.
///
/// Equality and hashing are structural; the order is lexicographic, by line
/// first and then by column.
#[derive(Debug, PartialEq, Eq, Structural, Clone, Copy, Hash, Ord)]
pub struct Pos {
    /// nth of line
    pub line: usize,
    /// nth of characters in current line
    pub column: usize,
}

impl Pos {
    pub open spec fn spec_zero() -> Pos {
        Pos { line: 0, column: 0 }
    }

    pub open spec fn spec_new(line: usize, column: usize) -> Pos {
        Pos { line, column }
    }

    pub open spec fn spec_new_same(value: usize) -> Pos {
        Pos { line: value, column: value }
    }

    /// Lexicographic comparison: by line, then by column.
    pub open spec fn compare(self, other: Pos) -> Ordering {
        if self.line < other.line {
            Ordering::Less
        } else if self.line > other.line {
            Ordering::Greater
        } else if self.column < other.column {
            Ordering::Less
        } else if self.column > other.column {
            Ordering::Greater
        } else {
            Ordering::Equal
        }
    }

    /// The text form `at {line}:{column}`.
    pub open spec fn text(self) -> Seq<char> {
        seq!['a', 't', ' '] + decimal(self.line as nat) + seq![':'] + decimal(self.column as nat)
    }

    /// The position with line and column 0.
    #[verifier::when_used_as_spec(spec_zero)]
    pub fn zero() -> (r: Pos)
        ensures
            r.line == 0,
            r.column == 0,
    {
        Self::new_same(0)
    }

    /// The position at `line` and `column`.
    #[verifier::when_used_as_spec(spec_new)]
    pub fn new(line: usize, column: usize) -> (r: Pos)
        ensures
            r.line == line,
            r.column == column,
    {
        Pos { line, column }
    }

    /// The position whose line and column both are `value`.
    #[verifier::when_used_as_spec(spec_new_same)]
    pub fn new_same(value: usize) -> (r: Pos)
        ensures
            r.line == value,
            r.column == value,
    {
        Self::new(value, value)
    }

    /// The position at the line and column that `line!()` and `column!()`
    /// report for a place in a source file.
    pub fn at_call_site(line: u32, column: u32) -> (r: Pos)
        ensures
            r.line == line,
            r.column == column,
    {
        Self::new(line as usize, column as usize)
    }

    /// Renders the position as `at {line}:{column}`.
    pub fn to_string(&self) -> (r: String)
        ensures
            r@ == self.text(),
    {
        let mut s = String::new();
        s.append("at ");
        push_decimal(&mut s, self.line);
        s.append(":");
        push_decimal(&mut s, self.column);
        proof {
            reveal_strlit("at ");
            reveal_strlit(":");
            assert(s@ =~= self.text());
        }
        s
    }
}

/// Shorthand for `Pos::new`.
pub fn pos(line: usize, column: usize) -> (r: Pos)
    ensures
        r == Pos::new(line, column),
{
    Pos::new(line, column)
}

impl PartialOrd for Pos {
    fn partial_cmp(&self, other: &Pos) -> (r: Option<Ordering>) {
        if self.line < other.line {
            Some(Ordering::Less)
        } else if self.line > other.line {
            Some(Ordering::Greater)
        } else if self.column < other.column {
            Some(Ordering::Less)
        } else if self.column > other.column {
            Some(Ordering::Greater)
        } else {
            Some(Ordering::Equal)
        }
    }
}

impl vstd::std_specs::cmp::PartialOrdSpecImpl for Pos {
    open spec fn obeys_partial_cmp_spec() -> bool {
        true
    }

    open spec fn partial_cmp_spec(&self, other: &Pos) -> Option<Ordering> {
        Some(self.compare(*other))
    }
}

impl Default for Pos {
    fn default() -> (r: Pos)
        ensures
            r == Pos::zero(),
    {
        Self::zero()
    }
}

// Conversions. Those of matching arity keep both fields; a single value is
// spread over both fields, and the way back keeps only the line.

impl From<(usize, usize)> for Pos {
    fn from(t: (usize, usize)) -> Pos {
        Self::new(t.0, t.1)
    }
}

impl vstd::std_specs::convert::FromSpecImpl<(usize, usize)> for Pos {
    open spec fn obeys_from_spec() -> bool {
        true
    }

    open spec fn from_spec(t: (usize, usize)) -> Pos {
        Pos { line: t.0, column: t.1 }
    }
}

impl From<[usize; 2]> for Pos {
    fn from(a: [usize; 2]) -> Pos {
        Self::new(a[0], a[1])
    }
}

impl vstd::std_specs::convert::FromSpecImpl<[usize; 2]> for Pos {
    open spec fn obeys_from_spec() -> bool {
        true
    }

    open spec fn from_spec(a: [usize; 2]) -> Pos {
        Pos { line: a[0], column: a[1] }
    }
}

impl Into<(usize, usize)> for Pos {
    fn into(self) -> (usize, usize) {
        (self.line, self.column)
    }
}

impl vstd::std_specs::convert::IntoSpecImpl<(usize, usize)> for Pos {
    open spec fn obeys_into_spec() -> bool {
        true
    }

    open spec fn into_spec(self) -> (usize, usize) {
        (self.line, self.column)
    }
}

impl Into<[usize; 2]> for Pos {
    fn into(self) -> [usize; 2] {
        [self.line, self.column]
    }
}

impl vstd::std_specs::convert::IntoSpecImpl<[usize; 2]> for Pos {
    open spec fn obeys_into_spec() -> bool {
        true
    }

    open spec fn into_spec(self) -> [usize; 2] {
        [self.line, self.column]
    }
}

impl From<usize> for Pos {
    fn from(value: usize) -> Pos {
        Self::new_same(value)
    }
}

impl vstd::std_specs::convert::FromSpecImpl<usize> for Pos {
    open spec fn obeys_from_spec() -> bool {
        true
    }

    open spec fn from_spec(value: usize) -> Pos {
        Pos::new_same(value)
    }
}

impl Into<usize> for Pos {
    fn into(self) -> usize {
        self.line
    }
}

impl vstd::std_specs::convert::IntoSpecImpl<usize> for Pos {
    open spec fn obeys_into_spec() -> bool {
        true
    }

    open spec fn into_spec(self) -> usize {
        self.line
    }
}

impl From<[usize; 1]> for Pos {
    fn from(a: [usize; 1]) -> Pos {
        Self::new_same(a[0])
    }
}

impl vstd::std_specs::convert::FromSpecImpl<[usize; 1]> for Pos {
    open spec fn obeys_from_spec() -> bool {
        true
    }

    open spec fn from_spec(a: [usize; 1]) -> Pos {
        Pos::new_same(a[0])
    }
}

impl Into<[usize; 1]> for Pos {
    fn into(self) -> [usize; 1] {
        [self.line]
    }
}

impl vstd::std_specs::convert::IntoSpecImpl<[usize; 1]> for Pos {
    open spec fn obeys_into_spec() -> bool {
        true
    }

    open spec fn into_spec(self) -> [usize; 1] {
        [self.line]
    }
}

impl From<()> for Pos {
    fn from(_unit: ()) -> Pos {
        Self::zero()
    }
}

impl vstd::std_specs::convert::FromSpecImpl<()> for Pos {
    open spec fn obeys_from_spec() -> bool {
        true
    }

    open spec fn from_spec(_unit: ()) -> Pos {
        Pos::zero()
    }
}

impl<T> From<[T; 0]> for Pos {
    fn from(_empty: [T; 0]) -> Pos {
        Self::zero()
    }
}

impl<T> vstd::std_specs::convert::FromSpecImpl<[T; 0]> for Pos {
    open spec fn obeys_from_spec() -> bool {
        true
    }

    open spec fn from_spec(_empty: [T; 0]) -> Pos {
        Pos::zero()
    }
}

} // verus!
