//! A span of source text: a pair of positions, `from` and `to`.
use vstd::prelude::*;

use crate::decimal::{decimal, push_decimal};
use crate::position::Pos;
use core::cmp::Ordering;
use core::ops::{Range, RangeFrom, RangeTo};
use vstd::std_specs::convert::{FromSpec, IntoSpec};

verus! {

/// Range of positions in source code.
///
/// Nothing relates `from` to `to`: a span may be empty (`from == to`) or
/// reversed (`from` after `to`). Equality and hashing are structural; the
/// order is lexicographic, by `from` first and then by `to`.
#[derive(Debug, PartialEq, Eq, Structural, Clone, Copy, Hash, Ord)]
pub struct Loc {
    /// from
    pub from: Pos,
    /// to
    pub to: Pos,
}

impl Loc {
    pub open spec fn spec_new(from: Pos, to: Pos) -> Loc {
        Loc { from, to }
    }

    pub open spec fn spec_new_at(
        from_line: usize,
        from_column: usize,
        to_line: usize,
        to_column: usize,
    ) -> Loc {
        Loc { from: Pos::new(from_line, from_column), to: Pos::new(to_line, to_column) }
    }

    pub open spec fn spec_new_same_pos(pos: Pos) -> Loc {
        Loc { from: pos, to: pos }
    }

    pub open spec fn spec_zero() -> Loc {
        Loc::spec_new_same_pos(Pos::zero())
    }

    pub open spec fn spec_new_same(value: usize) -> Loc {
        Loc::spec_new_same_pos(Pos::new_same(value))
    }

    /// Lexicographic comparison: by `from`, then by `to`.
    pub open spec fn compare(self, other: Loc) -> Ordering {
        let c = self.from.compare(other.from);
        if c == Ordering::Equal {
            self.to.compare(other.to)
        } else {
            c
        }
    }

    /// The text form `at {from.line}:{from.column} to {to.line}:{to.column}`.
    pub open spec fn text(self) -> Seq<char> {
        self.from.text() + seq![' ', 't', 'o', ' '] + decimal(self.to.line as nat) + seq![':']
            + decimal(self.to.column as nat)
    }

    /// The span from `from` to `to`.
    #[verifier::when_used_as_spec(spec_new)]
    pub fn new(from: Pos, to: Pos) -> (r: Loc)
        ensures
            r.from == from,
            r.to == to,
    {
        Loc { from, to }
    }

    /// The span between two positions given by their lines and columns.
    #[verifier::when_used_as_spec(spec_new_at)]
    pub fn new_at(from_line: usize, from_column: usize, to_line: usize, to_column: usize) -> (r:
        Loc)
        ensures
            r.from == Pos::new(from_line, from_column),
            r.to == Pos::new(to_line, to_column),
    {
        Self::new(Pos::new(from_line, from_column), Pos::new(to_line, to_column))
    }

    /// The empty span at the zero position.
    #[verifier::when_used_as_spec(spec_zero)]
    pub fn zero() -> (r: Loc)
        ensures
            r.from == Pos::zero(),
            r.to == Pos::zero(),
    {
        Self::new_same_pos(Pos::zero())
    }

    /// The empty span at the position whose line and column both are `value`.
    #[verifier::when_used_as_spec(spec_new_same)]
    pub fn new_same(value: usize) -> (r: Loc)
        ensures
            r.from == Pos::new_same(value),
            r.to == Pos::new_same(value),
    {
        Self::new_same_pos(Pos::new_same(value))
    }

    /// The empty span at `pos`.
    #[verifier::when_used_as_spec(spec_new_same_pos)]
    pub fn new_same_pos(pos: Pos) -> (r: Loc)
        ensures
            r.from == pos,
            r.to == pos,
    {
        Self::new(pos, pos)
    }

    /// Renders the span as `at {from.line}:{from.column} to {to.line}:{to.column}`.
    pub fn to_string(&self) -> (r: String)
        ensures
            r@ == self.text(),
    {
        let mut s = self.from.to_string();
        s.append(" to ");
        push_decimal(&mut s, self.to.line);
        s.append(":");
        push_decimal(&mut s, self.to.column);
        proof {
            reveal_strlit(" to ");
            reveal_strlit(":");
            assert(s@ =~= self.text());
        }
        s
    }
}

/// Shorthand for `Loc::new`.
pub fn loc(from: Pos, to: Pos) -> (r: Loc)
    ensures
        r == Loc::new(from, to),
{
    Loc::new(from, to)
}

impl PartialOrd for Loc {
    fn partial_cmp(&self, other: &Loc) -> (r: Option<Ordering>) {
        match self.from.partial_cmp(&other.from) {
            Some(Ordering::Equal) => self.to.partial_cmp(&other.to),
            c => c,
        }
    }
}

impl vstd::std_specs::cmp::PartialOrdSpecImpl for Loc {
    open spec fn obeys_partial_cmp_spec() -> bool {
        true
    }

    open spec fn partial_cmp_spec(&self, other: &Loc) -> Option<Ordering> {
        Some(self.compare(*other))
    }
}

impl Default for Loc {
    fn default() -> (r: Loc)
        ensures
            r == Loc::zero(),
    {
        Self::zero()
    }
}

// Conversions. Those of full arity keep all four fields; a single value is
// spread over both ends, and the way back keeps only `from` (or its line).

impl From<(usize, usize, usize, usize)> for Loc {
    fn from(t: (usize, usize, usize, usize)) -> Loc {
        Self::new_at(t.0, t.1, t.2, t.3)
    }
}

impl vstd::std_specs::convert::FromSpecImpl<(usize, usize, usize, usize)> for Loc {
    open spec fn obeys_from_spec() -> bool {
        true
    }

    open spec fn from_spec(t: (usize, usize, usize, usize)) -> Loc {
        Loc::new_at(t.0, t.1, t.2, t.3)
    }
}

impl Into<(usize, usize, usize, usize)> for Loc {
    fn into(self) -> (usize, usize, usize, usize) {
        (self.from.line, self.from.column, self.to.line, self.to.column)
    }
}

impl vstd::std_specs::convert::IntoSpecImpl<(usize, usize, usize, usize)> for Loc {
    open spec fn obeys_into_spec() -> bool {
        true
    }

    open spec fn into_spec(self) -> (usize, usize, usize, usize) {
        (self.from.line, self.from.column, self.to.line, self.to.column)
    }
}

impl From<[usize; 4]> for Loc {
    fn from(a: [usize; 4]) -> Loc {
        Self::new_at(a[0], a[1], a[2], a[3])
    }
}

impl vstd::std_specs::convert::FromSpecImpl<[usize; 4]> for Loc {
    open spec fn obeys_from_spec() -> bool {
        true
    }

    open spec fn from_spec(a: [usize; 4]) -> Loc {
        Loc::new_at(a[0], a[1], a[2], a[3])
    }
}

impl Into<[usize; 4]> for Loc {
    fn into(self) -> [usize; 4] {
        [self.from.line, self.from.column, self.to.line, self.to.column]
    }
}

impl vstd::std_specs::convert::IntoSpecImpl<[usize; 4]> for Loc {
    open spec fn obeys_into_spec() -> bool {
        true
    }

    open spec fn into_spec(self) -> [usize; 4] {
        [self.from.line, self.from.column, self.to.line, self.to.column]
    }
}

impl Into<[[usize; 2]; 2]> for Loc {
    fn into(self) -> [[usize; 2]; 2] {
        [[self.from.line, self.from.column], [self.to.line, self.to.column]]
    }
}

impl vstd::std_specs::convert::IntoSpecImpl<[[usize; 2]; 2]> for Loc {
    open spec fn obeys_into_spec() -> bool {
        true
    }

    open spec fn into_spec(self) -> [[usize; 2]; 2] {
        [[self.from.line, self.from.column], [self.to.line, self.to.column]]
    }
}

impl Into<[(usize, usize); 2]> for Loc {
    fn into(self) -> [(usize, usize); 2] {
        [(self.from.line, self.from.column), (self.to.line, self.to.column)]
    }
}

impl vstd::std_specs::convert::IntoSpecImpl<[(usize, usize); 2]> for Loc {
    open spec fn obeys_into_spec() -> bool {
        true
    }

    open spec fn into_spec(self) -> [(usize, usize); 2] {
        [(self.from.line, self.from.column), (self.to.line, self.to.column)]
    }
}

impl Into<[usize; 2]> for Loc {
    fn into(self) -> [usize; 2] {
        [self.from.line, self.from.column]
    }
}

impl vstd::std_specs::convert::IntoSpecImpl<[usize; 2]> for Loc {
    open spec fn obeys_into_spec() -> bool {
        true
    }

    open spec fn into_spec(self) -> [usize; 2] {
        [self.from.line, self.from.column]
    }
}

impl From<usize> for Loc {
    fn from(value: usize) -> Loc {
        Self::new_same(value)
    }
}

impl vstd::std_specs::convert::FromSpecImpl<usize> for Loc {
    open spec fn obeys_from_spec() -> bool {
        true
    }

    open spec fn from_spec(value: usize) -> Loc {
        Loc::new_same(value)
    }
}

impl Into<usize> for Loc {
    fn into(self) -> usize {
        self.from.line
    }
}

impl vstd::std_specs::convert::IntoSpecImpl<usize> for Loc {
    open spec fn obeys_into_spec() -> bool {
        true
    }

    open spec fn into_spec(self) -> usize {
        self.from.line
    }
}

impl Into<[usize; 1]> for Loc {
    fn into(self) -> [usize; 1] {
        [self.from.line]
    }
}

impl vstd::std_specs::convert::IntoSpecImpl<[usize; 1]> for Loc {
    open spec fn obeys_into_spec() -> bool {
        true
    }

    open spec fn into_spec(self) -> [usize; 1] {
        [self.from.line]
    }
}

impl From<()> for Loc {
    fn from(_unit: ()) -> Loc {
        Self::zero()
    }
}

impl vstd::std_specs::convert::FromSpecImpl<()> for Loc {
    open spec fn obeys_from_spec() -> bool {
        true
    }

    open spec fn from_spec(_unit: ()) -> Loc {
        Loc::zero()
    }
}

impl<T> From<[T; 0]> for Loc {
    fn from(_empty: [T; 0]) -> Loc {
        Self::zero()
    }
}

impl<T> vstd::std_specs::convert::FromSpecImpl<[T; 0]> for Loc {
    open spec fn obeys_from_spec() -> bool {
        true
    }

    open spec fn from_spec(_empty: [T; 0]) -> Loc {
        Loc::zero()
    }
}

impl From<Pos> for Loc {
    fn from(pos: Pos) -> Loc {
        Self::new_same_pos(pos)
    }
}

impl vstd::std_specs::convert::FromSpecImpl<Pos> for Loc {
    open spec fn obeys_from_spec() -> bool {
        true
    }

    open spec fn from_spec(pos: Pos) -> Loc {
        Loc::new_same_pos(pos)
    }
}

impl Into<Pos> for Loc {
    fn into(self) -> Pos {
        self.from
    }
}

impl vstd::std_specs::convert::IntoSpecImpl<Pos> for Loc {
    open spec fn obeys_into_spec() -> bool {
        true
    }

    open spec fn into_spec(self) -> Pos {
        self.from
    }
}

// Ranges, pairs and arrays of values that convert to or from a position.
// Each end is what the conversion of the matching value returns; with `Pos`
// itself for `T`, std's reflexive conversion makes it that position.
// An array is read by index, which copies its items: the array forms ask for
// `Copy` items, as all the types that convert into a position are.

/// Relies on std's `RangeTo` (`..end`), which vstd does not declare: a range
/// with one public field, its end bound `end`.
#[verifier::external_type_specification]
#[verifier::reject_recursive_types(Idx)]
pub struct ExRangeTo<Idx>(RangeTo<Idx>);

/// Relies on std's `RangeFrom` (`start..`), which vstd does not declare: a range
/// with one public field, its start bound `start`.
#[verifier::external_type_specification]
#[verifier::reject_recursive_types(Idx)]
pub struct ExRangeFrom<Idx>(RangeFrom<Idx>);

/// `t` is what `T::from` returns for the position `p`.
pub open spec fn converted<T: From<Pos>>(p: Pos, t: T) -> bool {
    call_ensures(<T as From<Pos>>::from, (p,), t)
}

/// `r` is the range `from..to` of the ends of `l`, each converted.
pub open spec fn range_of<T: From<Pos>>(l: Loc, r: Range<T>) -> bool {
    converted(l.from, r.start) && converted(l.to, r.end)
}

/// `r` is the range `..to` of the converted end of `l`.
pub open spec fn range_to_of<T: From<Pos>>(l: Loc, r: RangeTo<T>) -> bool {
    converted(l.to, r.end)
}

/// `r` is the range `from..` of the converted start of `l`.
pub open spec fn range_from_of<T: From<Pos>>(l: Loc, r: RangeFrom<T>) -> bool {
    converted(l.from, r.start)
}

/// `r` is the pair `(from, to)` of the ends of `l`, each converted.
pub open spec fn pair_of<T: From<Pos>>(l: Loc, r: (T, T)) -> bool {
    converted(l.from, r.0) && converted(l.to, r.1)
}

/// `r` is the array `[from, to]` of the ends of `l`, each converted.
pub open spec fn array_of<T: From<Pos>>(l: Loc, r: [T; 2]) -> bool {
    converted(l.from, r[0]) && converted(l.to, r[1])
}

/// `r` is the array `[from]` of the converted start of `l`.
pub open spec fn single_of<T: From<Pos>>(l: Loc, r: [T; 1]) -> bool {
    converted(l.from, r[0])
}

/// Relies on std's reflexive `impl<T> From<T> for T`, whose `from` returns its
/// argument unchanged.
pub assume_specification<V>[ <V as std::convert::From<V>>::from ](v: V) -> (r: V)
    ensures
        r == v,
;

impl<T: Into<Pos>> From<Range<T>> for Loc {
    fn from(r: Range<T>) -> (l: Loc)
        ensures
            call_ensures(<T as Into<Pos>>::into, (r.start,), l.from),
            call_ensures(<T as Into<Pos>>::into, (r.end,), l.to),
    {
        Self::new(r.start.into(), r.end.into())
    }
}

impl<T: Into<Pos>> vstd::std_specs::convert::FromSpecImpl<Range<T>> for Loc {
    open spec fn obeys_from_spec() -> bool {
        <T as IntoSpec<Pos>>::obeys_into_spec()
    }

    open spec fn from_spec(r: Range<T>) -> Loc {
        Loc::spec_new(r.start.into_spec(), r.end.into_spec())
    }
}

impl<T: From<Pos>> Into<Range<T>> for Loc {
    fn into(self) -> (r: Range<T>)
        ensures
            range_of::<T>(self, r),
    {
        T::from(self.from)..T::from(self.to)
    }
}

impl<T: From<Pos>> vstd::std_specs::convert::IntoSpecImpl<Range<T>> for Loc {
    open spec fn obeys_into_spec() -> bool {
        <T as FromSpec<Pos>>::obeys_from_spec()
    }

    open spec fn into_spec(self) -> Range<T> {
        Range { start: T::from_spec(self.from), end: T::from_spec(self.to) }
    }
}

impl<T: Into<Pos>> From<RangeTo<T>> for Loc {
    fn from(r: RangeTo<T>) -> (l: Loc)
        ensures
            l.from == Pos::zero(),
            call_ensures(<T as Into<Pos>>::into, (r.end,), l.to),
    {
        Self::new(Pos::zero(), r.end.into())
    }
}

impl<T: Into<Pos>> vstd::std_specs::convert::FromSpecImpl<RangeTo<T>> for Loc {
    open spec fn obeys_from_spec() -> bool {
        <T as IntoSpec<Pos>>::obeys_into_spec()
    }

    open spec fn from_spec(r: RangeTo<T>) -> Loc {
        Loc::spec_new(Pos::zero(), r.end.into_spec())
    }
}

impl<T: From<Pos>> Into<RangeTo<T>> for Loc {
    fn into(self) -> (r: RangeTo<T>)
        ensures
            range_to_of::<T>(self, r),
    {
        ..T::from(self.to)
    }
}

impl<T: From<Pos>> vstd::std_specs::convert::IntoSpecImpl<RangeTo<T>> for Loc {
    open spec fn obeys_into_spec() -> bool {
        <T as FromSpec<Pos>>::obeys_from_spec()
    }

    open spec fn into_spec(self) -> RangeTo<T> {
        RangeTo { end: T::from_spec(self.to) }
    }
}

impl<T: From<Pos>> Into<RangeFrom<T>> for Loc {
    fn into(self) -> (r: RangeFrom<T>)
        ensures
            range_from_of::<T>(self, r),
    {
        T::from(self.from)..
    }
}

impl<T: From<Pos>> vstd::std_specs::convert::IntoSpecImpl<RangeFrom<T>> for Loc {
    open spec fn obeys_into_spec() -> bool {
        <T as FromSpec<Pos>>::obeys_from_spec()
    }

    open spec fn into_spec(self) -> RangeFrom<T> {
        RangeFrom { start: T::from_spec(self.from) }
    }
}

impl<T: Into<Pos>> From<(T, T)> for Loc {
    fn from(t: (T, T)) -> (l: Loc)
        ensures
            call_ensures(<T as Into<Pos>>::into, (t.0,), l.from),
            call_ensures(<T as Into<Pos>>::into, (t.1,), l.to),
    {
        let (from, to) = t;
        Self::new(from.into(), to.into())
    }
}

impl<T: Into<Pos>> vstd::std_specs::convert::FromSpecImpl<(T, T)> for Loc {
    open spec fn obeys_from_spec() -> bool {
        <T as IntoSpec<Pos>>::obeys_into_spec()
    }

    open spec fn from_spec(t: (T, T)) -> Loc {
        Loc::spec_new(t.0.into_spec(), t.1.into_spec())
    }
}

impl<T: From<Pos>> Into<(T, T)> for Loc {
    fn into(self) -> (r: (T, T))
        ensures
            pair_of::<T>(self, r),
    {
        (T::from(self.from), T::from(self.to))
    }
}

impl<T: From<Pos>> vstd::std_specs::convert::IntoSpecImpl<(T, T)> for Loc {
    open spec fn obeys_into_spec() -> bool {
        <T as FromSpec<Pos>>::obeys_from_spec()
    }

    open spec fn into_spec(self) -> (T, T) {
        (T::from_spec(self.from), T::from_spec(self.to))
    }
}

impl<T: Into<Pos> + Copy> From<[T; 2]> for Loc {
    fn from(a: [T; 2]) -> (l: Loc)
        ensures
            call_ensures(<T as Into<Pos>>::into, (a[0],), l.from),
            call_ensures(<T as Into<Pos>>::into, (a[1],), l.to),
    {
        Self::new(a[0].into(), a[1].into())
    }
}

impl<T: Into<Pos> + Copy> vstd::std_specs::convert::FromSpecImpl<[T; 2]> for Loc {
    open spec fn obeys_from_spec() -> bool {
        <T as IntoSpec<Pos>>::obeys_into_spec()
    }

    open spec fn from_spec(a: [T; 2]) -> Loc {
        Loc::spec_new(a[0].into_spec(), a[1].into_spec())
    }
}

impl<T: From<Pos>> Into<[T; 2]> for Loc {
    fn into(self) -> (r: [T; 2])
        ensures
            array_of::<T>(self, r),
    {
        [T::from(self.from), T::from(self.to)]
    }
}

impl<T: From<Pos>> vstd::std_specs::convert::IntoSpecImpl<[T; 2]> for Loc {
    open spec fn obeys_into_spec() -> bool {
        <T as FromSpec<Pos>>::obeys_from_spec()
    }

    open spec fn into_spec(self) -> [T; 2] {
        [T::from_spec(self.from), T::from_spec(self.to)]
    }
}

impl<T: Into<Pos> + Copy> From<[T; 1]> for Loc {
    fn from(a: [T; 1]) -> (l: Loc)
        ensures
            call_ensures(<T as Into<Pos>>::into, (a[0],), l.from),
            l.to == l.from,
    {
        Self::new_same_pos(a[0].into())
    }
}

impl<T: Into<Pos> + Copy> vstd::std_specs::convert::FromSpecImpl<[T; 1]> for Loc {
    open spec fn obeys_from_spec() -> bool {
        <T as IntoSpec<Pos>>::obeys_into_spec()
    }

    open spec fn from_spec(a: [T; 1]) -> Loc {
        Loc::spec_new_same_pos(a[0].into_spec())
    }
}

impl<T: From<Pos>> Into<[T; 1]> for Loc {
    fn into(self) -> (r: [T; 1])
        ensures
            single_of::<T>(self, r),
    {
        [T::from(self.from)]
    }
}

impl<T: From<Pos>> vstd::std_specs::convert::IntoSpecImpl<[T; 1]> for Loc {
    open spec fn obeys_into_spec() -> bool {
        <T as FromSpec<Pos>>::obeys_from_spec()
    }

    open spec fn into_spec(self) -> [T; 1] {
        [T::from_spec(self.from)]
    }
}

} // verus!
