//! Laws that relate the constructors, conversions and order of `Pos` and `Loc`.
use vstd::prelude::*;

use crate::location::Loc;
use crate::position::Pos;
use core::cmp::Ordering;
use core::ops::Range;
use vstd::std_specs::cmp::PartialOrdSpec;
use vstd::std_specs::convert::{FromSpec, IntoSpec};

verus! {

/// A position turned into a `[line, column]` array and back is the same
/// position, and an array turned into a position and back is the same array.
pub proof fn lemma_pos_array_round_trip(p: Pos, a: [usize; 2])
    ensures
        <Pos as FromSpec<[usize; 2]>>::from_spec(<Pos as IntoSpec<[usize; 2]>>::into_spec(p)) == p,
        <Pos as IntoSpec<[usize; 2]>>::into_spec(<Pos as FromSpec<[usize; 2]>>::from_spec(a)) == a,
{
    broadcast use vstd::array::group_array_axioms;

    assert(<Pos as IntoSpec<[usize; 2]>>::into_spec(<Pos as FromSpec<[usize; 2]>>::from_spec(a))@
        =~= a@);
}

/// A position turned into a `(line, column)` pair and back is the same
/// position, and a pair turned into a position and back is the same pair.
pub proof fn lemma_pos_tuple_round_trip(p: Pos, t: (usize, usize))
    ensures
        <Pos as FromSpec<(usize, usize)>>::from_spec(<Pos as IntoSpec<(usize, usize)>>::into_spec(p))
            == p,
        <Pos as IntoSpec<(usize, usize)>>::into_spec(<Pos as FromSpec<(usize, usize)>>::from_spec(t))
            == t,
{
}

/// A span turned into its four fields, as a tuple or as an array, and back is
/// the same span; four fields turned into a span and back are the same fields.
pub proof fn lemma_loc_full_arity_round_trip(
    l: Loc,
    t: (usize, usize, usize, usize),
    a: [usize; 4],
)
    ensures
        <Loc as FromSpec<(usize, usize, usize, usize)>>::from_spec(
            <Loc as IntoSpec<(usize, usize, usize, usize)>>::into_spec(l),
        ) == l,
        <Loc as IntoSpec<(usize, usize, usize, usize)>>::into_spec(
            <Loc as FromSpec<(usize, usize, usize, usize)>>::from_spec(t),
        ) == t,
        <Loc as FromSpec<[usize; 4]>>::from_spec(<Loc as IntoSpec<[usize; 4]>>::into_spec(l)) == l,
        <Loc as IntoSpec<[usize; 4]>>::into_spec(<Loc as FromSpec<[usize; 4]>>::from_spec(a)) == a,
{
    broadcast use vstd::array::group_array_axioms;

    assert(<Loc as IntoSpec<[usize; 4]>>::into_spec(<Loc as FromSpec<[usize; 4]>>::from_spec(a))@
        =~= a@);
}

/// A span turned into the range `from..to` of its positions and back is the
/// same span, reversed spans included.
pub proof fn lemma_loc_range_round_trip(l: Loc, r: Range<Pos>, back: Loc)
    requires
        call_ensures(<Loc as Into<Range<Pos>>>::into, (l,), r),
        call_ensures(<Loc as From<Range<Pos>>>::from, (r,), back),
    ensures
        r.start == l.from,
        r.end == l.to,
        back == l,
{
}

/// The zero position is the position with both fields 0, and the zero span
/// is the empty span at the zero position.
pub proof fn lemma_zero_consistency()
    ensures
        Pos::zero() == Pos::new_same(0),
        Loc::zero() == Loc::new_same_pos(Pos::zero()),
{
}

/// Of two positions, exactly one is less than, equal to, or greater than the
/// other, and the order is lexicographic: by line, then by column.
pub proof fn lemma_pos_order_total(a: Pos, b: Pos)
    ensures
        a.partial_cmp_spec(&b) is Some,
        (a.partial_cmp_spec(&b) == Some(Ordering::Less)) <==> (a.line < b.line || (a.line
            == b.line && a.column < b.column)),
        (a.partial_cmp_spec(&b) == Some(Ordering::Equal)) <==> a == b,
        (a.partial_cmp_spec(&b) == Some(Ordering::Greater)) <==> (a.line > b.line || (a.line
            == b.line && a.column > b.column)),
        (a.partial_cmp_spec(&b) == Some(Ordering::Less)) <==> (b.partial_cmp_spec(&a) == Some(
            Ordering::Greater,
        )),
{
}

} // verus!
