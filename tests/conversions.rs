use srcpos::{pos, Loc, Pos};
use std::ops::{Range, RangeFrom, RangeTo};

#[test]
fn pos_from_compact_forms() {
    assert_eq!(Pos::from((4, 6)), pos(4, 6));
    assert_eq!(Pos::from([4, 6]), pos(4, 6));
    assert_eq!(Pos::from(5usize), pos(5, 5));
    assert_eq!(Pos::from([5usize]), pos(5, 5));
    assert_eq!(Pos::from(()), Pos::zero());
    assert_eq!(Pos::from([0u8; 0]), Pos::zero());
}

#[test]
fn pos_into_compact_forms() {
    let p = pos(4, 6);
    let t: (usize, usize) = p.into();
    let a: [usize; 2] = p.into();
    let n: usize = p.into();
    let one: [usize; 1] = p.into();
    assert_eq!(t, (4, 6));
    assert_eq!(a, [4, 6]);
    assert_eq!(n, 4);
    assert_eq!(one, [4]);
}

#[test]
fn pos_round_trips() {
    for p in [pos(0, 0), pos(1, 2), pos(usize::MAX, 3), pos(8, usize::MAX)] {
        let a: [usize; 2] = p.into();
        assert_eq!(Pos::from(a), p);
        let t: (usize, usize) = p.into();
        assert_eq!(Pos::from(t), p);
    }
}

#[test]
fn loc_from_compact_forms() {
    let l = Loc::new_at(1, 2, 3, 4);
    assert_eq!(Loc::from((1, 2, 3, 4)), l);
    assert_eq!(Loc::from([1, 2, 3, 4]), l);
    assert_eq!(Loc::from(7usize), Loc::new_same(7));
    assert_eq!(Loc::from(()), Loc::zero());
    assert_eq!(Loc::from([0u8; 0]), Loc::zero());
    assert_eq!(Loc::from(pos(5, 6)), Loc::new_same_pos(pos(5, 6)));
    assert_eq!(Loc::from([pos(5, 6)]), Loc::new_same_pos(pos(5, 6)));
    assert_eq!(Loc::from([(5, 6)]), Loc::new_same_pos(pos(5, 6)));
    assert_eq!(Loc::from([pos(1, 2), pos(3, 4)]), l);
    assert_eq!(Loc::from((pos(1, 2), pos(3, 4))), l);
}

#[test]
fn loc_into_compact_forms() {
    let l = Loc::new_at(1, 2, 3, 4);
    let t: (usize, usize, usize, usize) = l.into();
    let a: [usize; 4] = l.into();
    let nested: [[usize; 2]; 2] = l.into();
    let pairs: [(usize, usize); 2] = l.into();
    let first: [usize; 2] = l.into();
    let n: usize = l.into();
    let one: [usize; 1] = l.into();
    let p: Pos = l.into();
    assert_eq!(t, (1, 2, 3, 4));
    assert_eq!(a, [1, 2, 3, 4]);
    assert_eq!(nested, [[1, 2], [3, 4]]);
    assert_eq!(pairs, [(1, 2), (3, 4)]);
    assert_eq!(first, [1, 2]);
    assert_eq!(n, 1);
    assert_eq!(one, [1]);
    assert_eq!(p, pos(1, 2));
}

#[test]
fn loc_into_generic_forms() {
    let l = Loc::new_at(1, 2, 3, 4);
    let t: (Pos, Pos) = l.into();
    let a: [Pos; 2] = l.into();
    let one: [Pos; 1] = l.into();
    assert_eq!(t, (pos(1, 2), pos(3, 4)));
    assert_eq!(a, [pos(1, 2), pos(3, 4)]);
    assert_eq!(one, [pos(1, 2)]);
}

#[test]
fn loc_round_trips() {
    for l in [Loc::zero(), Loc::new_at(1, 2, 3, 4), Loc::new_at(9, 8, 0, usize::MAX)] {
        let t: (usize, usize, usize, usize) = l.into();
        assert_eq!(Loc::from(t), l);
        let a: [usize; 4] = l.into();
        assert_eq!(Loc::from(a), l);
    }
}

#[test]
fn loc_from_ranges() {
    assert_eq!(Loc::from((1, 2)..(3, 4)), Loc::new_at(1, 2, 3, 4));
    assert_eq!(Loc::from(pos(1, 2)..pos(3, 4)), Loc::new_at(1, 2, 3, 4));
    assert_eq!(Loc::from(..pos(3, 4)), Loc::new(Pos::zero(), pos(3, 4)));
    assert_eq!(Loc::from(..[3, 4]), Loc::new_at(0, 0, 3, 4));
}

#[test]
fn loc_into_ranges() {
    let l = Loc::new_at(1, 2, 3, 4);
    let r: Range<Pos> = l.into();
    let to: RangeTo<Pos> = l.into();
    let from: RangeFrom<Pos> = l.into();
    assert_eq!(r, pos(1, 2)..pos(3, 4));
    assert_eq!(to, ..pos(3, 4));
    assert_eq!(from, pos(1, 2)..);
    assert_eq!(Loc::from(r), l);
}

#[test]
fn reversed_loc_through_ranges() {
    let l = Loc::new_at(3, 4, 1, 2);
    let r: Range<Pos> = l.into();
    assert_eq!(r.start, pos(3, 4));
    assert_eq!(r.end, pos(1, 2));
    assert_eq!(Loc::from(r), l);
    let to: RangeTo<Pos> = l.into();
    assert_eq!(Loc::from(to), Loc::new(Pos::zero(), pos(1, 2)));
    let one: [Pos; 1] = l.into();
    assert_eq!(Loc::from(one), Loc::new_same_pos(pos(3, 4)));
}
