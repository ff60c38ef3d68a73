use srcpos::{loc, pos, Loc, Pos};

#[test]
fn test_macro() {
    let p = Pos::at_call_site(5, 13);
    assert_eq!(p, pos(5, 13));
}

#[test]
fn test_loc_macro() {
    let a = loc(pos(1, 2).into(), pos(3, 4).into());
    let b = loc([1, 2].into(), [3, 4].into());
    let c = loc(pos(1, 2), pos(3, 4));
    let d = Loc::from((1, 2)..(3, 4));
    assert_eq!(a, b);
    assert_eq!(b, c);
    assert_eq!(c, d);
}

#[test]
fn test_pos_macro() {
    let a = pos(1, 2);
    let b = Pos::from([1, 2]);
    assert_eq!(a, b);
}

#[test]
fn loc_built_every_way_is_equal() {
    let a = Loc::new(Pos::new(1, 2), Pos::new(3, 4));
    let b = Loc::from([[1, 2], [3, 4]]);
    let c = Loc::new_at(1, 2, 3, 4);
    let d = Loc::from((1, 2, 3, 4));
    let e = Loc::from([1, 2, 3, 4]);
    let f = Loc::from(pos(1, 2)..pos(3, 4));
    let g = Loc::from(((1, 2), (3, 4)));
    assert_eq!(a, b);
    assert_eq!(a, c);
    assert_eq!(a, d);
    assert_eq!(a, e);
    assert_eq!(a, f);
    assert_eq!(a, g);
    assert_eq!(a.from.line, 1);
    assert_eq!(a.from.column, 2);
    assert_eq!(a.to.line, 3);
    assert_eq!(a.to.column, 4);
}

#[test]
fn pos_new_keeps_field_order() {
    let p = Pos::new(7, 9);
    assert_eq!(p.line, 7);
    assert_eq!(p.column, 9);
    assert_eq!(pos(7, 9), p);
}

#[test]
fn new_same_broadcasts_value() {
    let p = Pos::new_same(42);
    assert_eq!(p.line, 42);
    assert_eq!(p.column, 42);
    let l = Loc::new_same(42);
    assert_eq!(l.from, Pos::new_same(42));
    assert_eq!(l.to, Pos::new_same(42));
    let m = Loc::new_same(usize::MAX);
    assert_eq!(m.from, Pos::new(usize::MAX, usize::MAX));
    assert_eq!(m.from, m.to);
}

#[test]
fn zero_is_new_same_zero() {
    assert_eq!(Pos::zero(), Pos::new_same(0));
    assert_eq!(Pos::zero(), Pos::new(0, 0));
    assert_eq!(Loc::zero(), Loc::new_same_pos(Pos::zero()));
    assert_eq!(Pos::default(), Pos::zero());
    assert_eq!(Loc::default(), Loc::zero());
}

#[test]
fn new_same_pos_is_empty_span() {
    let l = Loc::new_same_pos(pos(3, 8));
    assert_eq!(l.from, pos(3, 8));
    assert_eq!(l.to, pos(3, 8));
}

#[test]
fn call_site_keeps_large_values() {
    let p = Pos::at_call_site(u32::MAX, 1);
    assert_eq!(p.line, u32::MAX as usize);
    assert_eq!(p.column, 1);
}

#[test]
fn reversed_span_is_kept() {
    let l = loc(pos(9, 9), pos(1, 1));
    assert_eq!(l.from, pos(9, 9));
    assert_eq!(l.to, pos(1, 1));
    assert_eq!(l.to_string(), "at 9:9 to 1:1");
}
