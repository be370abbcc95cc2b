use exactgeo::Interval;
use exactgeo::Rat;
use exactgeo::empty_interval;
use exactgeo::interval_from_point;

fn rat(n: i64, d: i64) -> Rat {
    Rat::new(n, d)
}

fn iv(lon: i64, lod: i64, hin: i64, hid: i64) -> Interval {
    Interval { lo: rat(lon, lod), hi: rat(hin, hid) }
}

fn unit() -> Interval {
    iv(0, 1, 1, 1)
}

fn negunit() -> Interval {
    iv(-1, 1, 0, 1)
}

fn half() -> Interval {
    iv(1, 2, 1, 2)
}

// Denominator used for values near the comparison tolerance 1e-15: units
// of 1e-16.
const T: i64 = 10_000_000_000_000_000;

#[test]
fn empty() {
    assert_eq!(true, empty_interval().is_empty());
    assert_eq!(false, unit().is_empty());
    assert_eq!(false, negunit().is_empty());
    assert_eq!(false, half().is_empty());
}

#[test]
fn center() {
    assert!(unit().center().equals(rat(1, 2)));
    assert!(negunit().center().equals(rat(-1, 2)));
    assert!(half().center().equals(rat(1, 2)));
}

#[test]
fn length() {
    assert!(unit().length().equals(rat(1, 1)));
    assert!(negunit().length().equals(rat(1, 1)));
    assert!(half().length().equals(rat(0, 1)));
}

#[test]
fn interval_contains() {
    let u = unit();
    assert_eq!(true, u.contains(rat(1, 2)));
    assert_eq!(true, u.interior_contains(rat(1, 2)));
    assert_eq!(true, u.contains(rat(0, 1)));
    assert_eq!(false, u.interior_contains(rat(0, 1)));
    assert_eq!(true, u.contains(rat(1, 1)));
    assert_eq!(false, u.interior_contains(rat(1, 1)));
}

#[test]
fn interval_operations() {
    let e = empty_interval();
    let u = unit();
    let n = negunit();
    let h = half();
    let lower = iv(0, 1, 1, 2);

    // empty against empty
    assert_eq!(true, e.contains_interval(e));
    assert_eq!(true, e.interior_contains_interval(e));
    assert_eq!(false, e.intersects(e));
    assert_eq!(false, e.interior_intersects(e));

    // empty against unit
    assert_eq!(false, e.contains_interval(u));
    assert_eq!(false, e.interior_contains_interval(u));
    assert_eq!(false, e.intersects(u));
    assert_eq!(false, e.interior_intersects(u));

    // unit against half
    assert_eq!(true, u.contains_interval(h));
    assert_eq!(true, u.interior_contains_interval(h));
    assert_eq!(true, u.intersects(h));
    assert_eq!(true, u.interior_intersects(h));

    // unit against unit
    assert_eq!(true, u.contains_interval(u));
    assert_eq!(false, u.interior_contains_interval(u));
    assert_eq!(true, u.intersects(u));
    assert_eq!(true, u.interior_intersects(u));

    // unit against empty
    assert_eq!(true, u.contains_interval(e));
    assert_eq!(true, u.interior_contains_interval(e));
    assert_eq!(false, u.intersects(e));
    assert_eq!(false, u.interior_intersects(e));

    // unit against negunit
    assert_eq!(false, u.contains_interval(n));
    assert_eq!(false, u.interior_contains_interval(n));
    assert_eq!(true, u.intersects(n));
    assert_eq!(false, u.interior_intersects(n));

    // unit against the lower half range
    assert_eq!(true, u.contains_interval(lower));
    assert_eq!(false, u.interior_contains_interval(lower));
    assert_eq!(true, u.intersects(lower));
    assert_eq!(true, u.interior_intersects(lower));

    // half against the lower half range
    assert_eq!(false, h.contains_interval(lower));
    assert_eq!(false, h.interior_contains_interval(lower));
    assert_eq!(true, h.intersects(lower));
    assert_eq!(false, h.interior_intersects(lower));
}

#[test]
fn intersections() {
    let e = empty_interval();
    let u = unit();
    let n = negunit();
    let h = half();

    assert!(h.equal(u.intersection(h)));
    assert!(iv(0, 1, 0, 1).equal(u.intersection(n)));
    assert!(e.equal(n.intersection(h)));
    assert!(e.equal(u.intersection(e)));
    assert!(e.equal(e.intersection(u)));
}

#[test]
fn union() {
    let e = empty_interval();
    let u = unit();
    let n = negunit();
    let h = half();

    assert!(iv(99, 1, 100, 1).equal(iv(99, 1, 100, 1).union(e)));
    assert!(iv(99, 1, 100, 1).equal(e.union(iv(99, 1, 100, 1))));
    assert!(e.equal(iv(5, 1, 3, 1).union(iv(0, 1, -2, 1))));
    assert!(e.equal(iv(0, 1, -2, 1).union(iv(5, 1, 3, 1))));
    assert!(u.equal(u.union(u)));
    assert!(iv(-1, 1, 1, 1).equal(u.union(n)));
    assert!(iv(-1, 1, 1, 1).equal(n.union(u)));
    assert!(u.equal(h.union(u)));
}

#[test]
fn add_point() {
    let e = empty_interval();

    assert!(iv(5, 1, 5, 1).equal(e.add_point(rat(5, 1))));
    assert!(iv(-1, 1, 5, 1).equal(iv(5, 1, 5, 1).add_point(rat(-1, 1))));
    assert!(iv(-1, 1, 5, 1).equal(iv(-1, 1, 5, 1).add_point(rat(0, 1))));
    assert!(iv(-1, 1, 6, 1).equal(iv(-1, 1, 5, 1).add_point(rat(6, 1))));
}

#[test]
fn clamp_point() {
    let i = iv(1, 10, 2, 5);
    assert!(i.clamp_point(rat(3, 10)).equals(rat(3, 10)));
    assert!(i.clamp_point(rat(-7, 1)).equals(rat(1, 10)));
    assert!(i.clamp_point(rat(3, 5)).equals(rat(2, 5)));
}

#[test]
fn expended() {
    let e = empty_interval();
    let u = unit();

    assert!(e.equal(e.expanded(rat(9, 20))));
    assert!(iv(-1, 2, 3, 2).equal(u.expanded(rat(1, 2))));
    assert!(iv(1, 2, 1, 2).equal(u.expanded(rat(-1, 2))));
    assert!(e.equal(u.expanded(rat(-51, 100))));
}

#[test]
fn interval_string() {
    let i = iv(2, 1, 9, 2);
    assert_eq!("[2.0000000, 4.5000000]", i.string());
}

#[test]
fn approx_equal() {
    let e = empty_interval();
    // A displacement safely below the tolerance (9e-16) and one safely
    // above it (13e-16), in units of 1e-16.
    let s: i64 = 9;
    let b: i64 = 13;

    assert_eq!(true, e.approx_equal(e));
    assert_eq!(true, iv(0, 1, 0, 1).approx_equal(e));
    assert_eq!(true, e.approx_equal(iv(0, 1, 0, 1)));
    assert_eq!(true, iv(1, 1, 1, 1).approx_equal(e));
    assert_eq!(true, e.approx_equal(iv(1, 1, 1, 1)));
    assert_eq!(false, e.approx_equal(iv(0, 1, 1, 1)));
    assert_eq!(true, e.approx_equal(Interval { lo: rat(1, 1), hi: rat(T + 2 * s, T) }));
    assert_eq!(false, e.approx_equal(Interval { lo: rat(1, 1), hi: rat(T + 2 * b, T) }));
    assert_eq!(true, iv(1, 1, 1, 1).approx_equal(iv(1, 1, 1, 1)));
    assert_eq!(true, iv(1, 1, 1, 1).approx_equal(Interval { lo: rat(T - s, T), hi: rat(T - s, T) }));
    assert_eq!(true, iv(1, 1, 1, 1).approx_equal(Interval { lo: rat(T + s, T), hi: rat(T + s, T) }));
    assert_eq!(false, iv(1, 1, 1, 1).approx_equal(Interval { lo: rat(T - b, T), hi: rat(1, 1) }));
    assert_eq!(false, iv(1, 1, 1, 1).approx_equal(Interval { lo: rat(1, 1), hi: rat(T + b, T) }));
    assert_eq!(true, iv(1, 1, 1, 1).approx_equal(Interval { lo: rat(T - s, T), hi: rat(T + s, T) }));
    assert_eq!(false, iv(0, 1, 0, 1).approx_equal(iv(1, 1, 1, 1)));
    assert_eq!(
        true,
        Interval { lo: rat(T - s, T), hi: rat(2 * T + s, T) }.approx_equal(iv(1, 1, 2, 1))
    );
    assert_eq!(
        true,
        Interval { lo: rat(T + s, T), hi: rat(2 * T - s, T) }.approx_equal(iv(1, 1, 2, 1))
    );
    assert_eq!(
        false,
        Interval { lo: rat(T - b, T), hi: rat(2 * T + s, T) }.approx_equal(iv(1, 1, 2, 1))
    );
    assert_eq!(
        false,
        Interval { lo: rat(T + b, T), hi: rat(2 * T - s, T) }.approx_equal(iv(1, 1, 2, 1))
    );
    assert_eq!(
        false,
        Interval { lo: rat(T - s, T), hi: rat(2 * T + b, T) }.approx_equal(iv(1, 1, 2, 1))
    );
    assert_eq!(
        false,
        Interval { lo: rat(T + s, T), hi: rat(2 * T - b, T) }.approx_equal(iv(1, 1, 2, 1))
    );
}

#[test]
fn approx_equal_closed_at_tolerance() {
    // The interval comparison is closed: a displacement of exactly the
    // tolerance still counts as approximately equal.
    let exact = Interval { lo: Rat::new(T + 10, T), hi: Rat::new(T + 10, T) };
    assert_eq!(true, iv(1, 1, 1, 1).approx_equal(exact));
    let beyond = Interval { lo: Rat::new(T + 11, T), hi: Rat::new(T + 11, T) };
    assert_eq!(false, iv(1, 1, 1, 1).approx_equal(beyond));
}

#[test]
fn union_with_empty_is_identity() {
    let e = empty_interval();
    for i in [unit(), negunit(), half(), iv(3, 7, 22, 7), e] {
        assert!(i.union(e).equal(i));
        assert!(e.union(i).equal(i));
    }
}

#[test]
fn intersects_is_symmetric() {
    let cases = [empty_interval(), unit(), negunit(), half(), iv(1, 3, 5, 2), iv(7, 2, 9, 2)];
    for a in cases {
        for b in cases {
            assert_eq!(a.intersects(b), b.intersects(a));
        }
        assert_eq!(false, a.intersects(empty_interval()));
    }
}

#[test]
fn contains_itself_but_not_interior() {
    for i in [unit(), negunit(), half(), iv(2, 5, 2, 5)] {
        assert!(i.contains_interval(i));
        assert_eq!(false, i.interior_contains_interval(i));
    }
}

#[test]
fn add_point_is_idempotent() {
    let points = [rat(0, 1), rat(-3, 2), rat(7, 3)];
    for i in [empty_interval(), unit(), negunit(), half()] {
        for p in points {
            let once = i.add_point(p);
            assert!(once.contains(p));
            assert!(once.add_point(p).equal(once));
        }
    }
}

#[test]
fn scenario_intersection_single_point() {
    let res = iv(0, 1, 1, 1).intersection(iv(-1, 1, 0, 1));
    assert!(!res.is_empty());
    assert!(res.equal(iv(0, 1, 0, 1)));
}

#[test]
fn scenario_union_of_two_empties() {
    assert!(iv(5, 1, 3, 1).union(iv(0, 1, -2, 1)).is_empty());
}

#[test]
fn scenario_clamp_below_range() {
    assert!(iv(1, 10, 2, 5).clamp_point(rat(-7, 1)).equals(rat(1, 10)));
}

#[test]
fn hausdorff_distance_cases() {
    let e = empty_interval();
    let u = unit();

    assert!(e.directed_hausdorff_distance(u).unwrap().equals(rat(0, 1)));
    assert!(e.directed_hausdorff_distance(e).unwrap().equals(rat(0, 1)));
    assert!(u.directed_hausdorff_distance(e).is_none());
    assert!(iv(0, 1, 1, 1).directed_hausdorff_distance(iv(2, 1, 3, 1)).unwrap().equals(rat(2, 1)));
    assert!(iv(0, 1, 5, 1).directed_hausdorff_distance(iv(1, 1, 2, 1)).unwrap().equals(rat(3, 1)));
    assert!(iv(1, 1, 2, 1).directed_hausdorff_distance(iv(0, 1, 5, 1)).unwrap().equals(rat(0, 1)));
}

#[test]
fn from_point_is_degenerate() {
    let i = interval_from_point(rat(3, 4));
    assert!(!i.is_empty());
    assert!(i.contains(rat(3, 4)));
    assert!(i.length().equals(rat(0, 1)));
}

#[test]
fn non_canonical_empty_is_treated_as_empty() {
    let weird = iv(9, 2, 1, 3);
    assert!(weird.is_empty());
    assert!(weird.equal(empty_interval()));
    assert!(unit().contains_interval(weird));
    assert_eq!(false, unit().intersects(weird));
    assert!(unit().union(weird).equal(unit()));
}
