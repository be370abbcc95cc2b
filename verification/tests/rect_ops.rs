use exactgeo::Interval;
use exactgeo::Point;
use exactgeo::Rat;
use exactgeo::Rect;
use exactgeo::empty_rect;
use exactgeo::rect_from_center_size;
use exactgeo::rect_from_points;

fn rat(n: i64, d: i64) -> Rat {
    Rat::new(n, d)
}

fn pt(x: i64, y: i64) -> Point {
    Point { x: rat(x, 1), y: rat(y, 1) }
}

fn iv(lon: i64, hin: i64) -> Interval {
    Interval { lo: rat(lon, 1), hi: rat(hin, 1) }
}

fn rect(xlo: i64, xhi: i64, ylo: i64, yhi: i64) -> Rect {
    Rect { x: iv(xlo, xhi), y: iv(ylo, yhi) }
}

fn rect_equal(a: Rect, b: Rect) -> bool {
    a.x.equal(b.x) && a.y.equal(b.y)
}

#[test]
fn empty_rect_is_valid_and_empty() {
    let e = empty_rect();
    assert!(e.is_valid());
    assert!(e.x.is_empty());
    assert!(e.y.is_empty());
}

#[test]
fn from_points_empty_list_is_origin_box() {
    let pts: Vec<Point> = vec![];
    let r = rect_from_points(&pts);
    assert!(r.is_valid());
    assert!(rect_equal(r, rect(0, 0, 0, 0)));
    assert!(!r.x.is_empty());
}

#[test]
fn from_points_bounding_box() {
    let pts = vec![pt(1, 2), pt(-1, 5), pt(0, 0)];
    let r = rect_from_points(&pts);
    assert!(r.is_valid());
    assert!(rect_equal(r, rect(-1, 1, 0, 5)));
    for p in &pts {
        assert!(r.contains_point(*p));
    }
}

#[test]
fn from_points_is_always_valid() {
    let lists: [&[Point]; 4] = [
        &[],
        &[pt(3, 3)],
        &[pt(0, 0), pt(0, 0)],
        &[pt(-2, 7), pt(9, -4), pt(1, 1), pt(9, 7)],
    ];
    for pts in lists {
        assert!(rect_from_points(pts).is_valid());
    }
}

#[test]
fn scenario_from_center_size() {
    let r = rect_from_center_size(pt(0, 0), pt(2, 2));
    assert!(rect_equal(r, rect(-1, 1, -1, 1)));

    let shifted = rect_from_center_size(
        Point { x: rat(1, 2), y: rat(3, 1) },
        Point { x: rat(1, 1), y: rat(2, 1) },
    );
    assert!(rect_equal(shifted, Rect {
        x: Interval { lo: rat(0, 1), hi: rat(1, 1) },
        y: Interval { lo: rat(2, 1), hi: rat(4, 1) },
    }));
}

#[test]
fn vertices_are_counter_clockwise() {
    let r = rect(0, 2, 1, 3);
    let v = r.vertices();
    assert_eq!(v[0], pt(0, 1));
    assert_eq!(v[1], pt(2, 1));
    assert_eq!(v[2], pt(2, 3));
    assert_eq!(v[3], pt(0, 3));
}

#[test]
fn vertex_selection_by_index() {
    let r = rect(0, 2, 1, 3);
    assert_eq!(r.vertex_i_j(0, 0), pt(0, 1));
    assert_eq!(r.vertex_i_j(1, 0), pt(2, 1));
    assert_eq!(r.vertex_i_j(0, 1), pt(0, 3));
    assert_eq!(r.vertex_i_j(1, 1), pt(2, 3));
}

#[test]
fn corner_and_measure_accessors() {
    let r = rect(0, 2, 1, 5);
    assert_eq!(r.lo(), pt(0, 1));
    assert_eq!(r.hi(), pt(2, 5));
    let c = r.center();
    assert!(c.x.equals(rat(1, 1)));
    assert!(c.y.equals(rat(3, 1)));
    let s = r.size();
    assert!(s.x.equals(rat(2, 1)));
    assert!(s.y.equals(rat(4, 1)));
}

#[test]
fn point_membership() {
    let r = rect(0, 2, 0, 2);
    assert!(r.contains_point(pt(1, 1)));
    assert!(r.contains_point(pt(0, 2)));
    assert!(!r.contains_point(pt(3, 1)));
    assert!(r.interior_contains_point(pt(1, 1)));
    assert!(!r.interior_contains_point(pt(0, 1)));
}

#[test]
fn rect_containment_and_overlap() {
    let outer = rect(0, 10, 0, 10);
    let inner = rect(2, 3, 2, 3);
    let across = rect(5, 15, 5, 15);
    let apart = rect(20, 30, 20, 30);

    assert!(outer.contains(inner));
    assert!(outer.interior_contains(inner));
    assert!(!inner.contains(outer));
    assert!(outer.intersects(across));
    assert!(outer.interior_intersects(across));
    assert!(!outer.intersects(apart));
    assert!(outer.contains(empty_rect()));
    assert!(!outer.intersects(empty_rect()));
}

#[test]
fn add_point_grows_box() {
    let r = rect(0, 1, 0, 1).add_point(pt(4, -2));
    assert!(rect_equal(r, rect(0, 4, -2, 1)));
    let from_empty = empty_rect().add_point(pt(3, 3));
    assert!(rect_equal(from_empty, rect(3, 3, 3, 3)));
}

#[test]
fn add_rect_covers_both() {
    let r = rect(0, 1, 0, 1).add_rect(rect(2, 3, -1, 0));
    assert!(rect_equal(r, rect(0, 3, -1, 1)));
}

#[test]
fn union_and_validity() {
    let a = rect(0, 1, 0, 1);
    let b = rect(2, 3, 2, 3);
    let u = a.union(b);
    assert!(rect_equal(u, rect(0, 3, 0, 3)));
    assert!(u.is_valid());
    assert!(rect_equal(a.union(empty_rect()), a));
    assert!(rect_equal(empty_rect().union(b), b));
    assert!(a.union(empty_rect()).is_valid());
}

#[test]
fn intersection_and_validity() {
    let a = rect(0, 2, 0, 2);
    let b = rect(1, 3, 1, 3);
    let meet = a.intersection(b);
    assert!(rect_equal(meet, rect(1, 2, 1, 2)));
    assert!(meet.is_valid());

    // Overlapping on x alone collapses to the canonical empty rectangle.
    let off = rect(1, 3, 5, 9);
    let gone = a.intersection(off);
    assert!(gone.is_valid());
    assert!(gone.x.is_empty());
    assert!(gone.y.is_empty());

    assert!(a.intersection(empty_rect()).is_valid());
    assert!(empty_rect().intersection(a).is_valid());
}

#[test]
fn clamp_point_projects_into_box() {
    let r = rect(0, 2, 0, 2);
    let c = r.clamp_point(pt(5, -1));
    assert!(c.x.equals(rat(2, 1)));
    assert!(c.y.equals(rat(0, 1)));
    let inside = r.clamp_point(pt(1, 1));
    assert!(inside.x.equals(rat(1, 1)));
    assert!(inside.y.equals(rat(1, 1)));
}

#[test]
fn expanded_per_axis_and_collapse() {
    let r = rect(0, 2, 0, 2);
    let grown = r.expanded(Point { x: rat(1, 2), y: rat(1, 4) });
    assert!(grown.x.equal(Interval { lo: rat(-1, 2), hi: rat(5, 2) }));
    assert!(grown.y.equal(Interval { lo: rat(-1, 4), hi: rat(9, 4) }));
    assert!(grown.is_valid());

    // Shrinking one axis past itself collapses the whole rectangle.
    let collapsed = r.expanded(Point { x: rat(-3, 2), y: rat(0, 1) });
    assert!(collapsed.is_valid());
    assert!(collapsed.x.is_empty());
    assert!(collapsed.y.is_empty());

    let still_empty = empty_rect().expanded(Point { x: rat(1, 1), y: rat(1, 1) });
    assert!(still_empty.is_valid());
    assert!(still_empty.x.is_empty());
}

#[test]
fn expanded_by_margin_is_uniform() {
    let r = rect(0, 2, 0, 2).expanded_by_margin(rat(1, 1));
    assert!(rect_equal(r, rect(-1, 3, -1, 3)));
}

#[test]
fn rect_approx_equal_cases() {
    let a = rect(0, 1, 0, 1);
    assert!(a.approx_equal(a));
    assert!(!a.approx_equal(rect(0, 1, 0, 2)));
    assert!(empty_rect().approx_equal(empty_rect()));
}

#[test]
fn rect_string_rendering() {
    let r = rect(1, 2, 3, 4);
    assert_eq!(
        "[lo(1.000000000000, 3.000000000000), hi(2.000000000000, 4.000000000000)]",
        r.string()
    );
}
