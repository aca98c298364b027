use arcade_shooter::data::MaybeAlive;
use arcade_shooter::data::Rectangle;

fn rect(x: i64, y: i64, w: i64, h: i64) -> Rectangle {
    Rectangle { x, y, w, h }
}

#[test]
fn overlaps_is_symmetric() {
    let a = rect(0, 0, 10_000_000, 10_000_000);
    let b = rect(5_000_000, 5_000_000, 10_000_000, 10_000_000);
    let c = rect(50_000_000, 0, 10_000_000, 10_000_000);
    assert_eq!(a.overlaps(b), b.overlaps(a));
    assert!(a.overlaps(b));
    assert_eq!(a.overlaps(c), c.overlaps(a));
    assert!(!a.overlaps(c));
}

#[test]
fn touching_edges_do_not_overlap() {
    let a = rect(0, 0, 10_000_000, 10_000_000);
    // b starts exactly where a ends on the x axis.
    let b = rect(10_000_000, 0, 10_000_000, 10_000_000);
    assert!(!a.overlaps(b));
    assert!(!b.overlaps(a));
    // Touching along the y axis.
    let c = rect(0, 10_000_000, 10_000_000, 10_000_000);
    assert!(!a.overlaps(c));
    assert!(!c.overlaps(a));
}

#[test]
fn move_inside_none_iff_too_large() {
    let parent = rect(0, 0, 100, 50);
    assert!(rect(0, 0, 101, 10).move_inside(parent).is_none());
    assert!(rect(0, 0, 10, 51).move_inside(parent).is_none());
    assert!(rect(-500, 900, 100, 50).move_inside(parent).is_some());
}

#[test]
fn move_inside_clamps_and_is_idempotent() {
    let parent = rect(0, 0, 100, 50);
    let r = rect(-20, 45, 30, 30);
    let once = r.move_inside(parent).unwrap();
    assert_eq!(once, rect(0, 20, 30, 30));
    let twice = once.move_inside(parent).unwrap();
    assert_eq!(twice, once);

    // Already inside: unchanged.
    let inside = rect(10, 10, 30, 30);
    assert_eq!(inside.move_inside(parent).unwrap(), inside);
}

#[test]
fn contains_is_closed_interval() {
    let outer = rect(0, 0, 100, 100);
    assert!(outer.contains(rect(0, 0, 100, 100)));
    assert!(outer.contains(rect(10, 10, 20, 20)));
    assert!(!outer.contains(rect(90, 90, 20, 20)));
    assert!(!outer.contains(rect(-1, 0, 10, 10)));
}

#[test]
fn with_size_center_at_center() {
    let r = Rectangle::with_size(96, 40);
    assert_eq!(r, rect(0, 0, 96, 40));
    let c = r.center_at((148, 70));
    assert_eq!(c, rect(100, 50, 96, 40));
    assert_eq!(c.center(), (148, 70));
}

#[test]
fn maybe_alive_as_option() {
    let live = MaybeAlive { alive: true, value: 7u32 };
    assert_eq!(live.as_option(), Some(7));
    let dead = MaybeAlive { alive: false, value: 7u32 };
    assert_eq!(dead.as_option(), None);
}
