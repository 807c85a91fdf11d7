use draw2d_types::DrawMode;
use draw2d_types::FilterMode;
use draw2d_types::Point2;
use draw2d_types::Rect;
use draw2d_types::Vector2;
use draw2d_types::UNIT;

#[test]
fn test_rect_scaling() {
    let r1 = Rect::new_i32(0, 0, 128, 128);
    let r2 = Rect::fraction(0, 0, 32 * UNIT, 32 * UNIT, &r1);
    assert_eq!(r2, Rect::new(0, 0, UNIT / 4, UNIT / 4));

    let r2 = Rect::fraction(32 * UNIT, 32 * UNIT, 32 * UNIT, 32 * UNIT, &r1);
    assert_eq!(r2, Rect::new(UNIT / 4, UNIT / 4, UNIT / 4, UNIT / 4));
}

#[test]
fn test_rect_contains() {
    let r = Rect::new_i32(0, 0, 128, 128);
    println!("{} {} {} {}", r.top(), r.bottom(), r.left(), r.right());
    let p = Point2::new(UNIT, UNIT);
    assert!(r.contains(p));

    let p = Point2::new(500 * UNIT, 0);
    assert!(!r.contains(p));
}

#[test]
fn test_rect_overlaps() {
    let r1 = Rect::new_i32(0, 0, 128, 128);
    let r2 = Rect::new_i32(0, 0, 64, 64);
    assert!(r1.overlaps(&r2));

    let r2 = Rect::new_i32(100, 0, 128, 128);
    assert!(r1.overlaps(&r2));

    let r2 = Rect::new_i32(500, 0, 64, 64);
    assert!(!r1.overlaps(&r2));
}

#[test]
fn test_rect_transform() {
    let mut r1 = Rect::new_i32(0, 0, 64, 64);
    let r2 = Rect::new_i32(64, 64, 64, 64);
    r1.translate(Vector2::new(64 * UNIT, 64 * UNIT));
    assert!(r1 == r2);

    let mut r1 = Rect::new_i32(0, 0, 64, 64);
    let r2 = Rect::new_i32(0, 0, 128, 128);
    r1.scale(2 * UNIT, 2 * UNIT);
    assert!(r1 == r2);

    let mut r1 = Rect::new_i32(32, 32, 64, 64);
    let r2 = Rect::new_i32(64, 64, 64, 64);
    r1.move_to(Point2::new(64 * UNIT, 64 * UNIT));
    assert!(r1 == r2);
}

#[test]
fn test_contains_boundary() {
    let r = Rect::new_i32(0, 0, 128, 128);
    assert!(r.contains(Point2::new(0, 0)));
    assert!(r.contains(Point2::new(128 * UNIT, 0)));
    assert!(!r.contains(Point2::new(129 * UNIT, 0)));
    assert!(r.contains(Point2::new(0, 128 * UNIT)));
    assert!(!r.contains(Point2::new(0, 128 * UNIT + 1)));
    assert!(!r.contains(Point2::new(-1, 0)));
}

#[test]
fn test_overlaps_boundary() {
    let a = Rect::new_i32(0, 0, 10, 10);
    let b = Rect::new_i32(10, 0, 10, 10);
    assert!(a.overlaps(&b));
    assert!(b.overlaps(&a));

    let c = Rect::new(10 * UNIT + 1, 0, 10 * UNIT, 10 * UNIT);
    assert!(!a.overlaps(&c));
    assert!(!c.overlaps(&a));
}

#[test]
fn test_fraction_truncates_toward_zero() {
    let reference = Rect::new_i32(0, 0, 3, 3);
    let f = Rect::fraction(UNIT, -UNIT, UNIT, UNIT, &reference);
    // 65536 / 3 is 21845.33..; the quotient truncates toward zero on
    // both signs.
    assert_eq!(f.x, 21845);
    assert_eq!(f.y, -21845);
    assert_eq!(f.w, 21845);
    assert_eq!(f.h, 21845);
}

#[test]
fn test_scale_truncates_toward_zero() {
    let mut r = Rect::new(0, 0, 5, -5);
    r.scale(UNIT / 2, UNIT / 2);
    assert_eq!(r.w, 2);
    assert_eq!(r.h, -2);
}

#[test]
fn test_rect_constructors_and_edges() {
    assert_eq!(Rect::zero(), Rect::new(0, 0, 0, 0));
    assert_eq!(Rect::one(), Rect::new(0, 0, UNIT, UNIT));

    let r = Rect::new_i32(1, 2, 3, 4);
    assert_eq!(r, Rect::new(UNIT, 2 * UNIT, 3 * UNIT, 4 * UNIT));
    assert_eq!(r.left(), UNIT);
    assert_eq!(r.top(), 2 * UNIT);
    assert_eq!(r.right(), 4 * UNIT);
    assert_eq!(r.bottom(), 6 * UNIT);
    assert_eq!(r.point(), Point2::new(UNIT, 2 * UNIT));
}

#[test]
fn test_rect_array_round_trip() {
    let r = Rect::new(1, -2, 3, -4);
    let a = r.to_array();
    assert_eq!(a, [1, -2, 3, -4]);
    assert_eq!(Rect::from_array(a), r);
}

#[test]
fn test_negative_extent_edges() {
    // A negative width is permitted and leaves right() left of left();
    // nothing normalizes it.
    let r = Rect::new_i32(10, 10, -4, -6);
    assert_eq!(r.right(), 6 * UNIT);
    assert_eq!(r.bottom(), 4 * UNIT);
    assert!(!r.contains(Point2::new(10 * UNIT, 10 * UNIT)));
}

#[test]
fn test_modes() {
    let line = DrawMode::Line(2 * UNIT);
    assert!(matches!(line, DrawMode::Line(w) if w == 2 * UNIT));
    assert_eq!(DrawMode::Fill, DrawMode::Fill);
    assert_ne!(FilterMode::Linear, FilterMode::Nearest);
}
