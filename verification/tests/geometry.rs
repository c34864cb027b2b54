use platformer::rect::Rectangle;
use platformer::vector::Vector2D;

fn rect(x: i64, y: i64, w: i64, h: i64) -> Rectangle {
    Rectangle { x, y, w, h }
}

#[test]
fn intersects_is_symmetric_on_samples() {
    let samples = [
        (rect(0, 0, 1000, 1000), rect(500, 500, 1000, 1000)),
        (rect(0, 0, 1000, 1000), rect(1000, 0, 1000, 1000)),
        (rect(-2000, -2000, 500, 500), rect(0, 0, 1000, 1000)),
        (rect(0, 0, 0, 0), rect(0, 0, 1000, 1000)),
        (rect(100, 200, 300, 400), rect(150, 250, 10, 10)),
    ];
    for (a, b) in samples.iter() {
        assert_eq!(a.intersects(b), b.intersects(a));
    }
}

#[test]
fn touching_edges_do_not_intersect() {
    // One-unit squares sharing only the edge at x = 1 unit.
    let a = rect(0, 0, 1000, 1000);
    let b = rect(1000, 0, 1000, 1000);
    assert!(!a.intersects(&b));
    // A genuine half-unit overlap.
    let c = rect(500, 0, 1000, 1000);
    assert!(a.intersects(&c));
}

#[test]
fn contained_and_disjoint_rectangles() {
    let outer = rect(0, 0, 10000, 10000);
    let inner = rect(4000, 4000, 1000, 1000);
    assert!(outer.intersects(&inner));
    let far = rect(20000, 20000, 1000, 1000);
    assert!(!outer.intersects(&far));
}

#[test]
fn translate_offsets_origin_only() {
    let r = rect(100, 200, 300, 400).translate(50, -70);
    assert_eq!(r.x, 150);
    assert_eq!(r.y, 130);
    assert_eq!(r.w, 300);
    assert_eq!(r.h, 400);
}

#[test]
fn min_max_corners() {
    let r = rect(100, 200, 300, 400);
    let lo = r.min();
    let hi = r.max();
    assert_eq!((lo.x, lo.y), (100, 200));
    assert_eq!((hi.x, hi.y), (400, 600));
}

#[test]
fn rectangle_arrays() {
    let r = rect(100, 200, 300, 400);
    assert_eq!(r.to_array(), [100, 200, 300, 400]);
    assert_eq!(r.to_scaled_array(32), [3200, 6400, 9600, 12800]);
}

#[test]
fn vector_add_and_mul() {
    let v = Vector2D { x: 1500, y: -2500 };
    let s = v.add(Vector2D { x: 500, y: 500 });
    assert_eq!((s.x, s.y), (2000, -2000));
    // Scaling by 2.0 in fixed point.
    let d = v.mul(2000);
    assert_eq!((d.x, d.y), (3000, -5000));
    // Scaling by 0.5 truncates toward zero on both signs.
    let h = Vector2D { x: 1001, y: -1001 }.mul(500);
    assert_eq!((h.x, h.y), (500, -500));
}

#[test]
fn vector_length() {
    let v = Vector2D { x: 3000, y: 4000 };
    assert_eq!(v.len_sq(), 25_000_000);
    assert_eq!(v.len(), 5000);
    // A diagonal's length rounds down.
    assert_eq!(Vector2D { x: 1000, y: 1000 }.len(), 1414);
    assert_eq!(Vector2D { x: 0, y: 0 }.len(), 0);
}

#[test]
fn vector_to_unit() {
    let u = Vector2D { x: 3000, y: 4000 }.to_unit();
    assert_eq!((u.x, u.y), (600, 800));
    let z = Vector2D { x: 0, y: 0 }.to_unit();
    assert_eq!((z.x, z.y), (0, 0));
    let n = Vector2D { x: 0, y: -7000 }.to_unit();
    assert_eq!((n.x, n.y), (0, -1000));
}
