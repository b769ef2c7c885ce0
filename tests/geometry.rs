use cart_race::engine::{intersects, saturate, Key, KeyState, Line, Point, Velocity, UNIT};

fn seg(x1: i32, y1: i32, x2: i32, y2: i32) -> Line {
    Line::new(Point::new(x1 * UNIT, y1 * UNIT), Point::new(x2 * UNIT, y2 * UNIT))
}

#[test]
fn diagonals_cross() {
    assert!(intersects(&seg(0, 0, 10, 10), &seg(0, 10, 10, 0)));
}

#[test]
fn parallel_segments_do_not_cross() {
    assert!(!intersects(&seg(0, 0, 10, 0), &seg(0, 5, 10, 5)));
}

#[test]
fn crossing_is_symmetric_on_samples() {
    let samples = [
        seg(0, 0, 10, 10),
        seg(0, 10, 10, 0),
        seg(0, 0, 10, 0),
        seg(0, 5, 10, 5),
        seg(5, -5, 5, 5),
        seg(-3, 2, 7, 2),
        seg(10, 0, 10, 10),
    ];
    for a in samples.iter() {
        for b in samples.iter() {
            assert_eq!(intersects(a, b), intersects(b, a));
        }
    }
}

#[test]
fn touching_and_collinear_segments_do_not_cross() {
    // an endpoint resting on the other segment
    assert!(!intersects(&seg(0, 0, 10, 0), &seg(5, 0, 5, 10)));
    // overlapping on one line
    assert!(!intersects(&seg(0, 0, 10, 0), &seg(5, 0, 15, 0)));
    // sharing an endpoint
    assert!(!intersects(&seg(0, 0, 10, 0), &seg(10, 0, 20, 5)));
}

#[test]
fn segments_apart_do_not_cross() {
    assert!(!intersects(&seg(0, 0, 1, 1), &seg(5, 0, 6, -1)));
    assert!(intersects(&seg(5, -5, 5, 5), &seg(0, 0, 10, 0)));
}

#[test]
fn translation_subtracts_the_velocity() {
    let p = Point::new(300, 500);
    let q = p.add(Velocity { x: 20, y: 70 });
    assert_eq!(q, Point::new(280, 430));
}

#[test]
fn translation_saturates_at_the_integer_bounds() {
    let p = Point::new(i32::MIN + 5, i32::MAX - 5);
    let q = p.add(Velocity { x: 10, y: -10 });
    assert_eq!(q, Point::new(i32::MIN, i32::MAX));
    assert_eq!(saturate(i64::from(i32::MAX) + 1), i32::MAX);
    assert_eq!(saturate(-7), -7);
}

#[test]
fn key_state_records_presses_and_releases() {
    let mut keys = KeyState::new();
    assert!(!keys.is_pressed(Key::Space));
    keys.set_pressed(Key::Space);
    keys.set_pressed(Key::ArrowLeft);
    assert!(keys.is_pressed(Key::Space));
    assert!(keys.is_pressed(Key::ArrowLeft));
    assert!(!keys.is_pressed(Key::ArrowRight));
    keys.set_released(Key::Space);
    assert!(!keys.is_pressed(Key::Space));
    assert!(keys.is_pressed(Key::ArrowLeft));
}
