use cart_race::engine::{Line, Point, Velocity};
use cart_race::game::cart::{CarDirection, Cart, CartLook, CartStateMachine, CART_HEIGHT, CART_WIDTH};

fn running_cart(x: i32, y: i32, v: Velocity) -> Cart {
    let mut cart = Cart::new(Point::new(x, y), Velocity { x: 0, y: 0 });
    cart.run(v);
    cart
}

#[test]
fn direction_follows_lateral_speed_with_dead_zone() {
    // a sweep over [-1, 1] world units per tick, in hundredths
    for vx in -100..=100 {
        let expected = if vx > 10 {
            CarDirection::Right
        } else if vx < -10 {
            CarDirection::Left
        } else {
            CarDirection::Normal
        };
        assert_eq!(CarDirection::from_velocity(vx), expected, "vx = {}", vx);
        let cart = running_cart(0, 0, Velocity { x: vx, y: 0 });
        assert_eq!(cart.get_direction(), expected, "vx = {}", vx);
    }
}

#[test]
fn dead_zone_edges() {
    assert_eq!(CarDirection::from_velocity(10), CarDirection::Normal);
    assert_eq!(CarDirection::from_velocity(11), CarDirection::Right);
    assert_eq!(CarDirection::from_velocity(-10), CarDirection::Normal);
    assert_eq!(CarDirection::from_velocity(-11), CarDirection::Left);
}

#[test]
fn new_cart_is_idle_and_does_not_move() {
    let mut cart = Cart::new(Point::new(40000, 10000), Velocity { x: 80, y: 0 });
    assert!(matches!(cart.state_machine, CartStateMachine::Idle(_)));
    cart.update();
    assert_eq!(cart.get_position(), Point::new(40000, 10000));
    assert_eq!(cart.get_direction(), CarDirection::Normal);
}

#[test]
fn running_cart_moves_sideways_only() {
    let mut cart = running_cart(40000, 10000, Velocity { x: -80, y: 300 });
    assert!(matches!(cart.state_machine, CartStateMachine::Running(_)));
    assert_eq!(cart.get_position(), Point::new(40000, 10000));
    cart.update();
    assert_eq!(cart.get_position(), Point::new(39920, 10000));
    cart.update();
    assert_eq!(cart.get_position(), Point::new(39840, 10000));
    assert_eq!(cart.get_velocity(), Velocity { x: -80, y: 300 });
}

#[test]
fn knocked_cart_stays_knocked() {
    let mut cart = running_cart(40000, 10000, Velocity { x: 80, y: 300 });
    cart.knocked();
    assert!(matches!(cart.state_machine, CartStateMachine::Knocked(_)));
    cart.run(Velocity { x: -80, y: 0 });
    cart.update();
    assert!(matches!(cart.state_machine, CartStateMachine::Knocked(_)));
    assert_eq!(cart.get_position(), Point::new(40000, 10000));
    assert_eq!(cart.get_velocity(), Velocity { x: 80, y: 300 });
    assert_eq!(cart.appearance(), CartLook::Knocked);
}

#[test]
fn knocking_an_idle_cart_changes_nothing() {
    let mut cart = Cart::new(Point::new(1, 2), Velocity { x: 0, y: 0 });
    cart.knocked();
    assert!(matches!(cart.state_machine, CartStateMachine::Idle(_)));
}

#[test]
fn set_direction_overrides_facing() {
    let mut cart = running_cart(0, 0, Velocity { x: 80, y: 0 });
    assert_eq!(cart.appearance(), CartLook::Right);
    cart.set_direction(CarDirection::Normal);
    assert_eq!(cart.get_direction(), CarDirection::Normal);
    assert_eq!(cart.appearance(), CartLook::Normal);
    assert_eq!(cart.get_velocity(), Velocity { x: 80, y: 0 });
    cart.run(Velocity { x: -80, y: 0 });
    assert_eq!(cart.appearance(), CartLook::Left);
}

#[test]
fn wall_across_each_edge_is_hit() {
    let (x, y) = (40000, 10000);
    let cart = Cart::new(Point::new(x, y), Velocity { x: 0, y: 0 });
    // across the top edge
    let top = Line::new(Point::new(x, y - 1000), Point::new(x, y + 1000));
    assert!(cart.intersect(top));
    // across the right edge
    let right = Line::new(Point::new(x + CART_WIDTH - 500, y + 2000), Point::new(x + CART_WIDTH + 500, y + 2000));
    assert!(cart.intersect(right));
    // across the left edge
    let left = Line::new(Point::new(x - CART_WIDTH - 500, y - 2000), Point::new(x - CART_WIDTH + 500, y - 2000));
    assert!(cart.intersect(left));
    // beside the vehicle
    let apart = Line::new(Point::new(x + 3000, y - CART_HEIGHT), Point::new(x + 3000, y + CART_HEIGHT));
    assert!(!cart.intersect(apart));
    // no bottom edge: a wall across the right side's missing lower half
    let below_right = Line::new(Point::new(x + CART_WIDTH - 500, y - 2000), Point::new(x + CART_WIDTH + 500, y - 2000));
    assert!(!cart.intersect(below_right));
}
