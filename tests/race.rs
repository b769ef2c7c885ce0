use cart_race::engine::{Key, KeyState, Line, Point, Velocity};
use cart_race::game::cart::{CartLook, CartStateMachine};
use cart_race::game::wall::{track_walls, walls_data, Wall};
use cart_race::game::{
    get_passed_time, steer, GameStage, GameStageStateMachine, Material, Piece, CART_START_X,
    CART_START_Y, STAGE_GOAL,
};

fn keys(pressed: &[Key]) -> KeyState {
    let mut k = KeyState::new();
    for key in pressed {
        k.set_pressed(*key);
    }
    k
}

fn material(m: &GameStageStateMachine) -> &Material {
    match m {
        GameStageStateMachine::Ready(s) => &s.material,
        GameStageStateMachine::Playing(s) => &s.material,
        GameStageStateMachine::GameOver(s) => &s.material,
        GameStageStateMachine::GameClear(s) => &s.material,
    }
}

fn material_mut(m: &mut GameStageStateMachine) -> &mut Material {
    match m {
        GameStageStateMachine::Ready(s) => &mut s.material,
        GameStageStateMachine::Playing(s) => &mut s.material,
        GameStageStateMachine::GameOver(s) => &mut s.material,
        GameStageStateMachine::GameClear(s) => &mut s.material,
    }
}

/// A race already under way with the given material.
fn playing(m: Material) -> GameStageStateMachine {
    let (next, sound) = GameStageStateMachine::new(m).update(&keys(&[Key::Space]), 0);
    assert!(!sound);
    assert!(matches!(next, GameStageStateMachine::Playing(_)));
    next
}

/// A fresh material whose vehicle already drives straight at `speed`.
fn driving(speed: i32, highscore: i32, start: i32) -> Material {
    let mut m = Material::new(highscore, start);
    m.cart.run(Velocity { x: 0, y: speed });
    m
}

#[test]
fn fresh_material_lays_out_the_track() {
    let m = Material::new(1234, 77);
    assert_eq!(m.highscore, 1234);
    assert_eq!(m.start_time, 77);
    assert_eq!(m.distance, 0);
    assert_eq!(m.lap_count, 0);
    assert_eq!(m.score, 0);
    assert_eq!(m.walls.len(), 32);
    assert_eq!(m.ornaments.len(), 1);
    assert_eq!(m.cart.get_position(), Point::new(CART_START_X, CART_START_Y));
    assert!(matches!(m.cart.state_machine, CartStateMachine::Idle(_)));
    let first = m.walls[0].get_line();
    assert_eq!(first, Line::new(Point::new(10000, 0), Point::new(10000, 100000)));
    let last = m.walls[31].get_line();
    assert_eq!(last, Line::new(Point::new(55000, 820000), Point::new(40000, 860000)));
    assert_eq!(walls_data().len(), 32);
    assert_eq!(track_walls().len(), 32);
}

#[test]
fn ready_waits_for_space() {
    let stage = GameStage::new();
    assert!(stage.machine.is_none());
    let mut stage = stage.initialize(3);
    match &stage.machine {
        Some(machine) => assert_eq!(material(machine).start_time, 3),
        None => panic!("no race after initialization"),
    }
    let sound = stage.update(&KeyState::new(), 10);
    assert!(!sound);
    assert!(matches!(stage.machine, Some(GameStageStateMachine::Ready(_))));
    stage.update(&keys(&[Key::Space]), 20);
    assert!(matches!(stage.machine, Some(GameStageStateMachine::Playing(_))));
}

#[test]
fn uninitialized_stage_ignores_ticks() {
    let mut stage = GameStage::new();
    assert!(!stage.update(&keys(&[Key::Space]), 0));
    assert!(stage.machine.is_none());
}

#[test]
fn steering_formulas() {
    let still = Velocity { x: 0, y: 0 };
    assert_eq!(steer(still, &keys(&[Key::ArrowUp])), Velocity { x: 0, y: 3 });
    assert_eq!(steer(Velocity { x: 0, y: 500 }, &keys(&[Key::ArrowUp])), Velocity { x: 0, y: 500 });
    assert_eq!(steer(Velocity { x: 0, y: 499 }, &keys(&[Key::ArrowUp])), Velocity { x: 0, y: 500 });
    assert_eq!(steer(Velocity { x: 0, y: 497 }, &keys(&[Key::ArrowUp])), Velocity { x: 0, y: 500 });
    assert_eq!(steer(Velocity { x: 0, y: 496 }, &keys(&[Key::ArrowUp])), Velocity { x: 0, y: 499 });
    assert_eq!(steer(Velocity { x: 0, y: 700 }, &keys(&[Key::ArrowUp])), Velocity { x: 0, y: 700 });
    assert_eq!(steer(Velocity { x: 80, y: 100 }, &keys(&[Key::ArrowDown])), Velocity { x: 0, y: 100 });
    assert_eq!(steer(still, &keys(&[Key::ArrowLeft])), Velocity { x: -80, y: 0 });
    assert_eq!(steer(still, &keys(&[Key::ArrowRight])), Velocity { x: 80, y: 0 });
    assert_eq!(steer(still, &keys(&[Key::ArrowLeft, Key::ArrowRight])), Velocity { x: 80, y: 0 });
    assert_eq!(steer(Velocity { x: 0, y: 100 }, &keys(&[Key::Space])), Velocity { x: 0, y: 94 });
    assert_eq!(steer(Velocity { x: 0, y: 3 }, &keys(&[Key::Space])), Velocity { x: 0, y: 0 });
    assert_eq!(steer(Velocity { x: 0, y: -50 }, &KeyState::new()), Velocity { x: 0, y: 0 });
}

#[test]
fn held_throttle_stops_at_the_ceiling() {
    let mut m = driving(0, 0, 0);
    m.walls.clear();
    let mut machine = playing(m);
    let throttle = keys(&[Key::ArrowUp]);
    let mut top = 0;
    for _ in 0..400 {
        machine = machine.update(&throttle, 0).0;
        let speed = material(&machine).cart.get_velocity().y;
        assert!((0..=500).contains(&speed), "speed {}", speed);
        top = top.max(speed);
    }
    assert_eq!(top, 500);
}

#[test]
fn racing_tick_moves_scenery_and_distance() {
    let mut m = driving(200, 0, 0);
    m.cart.run(Velocity { x: 80, y: 200 });
    let (next, sound) = playing(m).update(&KeyState::new(), 5);
    assert!(!sound);
    assert!(matches!(next, GameStageStateMachine::Playing(_)));
    let m = material(&next);
    assert_eq!(m.distance, 200);
    assert_eq!(m.cart.get_position(), Point::new(CART_START_X + 80, CART_START_Y));
    assert_eq!(m.walls[0].get_line(), Line::new(Point::new(10000, -200), Point::new(10000, 99800)));
    assert_eq!(m.ornaments[0].p(), Point::new(12000, 95000 - 200));
}

#[test]
fn brake_sounds_and_slows() {
    let (next, sound) = playing(driving(200, 0, 0)).update(&keys(&[Key::Space]), 5);
    assert!(sound);
    assert_eq!(material(&next).cart.get_velocity(), Velocity { x: 0, y: 194 });
}

#[test]
fn lap_rolls_over_after_ceil_goal_over_speed_ticks() {
    let speed = 499;
    let ticks = (STAGE_GOAL + speed - 1) / speed;
    assert_eq!(ticks, 902);
    let mut m = driving(speed, 0, 0);
    m.walls.clear();
    let mut machine = playing(m);
    for _ in 0..ticks - 1 {
        machine = machine.update(&KeyState::new(), 0).0;
        assert_eq!(material(&machine).lap_count, 0);
    }
    assert_eq!(material(&machine).distance, (ticks - 1) * speed);
    machine = machine.update(&KeyState::new(), 0).0;
    let m = material(&machine);
    assert!(matches!(machine, GameStageStateMachine::Playing(_)));
    assert_eq!(m.lap_count, 1);
    assert!(m.distance >= 0 && m.distance < speed);
    // the vehicle is back on the start line, at rest; the track is fresh
    assert_eq!(m.cart.get_position(), Point::new(CART_START_X, CART_START_Y));
    assert_eq!(m.cart.get_velocity(), Velocity { x: 0, y: 0 });
    assert_eq!(m.walls.len(), 32);
}

#[test]
fn speed_dividing_the_goal_needs_one_more_tick() {
    let speed = 500;
    let mut m = driving(speed, 0, 0);
    m.walls.clear();
    let mut machine = playing(m);
    for _ in 0..STAGE_GOAL / speed {
        machine = machine.update(&KeyState::new(), 0).0;
    }
    assert_eq!(material(&machine).lap_count, 0);
    assert_eq!(material(&machine).distance, STAGE_GOAL);
    machine = machine.update(&KeyState::new(), 0).0;
    assert_eq!(material(&machine).lap_count, 1);
}

fn run_three_laps(highscore: i32, start: i32, finish: i32) -> GameStageStateMachine {
    let mut m = driving(0, highscore, start);
    m.walls.clear();
    let mut machine = playing(m);
    let throttle = keys(&[Key::ArrowUp]);
    let mut laps_seen = vec![0];
    for _ in 0..10_000 {
        machine = machine.update(&throttle, finish).0;
        if !matches!(machine, GameStageStateMachine::Playing(_)) {
            break;
        }
        let m = material_mut(&mut machine);
        if *laps_seen.last().unwrap() != m.lap_count {
            laps_seen.push(m.lap_count);
        }
        m.walls.clear();
    }
    assert_eq!(laps_seen, vec![0, 1, 2]);
    machine
}

#[test]
fn third_lap_clears_the_race_with_first_best_time() {
    let machine = run_three_laps(0, 1000, 6000);
    assert!(matches!(machine, GameStageStateMachine::GameClear(_)));
    let m = material(&machine);
    assert_eq!(m.lap_count, 3);
    assert_eq!(m.score, 5000);
    assert_eq!(m.highscore, 5000);
}

#[test]
fn race_clear_keeps_the_smaller_best_time() {
    let machine = run_three_laps(4000, 1000, 6000);
    assert_eq!(material(&machine).highscore, 4000);
    assert_eq!(material(&machine).score, 5000);
    let machine = run_three_laps(9000, 1000, 6000);
    assert_eq!(material(&machine).highscore, 5000);
}

#[test]
fn wall_across_the_vehicle_ends_the_race() {
    for speed in [0, 3, 250, 499] {
        for pressed in [vec![], vec![Key::ArrowLeft], vec![Key::ArrowUp, Key::Space]] {
            let mut m = driving(speed, 0, 0);
            let (x, y) = (CART_START_X, CART_START_Y);
            m.walls.push(Wall::new(
                Point::new(x + 1500, y + 2000),
                Point::new(x + 2500, y + 2000),
                Velocity { x: 0, y: 0 },
            ));
            let (next, _) = playing(m).update(&keys(&pressed), 0);
            assert!(matches!(next, GameStageStateMachine::GameOver(_)), "speed {}", speed);
            assert_eq!(material(&next).cart.appearance(), CartLook::Knocked);
        }
    }
}

#[test]
fn wall_behind_the_vehicle_is_passed() {
    let mut m = driving(100, 0, 0);
    m.walls.clear();
    m.walls.push(Wall::new(
        Point::new(CART_START_X - 10000, 0),
        Point::new(CART_START_X + 10000, 1000),
        Velocity { x: 0, y: 0 },
    ));
    let (next, _) = playing(m).update(&KeyState::new(), 0);
    assert!(matches!(next, GameStageStateMachine::Playing(_)));
}

#[test]
fn straight_driving_on_the_track_crashes_at_the_narrowing() {
    let mut machine = playing(driving(500, 0, 0));
    let mut ticks = 0;
    while matches!(machine, GameStageStateMachine::Playing(_)) && ticks < 5000 {
        machine = machine.update(&KeyState::new(), 0).0;
        ticks += 1;
    }
    assert!(matches!(machine, GameStageStateMachine::GameOver(_)));
    assert!(material(&machine).distance < STAGE_GOAL);
}

#[test]
fn restart_after_crash_keeps_best_time() {
    let mut m = driving(100, 4321, 0);
    m.lap_count = 2;
    m.distance = 1000;
    m.cart.knocked();
    let over = GameStageStateMachine::GameOver(cart_race::game::GameStageState {
        _state: cart_race::game::GameOver,
        material: m,
    });
    let (same, sound) = over.update(&KeyState::new(), 50);
    assert!(!sound);
    assert!(matches!(same, GameStageStateMachine::GameOver(_)));
    let (ready, _) = same.update(&keys(&[Key::Space]), 50);
    assert!(matches!(ready, GameStageStateMachine::Ready(_)));
    let m = material(&ready);
    assert_eq!(m.highscore, 4321);
    assert_eq!(m.lap_count, 0);
    assert_eq!(m.distance, 0);
    assert_eq!(m.start_time, 50);
    assert!(matches!(m.cart.state_machine, CartStateMachine::Idle(_)));
}

#[test]
fn restart_after_finish_keeps_best_time() {
    let machine = run_three_laps(0, 1000, 6000);
    let (ready, _) = machine.update(&keys(&[Key::Space]), 7000);
    assert!(matches!(ready, GameStageStateMachine::Ready(_)));
    let m = material(&ready);
    assert_eq!(m.highscore, 5000);
    assert_eq!(m.lap_count, 0);
    assert_eq!(m.distance, 0);
    assert_eq!(m.score, 0);
}

#[test]
fn passed_time_text() {
    assert_eq!(get_passed_time(&12345), "12.345");
    assert_eq!(get_passed_time(&5), "00.05");
    assert_eq!(get_passed_time(&0), "00.00");
    assert_eq!(get_passed_time(&1005), "01.05");
    assert_eq!(get_passed_time(&60000), "60.00");
    assert_eq!(get_passed_time(&-1500), "-1.-500");
    assert_eq!(get_passed_time(&i32::MAX), "2147483.647");
}
