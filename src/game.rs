//! Moving pieces of the track and the race state machine.
pub mod cart;
pub mod ornament;
pub mod rival_cart;
pub mod wall;

use crate::engine::{clamp_i32, saturate, translated, Key, KeyState, Line, Point, Velocity, UNIT};
use cart::{
    cart_hits, lemma_wall_behind_is_missed, wall_behind, CarDirection, Cart, CartContext,
    CartState, CartStateMachine, Idle,
};
use ornament::{initial_ornaments, initial_ornaments_spec, Ornament};
use vstd::prelude::*;
use wall::{track_walls, track_walls_spec, Wall};

verus! {

/// The two ends of a piece and the velocity it scrolls by.
#[derive(Clone, Copy, Debug, PartialEq, Eq, Structural)]
pub struct Context {
    pub p: Point,
    pub q: Point,
    pub velocity: Velocity,
}

impl Context {
    fn run(self, velocity: Velocity) -> (r: Context)
        ensures
            r == (Context { velocity, ..self }),
    {
        Context { velocity, ..self }
    }
}

/// State tag: a piece is always running.
#[derive(Clone, Copy, Debug, PartialEq, Eq, Structural)]
pub struct Running;

/// A piece's context in the state named by `S`.
#[derive(Clone, Copy, Debug, PartialEq, Eq, Structural)]
pub struct State<S> {
    pub context: Context,
    pub _state: S,
}

impl<S> State<S> {
    pub fn context(&self) -> (r: &Context)
        ensures
            *r == self.context,
    {
        &self.context
    }
}

impl State<Running> {
    pub fn new(p: Point, q: Point, velocity: Velocity) -> (r: State<Running>)
        ensures
            r == (State { context: Context { p, q, velocity }, _state: Running }),
    {
        State { context: Context { p, q, velocity }, _state: Running }
    }

    /// Moves both ends by the velocity, in the scrolling convention.
    pub fn update(self) -> (r: State<Running>)
        ensures
            r == (State {
                context: Context {
                    p: translated(self.context.p, self.context.velocity),
                    q: translated(self.context.q, self.context.velocity),
                    velocity: self.context.velocity,
                },
                _state: Running,
            }),
    {
        let mut s = self;
        s.context.p = s.context.p.add(s.context.velocity);
        s.context.q = s.context.q.add(s.context.velocity);
        s
    }

    /// Replaces the velocity; the piece stays where it is.
    pub fn run(self, velocity: Velocity) -> (r: State<Running>)
        ensures
            r == (State { context: Context { velocity, ..self.context }, _state: Running }),
    {
        State { context: self.context.run(velocity), _state: Running }
    }
}

/// What can happen to a piece.
#[derive(Clone, Copy, Debug, PartialEq, Eq, Structural)]
pub enum Event {
    Run(Velocity),
    Update,
}

/// A piece's state machine, with its one state.
#[derive(Clone, Copy, Debug, PartialEq, Eq, Structural)]
pub enum StateMachine {
    Running(State<Running>),
}

/// A running piece with ends `p`, `q` and velocity `velocity`.
pub open spec fn running_piece(p: Point, q: Point, velocity: Velocity) -> StateMachine {
    StateMachine::Running(State { context: Context { p, q, velocity }, _state: Running })
}

impl StateMachine {
    pub open spec fn spec_context(self) -> Context {
        match self {
            StateMachine::Running(s) => s.context,
        }
    }

    /// The segment between the piece's ends.
    pub open spec fn line(self) -> Line {
        Line { p: self.spec_context().p, q: self.spec_context().q }
    }

    /// After `run(v)`: same ends, velocity `v`.
    pub open spec fn after_run(self, v: Velocity) -> StateMachine {
        running_piece(self.spec_context().p, self.spec_context().q, v)
    }

    /// After one tick: both ends moved back by the velocity, so the segment
    /// keeps its length and orientation.
    pub open spec fn after_update(self) -> StateMachine {
        let c = self.spec_context();
        running_piece(translated(c.p, c.velocity), translated(c.q, c.velocity), c.velocity)
    }

    pub fn transition(self, event: Event) -> (r: StateMachine)
        ensures
            r == match event {
                Event::Run(v) => self.after_run(v),
                Event::Update => self.after_update(),
            },
    {
        match (self, event) {
            (StateMachine::Running(state), Event::Run(velocity)) => StateMachine::Running(
                state.run(velocity),
            ),
            (StateMachine::Running(state), Event::Update) => StateMachine::Running(state.update()),
        }
    }

    pub fn context(&self) -> (r: &Context)
        ensures
            *r == self.spec_context(),
    {
        match self {
            StateMachine::Running(state) => state.context(),
        }
    }

    pub fn update(self) -> (r: StateMachine)
        ensures
            r == self.after_update(),
    {
        self.transition(Event::Update)
    }
}

/// A segment that scrolls with the track: walls and decorations.
pub trait Piece: Sized {
    /// The piece's state machine.
    spec fn machine(&self) -> StateMachine;

    fn new(p: Point, q: Point, velocity: Velocity) -> (r: Self)
        ensures
            r.machine() == running_piece(p, q, velocity),
    ;

    fn get_state_machine(&self) -> (r: StateMachine)
        ensures
            r == self.machine(),
    ;

    fn set_state_machine(&mut self, state_machine: StateMachine)
        ensures
            final(self).machine() == state_machine,
    ;

    /// One tick: both ends move back by the velocity.
    fn update(&mut self)
        ensures
            final(self).machine() == old(self).machine().after_update(),
    {
        let state_machine = self.get_state_machine();
        self.set_state_machine(state_machine.update());
    }

    /// Replaces the velocity.
    fn run(&mut self, velocity: Velocity)
        ensures
            final(self).machine() == old(self).machine().after_run(velocity),
    {
        let from = self.get_state_machine();
        self.set_state_machine(from.transition(Event::Run(velocity)));
    }

    fn get_line(&self) -> (r: Line)
        ensures
            r == self.machine().line(),
    {
        let state_machine = self.get_state_machine();
        let context = state_machine.context();
        Line::new(context.p, context.q)
    }

    fn p(&self) -> (r: Point)
        ensures
            r == self.machine().spec_context().p,
    {
        self.get_state_machine().context().p
    }

    fn q(&self) -> (r: Point)
        ensures
            r == self.machine().spec_context().q,
    {
        self.get_state_machine().context().q
    }
}

/// Width of the visible field.
pub const CANVAS_WIDTH: i32 = 800 * UNIT;

/// Height of the visible field.
pub const CANVAS_HEIGHT: i32 = 1000 * UNIT;

/// Where the vehicle starts across the track.
pub const CART_START_X: i32 = 400 * UNIT;

/// The start line: the height at which the vehicle sits on screen.
pub const CART_START_Y: i32 = 100 * UNIT;

/// Left edge of the track.
pub const STAGE_LEFT: i32 = 100 * UNIT;

/// Length of one lap.
pub const STAGE_GOAL: i32 = 4500 * UNIT;

/// Laps that finish the race.
pub const LAPS_TO_CLEAR: i32 = 3;

/// Lateral speed while steering (0.8 units per tick).
pub const VELOCITY_X: i32 = 80;

/// Forward speed gained per tick of throttle (0.03 units per tick).
pub const VELOCITY_STEP: i32 = 3;

/// Forward speed lost per tick of braking (0.06 units per tick).
pub const VELOCITY_BRAKE_STEP: i32 = 6;

/// Throttle adds speed only below this (5 units per tick).
pub const VELOCITY_LIMIT: i32 = 5 * UNIT;

/// Everything a race carries from tick to tick.
pub struct Material {
    pub start_time: i32,
    pub distance: i32,
    pub highscore: i32,
    pub score: i32,
    pub cart: Cart,
    pub ornaments: Vec<Ornament>,
    pub walls: Vec<Wall>,
    pub lap_count: i32,
}

/// The contents of a [`Material`], with its collections as sequences.
pub struct MaterialView {
    pub start_time: i32,
    pub distance: i32,
    pub highscore: i32,
    pub score: i32,
    pub cart: Cart,
    pub ornaments: Seq<Ornament>,
    pub walls: Seq<Wall>,
    pub lap_count: i32,
}

impl View for Material {
    type V = MaterialView;

    open spec fn view(&self) -> MaterialView {
        MaterialView {
            start_time: self.start_time,
            distance: self.distance,
            highscore: self.highscore,
            score: self.score,
            cart: self.cart,
            ornaments: self.ornaments@,
            walls: self.walls@,
            lap_count: self.lap_count,
        }
    }
}

/// An idle vehicle at `position`, standing still and facing ahead.
pub open spec fn idle_cart(position: Point) -> Cart {
    Cart {
        state_machine: CartStateMachine::Idle(
            CartState {
                context: CartContext {
                    position,
                    velocity: Velocity { x: 0, y: 0 },
                    direction: CarDirection::Normal,
                },
                _state: Idle,
            },
        ),
    }
}

/// A race about to start: nothing travelled, no lap done, no score, the
/// vehicle idle at the start, the track fresh.
pub open spec fn fresh_material(highscore: i32, start_time: i32) -> MaterialView {
    MaterialView {
        start_time,
        distance: 0,
        highscore,
        score: 0,
        cart: idle_cart(Point { x: CART_START_X, y: CART_START_Y }),
        ornaments: initial_ornaments_spec(),
        walls: track_walls_spec(),
        lap_count: 0,
    }
}

/// Time from `start_time` to `now`, in milliseconds.
pub open spec fn elapsed(now: i32, start_time: i32) -> i32 {
    clamp_i32(now - start_time)
}

/// The best time once a race of `time` is done; a best time of zero means
/// that none was recorded yet.
pub open spec fn best_time(best: i32, time: i32) -> i32 {
    if best != 0 && best < time {
        best
    } else {
        time
    }
}

/// Distance travelled after one more tick at `speed`.
pub open spec fn advanced_distance(distance: i32, speed: i32) -> i32 {
    clamp_i32(distance + speed)
}

/// One more tick at `speed` goes past the end of the lap.
pub open spec fn completes_lap(distance: i32, speed: i32) -> bool {
    advanced_distance(distance, speed) > STAGE_GOAL
}

/// The lap distance after one tick at `speed`: back to zero on a new lap.
pub open spec fn next_distance(distance: i32, speed: i32) -> i32 {
    if completes_lap(distance, speed) {
        0
    } else {
        advanced_distance(distance, speed)
    }
}

pub open spec fn cart_speed(cart: Cart) -> i32 {
    cart.state_machine.spec_context().velocity.y
}

pub open spec fn cart_position(cart: Cart) -> Point {
    cart.state_machine.spec_context().position
}

/// First step of a racing tick: travel, and on a finished lap count it, put
/// the vehicle back on the start line at rest and lay the track out afresh.
pub open spec fn after_lap_check(m: MaterialView) -> MaterialView {
    let speed = cart_speed(m.cart);
    if completes_lap(m.distance, speed) {
        MaterialView {
            distance: 0,
            lap_count: clamp_i32(m.lap_count + 1),
            cart: idle_cart(Point { x: cart_position(m.cart).x, y: CART_START_Y }),
            ornaments: initial_ornaments_spec(),
            walls: track_walls_spec(),
            ..m
        }
    } else {
        MaterialView { distance: advanced_distance(m.distance, speed), ..m }
    }
}

/// This tick finishes the last lap.
pub open spec fn race_cleared(m: MaterialView) -> bool {
    completes_lap(m.distance, cart_speed(m.cart)) && clamp_i32(m.lap_count + 1) >= LAPS_TO_CLEAR
}

/// The finished race: best time and score recorded.
pub open spec fn cleared_material(m: MaterialView, now: i32) -> MaterialView {
    let l = after_lap_check(m);
    let time = elapsed(now, l.start_time);
    MaterialView { highscore: best_time(l.highscore, time), score: time, ..l }
}

/// The velocity that the held keys make of `v`: throttle up to the limit
/// (never past it), straighten, steer left or right, brake; never backwards.
pub open spec fn steered(v: Velocity, keys: KeyState) -> Velocity {
    let y1: int = if keys.arrow_up && v.y < VELOCITY_LIMIT {
        if v.y + VELOCITY_STEP > VELOCITY_LIMIT {
            VELOCITY_LIMIT as int
        } else {
            v.y + VELOCITY_STEP
        }
    } else {
        v.y as int
    };
    let x1: int = if keys.arrow_down {
        0
    } else {
        v.x as int
    };
    let x2: int = if keys.arrow_left {
        -VELOCITY_X
    } else {
        x1
    };
    let x3: int = if keys.arrow_right {
        VELOCITY_X as int
    } else {
        x2
    };
    let y2: int = if keys.space {
        y1 - VELOCITY_BRAKE_STEP
    } else {
        y1
    };
    Velocity {
        x: x3 as i32,
        y: (if y2 < 0 {
            0
        } else {
            y2
        }) as i32,
    }
}

/// The velocity that the held keys make of `velocity`.
pub fn steer(velocity: Velocity, keys: &KeyState) -> (r: Velocity)
    ensures
        r == steered(velocity, *keys),
        0 <= velocity.y <= VELOCITY_LIMIT ==> 0 <= r.y <= VELOCITY_LIMIT,
{
    let mut x: i32 = velocity.x;
    let mut y: i64 = velocity.y as i64;
    if keys.is_pressed(Key::ArrowUp) && velocity.y < VELOCITY_LIMIT {
        y = y + VELOCITY_STEP as i64;
        if y > VELOCITY_LIMIT as i64 {
            y = VELOCITY_LIMIT as i64;
        }
    }
    if keys.is_pressed(Key::ArrowDown) {
        x = 0;
    }
    if keys.is_pressed(Key::ArrowLeft) {
        x = -VELOCITY_X;
    }
    if keys.is_pressed(Key::ArrowRight) {
        x = VELOCITY_X;
    }
    if keys.is_pressed(Key::Space) {
        y = y - VELOCITY_BRAKE_STEP as i64;
    }
    if y < 0 {
        y = 0;
    }
    Velocity { x, y: y as i32 }
}

/// The vehicle driven by the held keys: straightening also faces it ahead.
pub open spec fn driven_cart(cart: Cart, keys: KeyState) -> Cart {
    let v = steered(cart.state_machine.spec_context().velocity, keys);
    let m = if keys.arrow_down {
        cart.state_machine.with_direction(CarDirection::Normal)
    } else {
        cart.state_machine
    };
    Cart { state_machine: m.after_run(v) }
}

/// The velocity by which the scenery scrolls under a vehicle of speed `vy`.
pub open spec fn scroll_velocity(vy: i32) -> Velocity {
    Velocity { x: 0, y: vy }
}

pub open spec fn walls_run(walls: Seq<Wall>, vy: i32) -> Seq<Wall> {
    walls.map_values(|w: Wall| Wall { state_machine: w.state_machine.after_run(scroll_velocity(vy)) })
}

pub open spec fn ornaments_run(ornaments: Seq<Ornament>, vy: i32) -> Seq<Ornament> {
    ornaments.map_values(
        |o: Ornament| Ornament { state_machine: o.state_machine.after_run(scroll_velocity(vy)) },
    )
}

pub open spec fn walls_moved(walls: Seq<Wall>) -> Seq<Wall> {
    walls.map_values(|w: Wall| Wall { state_machine: w.state_machine.after_update() })
}

pub open spec fn ornaments_moved(ornaments: Seq<Ornament>) -> Seq<Ornament> {
    ornaments.map_values(|o: Ornament| Ornament { state_machine: o.state_machine.after_update() })
}

/// Second step of a racing tick: the keys set the vehicle's velocity and
/// the scenery takes its forward speed.
pub open spec fn driven(m: MaterialView, keys: KeyState) -> MaterialView {
    let vy = steered(m.cart.state_machine.spec_context().velocity, keys).y;
    MaterialView {
        cart: driven_cart(m.cart, keys),
        ornaments: ornaments_run(m.ornaments, vy),
        walls: walls_run(m.walls, vy),
        ..m
    }
}

/// Some wall touches a vehicle at `pos`. The tick's test passes over walls
/// that lie wholly behind the vehicle's rear, which have been driven past;
/// `lemma_wall_behind_is_missed` shows that this leaves the outcome as
/// stated here.
pub open spec fn hits_any_wall(pos: Point, walls: Seq<Wall>) -> bool {
    exists|i: int| 0 <= i < walls.len() && cart_hits(pos, #[trigger] walls[i].state_machine.line())
}

/// The crashed race: the vehicle is knocked where it stands.
pub open spec fn crashed(m: MaterialView) -> MaterialView {
    MaterialView { cart: Cart { state_machine: m.cart.state_machine.after_knock() }, ..m }
}

/// Last step of a racing tick: vehicle and scenery move.
pub open spec fn moved(m: MaterialView) -> MaterialView {
    MaterialView {
        cart: Cart { state_machine: m.cart.state_machine.after_update() },
        ornaments: ornaments_moved(m.ornaments),
        walls: walls_moved(m.walls),
        ..m
    }
}

/// How a racing tick ends.
#[derive(Clone, Copy, Debug, PartialEq, Eq, Structural)]
pub enum RaceOutcome {
    Continue,
    GameOver,
    GameClear,
}

/// One racing tick: how it ends, the material after it, and whether the
/// brake sound is due.
pub open spec fn playing_step(m: MaterialView, keys: KeyState, now: i32) -> (
    RaceOutcome,
    MaterialView,
    bool,
) {
    if race_cleared(m) {
        (RaceOutcome::GameClear, cleared_material(m, now), false)
    } else {
        let d = driven(after_lap_check(m), keys);
        if hits_any_wall(cart_position(d.cart), d.walls) {
            (RaceOutcome::GameOver, crashed(d), keys.space)
        } else {
            (RaceOutcome::Continue, moved(d), keys.space)
        }
    }
}

impl Material {
    /// A race about to start at time `now`, keeping `highscore`.
    pub fn new(highscore: i32, now: i32) -> (r: Material)
        ensures
            r@ == fresh_material(highscore, now),
    {
        Material {
            start_time: now,
            distance: 0,
            highscore,
            score: 0,
            cart: Cart::new(Point::new(CART_START_X, CART_START_Y), Velocity { x: 0, y: 0 }),
            ornaments: initial_ornaments(),
            walls: track_walls(),
            lap_count: 0,
        }
    }

    /// A fresh race at time `now` that keeps the best time of `material`.
    pub fn reset(material: Material, now: i32) -> (r: Material)
        ensures
            r@ == fresh_material(material.highscore, now),
    {
        Material::new(material.highscore, now)
    }

    fn lap_check(&mut self) -> (lapped: bool)
        ensures
            final(self)@ == after_lap_check(old(self)@),
            lapped == completes_lap(old(self).distance, cart_speed(old(self).cart)),
    {
        let speed = self.cart.get_velocity().y;
        self.distance = saturate(self.distance as i64 + speed as i64);
        if self.distance > STAGE_GOAL {
            self.lap_count = saturate(self.lap_count as i64 + 1);
            self.distance = 0;
            let position = self.cart.get_position();
            self.cart = Cart::new(Point::new(position.x, CART_START_Y), Velocity { x: 0, y: 0 });
            self.walls = track_walls();
            self.ornaments = initial_ornaments();
            true
        } else {
            false
        }
    }

    fn drive(&mut self, keys: &KeyState)
        ensures
            final(self)@ == driven(old(self)@, *keys),
    {
        let velocity = steer(self.cart.get_velocity(), keys);
        if keys.is_pressed(Key::ArrowDown) {
            self.cart.set_direction(CarDirection::Normal);
        }
        self.cart.run(velocity);
        let scroll = Velocity { x: 0, y: velocity.y };
        let ghost ornaments0 = self.ornaments@;
        let ghost m1 = self@;
        let mut i: usize = 0;
        while i < self.ornaments.len()
            invariant
                scroll == scroll_velocity(velocity.y),
                self@ == (MaterialView { ornaments: self.ornaments@, ..m1 }),
                self.ornaments@.len() == ornaments0.len(),
                i <= ornaments0.len(),
                forall|j: int|
                    0 <= j < i ==> #[trigger] self.ornaments@[j] == ornaments_run(
                        ornaments0,
                        velocity.y,
                    )[j],
                forall|j: int| i <= j < ornaments0.len() ==> #[trigger] self.ornaments@[j] == ornaments0[j],
            decreases ornaments0.len() - i,
        {
            self.ornaments[i].run(scroll);
            i = i + 1;
        }
        assert(self.ornaments@ =~= ornaments_run(ornaments0, velocity.y));
        let ghost walls0 = self.walls@;
        let ghost m2 = self@;
        let mut i: usize = 0;
        while i < self.walls.len()
            invariant
                scroll == scroll_velocity(velocity.y),
                self@ == (MaterialView { walls: self.walls@, ..m2 }),
                self.walls@.len() == walls0.len(),
                i <= walls0.len(),
                forall|j: int|
                    0 <= j < i ==> #[trigger] self.walls@[j] == walls_run(walls0, velocity.y)[j],
                forall|j: int| i <= j < walls0.len() ==> #[trigger] self.walls@[j] == walls0[j],
            decreases walls0.len() - i,
        {
            self.walls[i].run(scroll);
            i = i + 1;
        }
        assert(self.walls@ =~= walls_run(walls0, velocity.y));
    }

    /// Whether some wall touches the vehicle. Walls wholly behind the
    /// vehicle's rear are passed over: they cannot touch it.
    fn cart_crashes(&self) -> (r: bool)
        ensures
            r == hits_any_wall(cart_position(self.cart), self.walls@),
    {
        let position = self.cart.get_position();
        let mut i: usize = 0;
        while i < self.walls.len()
            invariant
                i <= self.walls@.len(),
                position == cart_position(self.cart),
                forall|j: int|
                    0 <= j < i ==> !cart_hits(position, #[trigger] self.walls@[j].state_machine.line()),
            decreases self.walls@.len() - i,
        {
            let line = self.walls[i].get_line();
            let rear = saturate(position.y as i64 - cart::CART_HEIGHT as i64);
            if line.p.y < rear && line.q.y < rear {
                proof {
                    assert(wall_behind(position, line));
                    lemma_wall_behind_is_missed(position, line);
                }
            } else if self.cart.intersect(line) {
                return true;
            }
            i = i + 1;
        }
        false
    }

    fn advance(&mut self)
        ensures
            final(self)@ == moved(old(self)@),
    {
        self.cart.update();
        let ghost ornaments0 = self.ornaments@;
        let ghost m1 = self@;
        let mut i: usize = 0;
        while i < self.ornaments.len()
            invariant
                self@ == (MaterialView { ornaments: self.ornaments@, ..m1 }),
                self.ornaments@.len() == ornaments0.len(),
                i <= ornaments0.len(),
                forall|j: int|
                    0 <= j < i ==> #[trigger] self.ornaments@[j] == ornaments_moved(ornaments0)[j],
                forall|j: int| i <= j < ornaments0.len() ==> #[trigger] self.ornaments@[j] == ornaments0[j],
            decreases ornaments0.len() - i,
        {
            self.ornaments[i].update();
            i = i + 1;
        }
        assert(self.ornaments@ =~= ornaments_moved(ornaments0));
        let ghost walls0 = self.walls@;
        let ghost m2 = self@;
        let mut i: usize = 0;
        while i < self.walls.len()
            invariant
                self@ == (MaterialView { walls: self.walls@, ..m2 }),
                self.walls@.len() == walls0.len(),
                i <= walls0.len(),
                forall|j: int| 0 <= j < i ==> #[trigger] self.walls@[j] == walls_moved(walls0)[j],
                forall|j: int| i <= j < walls0.len() ==> #[trigger] self.walls@[j] == walls0[j],
            decreases walls0.len() - i,
        {
            self.walls[i].update();
            i = i + 1;
        }
        assert(self.walls@ =~= walls_moved(walls0));
    }
}

/// The best time once a race of `time` is done.
fn best_of(best: i32, time: i32) -> (r: i32)
    ensures
        r == best_time(best, time),
{
    if best != 0 && best < time {
        best
    } else {
        time
    }
}

/// Race tag: waiting for the start.
#[derive(Clone, Copy, Debug, PartialEq, Eq, Structural)]
pub struct Ready;

/// Race tag: racing.
#[derive(Clone, Copy, Debug, PartialEq, Eq, Structural)]
pub struct Playing;

/// Race tag: crashed.
#[derive(Clone, Copy, Debug, PartialEq, Eq, Structural)]
pub struct GameOver;

/// Race tag: all laps done.
#[derive(Clone, Copy, Debug, PartialEq, Eq, Structural)]
pub struct GameClear;

/// The race's material in the state named by `T`.
pub struct GameStageState<T> {
    pub _state: T,
    pub material: Material,
}

/// How a tick in the Ready state ends.
pub enum ReadyEndState {
    Complete(GameStageState<Playing>),
    Continue(GameStageState<Ready>),
}

/// How a racing tick ends.
pub enum RunningEndState {
    Continue(GameStageState<Playing>),
    GameOver(GameStageState<GameOver>),
    GameClear(GameStageState<GameClear>),
}

impl RunningEndState {
    pub open spec fn outcome(self) -> (RaceOutcome, MaterialView) {
        match self {
            RunningEndState::Continue(s) => (RaceOutcome::Continue, s.material@),
            RunningEndState::GameOver(s) => (RaceOutcome::GameOver, s.material@),
            RunningEndState::GameClear(s) => (RaceOutcome::GameClear, s.material@),
        }
    }
}

/// How a tick after a crash ends.
pub enum GameOverEndState {
    Continue(GameStageState<GameOver>),
    Complete(GameStageState<Ready>),
}

/// How a tick after the finish ends.
pub enum GameClearEndState {
    Continue(GameStageState<GameClear>),
    Complete(GameStageState<Ready>),
}

impl GameStageState<Ready> {
    pub fn new(material: Material) -> (r: GameStageState<Ready>)
        ensures
            r.material@ == material@,
    {
        GameStageState { _state: Ready, material }
    }

    /// Starts the race with the material as it is.
    pub fn start_running(self) -> (r: GameStageState<Playing>)
        ensures
            r.material@ == self.material@,
    {
        GameStageState { _state: Playing, material: self.material }
    }

    /// Space starts the race; otherwise nothing happens.
    pub fn update(self, keys: &KeyState) -> (r: ReadyEndState)
        ensures
            match r {
                ReadyEndState::Complete(s) => keys.space && s.material@ == self.material@,
                ReadyEndState::Continue(s) => !keys.space && s.material@ == self.material@,
            },
    {
        if keys.is_pressed(Key::Space) {
            ReadyEndState::Complete(self.start_running())
        } else {
            ReadyEndState::Continue(self)
        }
    }
}

impl GameStageState<Playing> {
    /// One racing tick at time `now`: travel and count laps, steer, scroll,
    /// test for a crash, move. Also says whether the brake sound is due.
    pub fn update(self, keys: &KeyState, now: i32) -> (r: (RunningEndState, bool))
        ensures
            (r.0.outcome().0, r.0.outcome().1, r.1) == playing_step(self.material@, *keys, now),
    {
        let mut material = self.material;
        let ghost m0 = material@;
        let lapped = material.lap_check();
        if lapped && material.lap_count >= LAPS_TO_CLEAR {
            let time = saturate(now as i64 - material.start_time as i64);
            material.highscore = best_of(material.highscore, time);
            material.score = time;
            proof {
                assert(material@ == cleared_material(m0, now));
            }
            return (RunningEndState::GameClear(GameStageState { _state: GameClear, material }), false);
        }
        material.drive(keys);
        let brake = keys.is_pressed(Key::Space);
        if material.cart_crashes() {
            material.cart.knocked();
            proof {
                assert(material@ == crashed(driven(after_lap_check(m0), *keys)));
            }
            return (RunningEndState::GameOver(GameStageState { _state: GameOver, material }), brake);
        }
        material.advance();
        (RunningEndState::Continue(GameStageState { _state: Playing, material }), brake)
    }
}

impl GameStageState<GameOver> {
    /// Space begins a fresh race that keeps the best time.
    pub fn update(self, keys: &KeyState, now: i32) -> (r: GameOverEndState)
        ensures
            match r {
                GameOverEndState::Complete(s) => keys.space && s.material@ == fresh_material(
                    self.material.highscore,
                    now,
                ),
                GameOverEndState::Continue(s) => !keys.space && s.material@ == self.material@,
            },
    {
        if keys.is_pressed(Key::Space) {
            GameOverEndState::Complete(self.new_game(now))
        } else {
            GameOverEndState::Continue(self)
        }
    }

    /// A fresh race at time `now` that keeps the best time.
    pub fn new_game(self, now: i32) -> (r: GameStageState<Ready>)
        ensures
            r.material@ == fresh_material(self.material.highscore, now),
    {
        GameStageState { _state: Ready, material: Material::reset(self.material, now) }
    }
}

impl GameStageState<GameClear> {
    /// Space begins a fresh race that keeps the best time.
    pub fn update(self, keys: &KeyState, now: i32) -> (r: GameClearEndState)
        ensures
            match r {
                GameClearEndState::Complete(s) => keys.space && s.material@ == fresh_material(
                    self.material.highscore,
                    now,
                ),
                GameClearEndState::Continue(s) => !keys.space && s.material@ == self.material@,
            },
    {
        if keys.is_pressed(Key::Space) {
            GameClearEndState::Complete(self.new_game(now))
        } else {
            GameClearEndState::Continue(self)
        }
    }

    /// A fresh race at time `now` that keeps the best time.
    pub fn new_game(self, now: i32) -> (r: GameStageState<Ready>)
        ensures
            r.material@ == fresh_material(self.material.highscore, now),
    {
        GameStageState { _state: Ready, material: Material::reset(self.material, now) }
    }
}

/// The race state machine.
pub enum GameStageStateMachine {
    Ready(GameStageState<Ready>),
    Playing(GameStageState<Playing>),
    GameOver(GameStageState<GameOver>),
    GameClear(GameStageState<GameClear>),
}

impl GameStageStateMachine {
    /// The material, whatever the state.
    pub open spec fn spec_material(self) -> MaterialView {
        match self {
            GameStageStateMachine::Ready(s) => s.material@,
            GameStageStateMachine::Playing(s) => s.material@,
            GameStageStateMachine::GameOver(s) => s.material@,
            GameStageStateMachine::GameClear(s) => s.material@,
        }
    }

    /// `next` and `sound` are what one tick at time `now` with `keys` held
    /// makes of `self`.
    pub open spec fn steps_to(self, keys: KeyState, now: i32, next: Self, sound: bool) -> bool {
        match self {
            GameStageStateMachine::Ready(s) => !sound && next.spec_material() == s.material@ && (
            if keys.space {
                next is Playing
            } else {
                next is Ready
            }),
            GameStageStateMachine::Playing(s) => {
                let (o, m, snd) = playing_step(s.material@, keys, now);
                sound == snd && next.spec_material() == m && match o {
                    RaceOutcome::Continue => next is Playing,
                    RaceOutcome::GameOver => next is GameOver,
                    RaceOutcome::GameClear => next is GameClear,
                }
            },
            GameStageStateMachine::GameOver(s) => !sound && if keys.space {
                next is Ready && next.spec_material() == fresh_material(s.material.highscore, now)
            } else {
                next is GameOver && next.spec_material() == s.material@
            },
            GameStageStateMachine::GameClear(s) => !sound && if keys.space {
                next is Ready && next.spec_material() == fresh_material(s.material.highscore, now)
            } else {
                next is GameClear && next.spec_material() == s.material@
            },
        }
    }

    /// A machine in the Ready state with `material`.
    pub fn new(material: Material) -> (r: GameStageStateMachine)
        ensures
            r is Ready,
            r.spec_material() == material@,
    {
        GameStageStateMachine::Ready(GameStageState::new(material))
    }

    /// One tick at time `now` with `keys` held; also says whether the brake
    /// sound is due.
    pub fn update(self, keys: &KeyState, now: i32) -> (r: (GameStageStateMachine, bool))
        ensures
            self.steps_to(*keys, now, r.0, r.1),
    {
        match self {
            GameStageStateMachine::Ready(state) => match state.update(keys) {
                ReadyEndState::Complete(s) => (GameStageStateMachine::Playing(s), false),
                ReadyEndState::Continue(s) => (GameStageStateMachine::Ready(s), false),
            },
            GameStageStateMachine::Playing(state) => {
                let (end, sound) = state.update(keys, now);
                match end {
                    RunningEndState::Continue(s) => (GameStageStateMachine::Playing(s), sound),
                    RunningEndState::GameOver(s) => (GameStageStateMachine::GameOver(s), sound),
                    RunningEndState::GameClear(s) => (GameStageStateMachine::GameClear(s), sound),
                }
            },
            GameStageStateMachine::GameOver(state) => match state.update(keys, now) {
                GameOverEndState::Complete(s) => (GameStageStateMachine::Ready(s), false),
                GameOverEndState::Continue(s) => (GameStageStateMachine::GameOver(s), false),
            },
            GameStageStateMachine::GameClear(state) => match state.update(keys, now) {
                GameClearEndState::Complete(s) => (GameStageStateMachine::Ready(s), false),
                GameClearEndState::Continue(s) => (GameStageStateMachine::GameClear(s), false),
            },
        }
    }
}

/// The game: no race until it is initialized.
pub struct GameStage {
    pub machine: Option<GameStageStateMachine>,
}

impl GameStage {
    pub fn new() -> (r: GameStage)
        ensures
            r.machine is None,
    {
        GameStage { machine: None }
    }

    /// The game waiting for its first race, started at time `now`, with no
    /// best time yet.
    pub fn initialize(&self, now: i32) -> (r: GameStage)
        ensures
            r.machine matches Some(m) && m is Ready && m.spec_material() == fresh_material(0, now),
    {
        GameStage { machine: Some(GameStageStateMachine::new(Material::new(0, now))) }
    }

    /// One tick at time `now` with `keys` held; says whether the brake sound
    /// is due. Before initialization nothing happens.
    pub fn update(&mut self, keys: &KeyState, now: i32) -> (sound: bool)
        ensures
            match old(self).machine {
                None => final(self).machine is None && !sound,
                Some(m) => final(self).machine matches Some(n) && m.steps_to(*keys, now, n, sound),
            },
    {
        match self.machine.take() {
            Some(machine) => {
                let (next, sound) = machine.update(keys, now);
                self.machine = Some(next);
                sound
            },
            None => false,
        }
    }
}

/// The decimal digit `d`.
pub open spec fn digit_char(d: int) -> char {
    seq!['0', '1', '2', '3', '4', '5', '6', '7', '8', '9'][d]
}

/// The decimal digits of `n`, most significant first, without leading zeros.
pub open spec fn decimal_digits(n: nat) -> Seq<char>
    decreases n,
{
    if n < 10 {
        seq![digit_char(n as int)]
    } else {
        decimal_digits(n / 10).push(digit_char((n % 10) as int))
    }
}

/// `n` in decimal, zero-padded to two characters after its sign.
pub open spec fn two_digit_text(n: int) -> Seq<char> {
    if n < 0 {
        seq!['-'] + decimal_digits((-n) as nat)
    } else if n < 10 {
        seq!['0'] + decimal_digits(n as nat)
    } else {
        decimal_digits(n as nat)
    }
}

/// Whole seconds of `ms` milliseconds, rounded towards zero.
pub open spec fn whole_seconds(ms: int) -> int {
    if ms >= 0 {
        ms / 1000
    } else {
        -((-ms) / 1000)
    }
}

/// Milliseconds left over after the whole seconds, with the sign of `ms`.
pub open spec fn leftover_millis(ms: int) -> int {
    if ms >= 0 {
        ms % 1000
    } else {
        -((-ms) % 1000)
    }
}

/// A time of `ms` milliseconds as shown to the player: seconds, a point,
/// then the leftover milliseconds, each at least two digits.
pub open spec fn passed_time_text(ms: int) -> Seq<char> {
    two_digit_text(whole_seconds(ms)) + seq!['.'] + two_digit_text(leftover_millis(ms))
}

fn digit_text(d: u32) -> (r: &'static str)
    requires
        d < 10,
    ensures
        r@ == seq![digit_char(d as int)],
{
    proof {
        reveal_strlit("0");
        reveal_strlit("1");
        reveal_strlit("2");
        reveal_strlit("3");
        reveal_strlit("4");
        reveal_strlit("5");
        reveal_strlit("6");
        reveal_strlit("7");
        reveal_strlit("8");
        reveal_strlit("9");
    }
    let r = match d {
        0 => "0",
        1 => "1",
        2 => "2",
        3 => "3",
        4 => "4",
        5 => "5",
        6 => "6",
        7 => "7",
        8 => "8",
        _ => "9",
    };
    assert(r@ =~= seq![digit_char(d as int)]);
    r
}

fn push_decimal(out: &mut String, n: u32)
    ensures
        final(out)@ == old(out)@ + decimal_digits(n as nat),
    decreases n,
{
    if n >= 10 {
        push_decimal(out, n / 10);
    }
    out.append(digit_text(n % 10));
    assert(final(out)@ =~= old(out)@ + decimal_digits(n as nat));
}

fn push_two_digits(out: &mut String, n: i64)
    requires
        -0x1_0000_0000 < n < 0x1_0000_0000,
    ensures
        final(out)@ == old(out)@ + two_digit_text(n as int),
{
    proof {
        reveal_strlit("-");
        reveal_strlit("0");
    }
    if n < 0 {
        out.append("-");
        push_decimal(out, (-n) as u32);
    } else {
        if n < 10 {
            out.append("0");
        }
        push_decimal(out, n as u32);
    }
    assert(final(out)@ =~= old(out)@ + two_digit_text(n as int));
}

/// A time of `secondtime` milliseconds as text, such as `12.345` or `00.05`.
pub fn get_passed_time(secondtime: &i32) -> (r: String)
    ensures
        r@ == passed_time_text(*secondtime as int),
{
    let t = *secondtime as i64;
    let magnitude: i64 = if t < 0 {
        -t
    } else {
        t
    };
    let mut seconds: i64 = magnitude / 1000;
    let mut millis: i64 = magnitude % 1000;
    if t < 0 {
        seconds = -seconds;
        millis = -millis;
    }
    proof {
        reveal_strlit(".");
    }
    let mut text = String::new();
    push_two_digits(&mut text, seconds);
    text.append(".");
    push_two_digits(&mut text, millis);
    assert(text@ =~= passed_time_text(*secondtime as int));
    text
}

/// No key held.
pub open spec fn no_keys() -> KeyState {
    KeyState {
        space: false,
        arrow_up: false,
        arrow_down: false,
        arrow_left: false,
        arrow_right: false,
    }
}

/// The material after `k` racing ticks with no key held.
pub open spec fn race_after(m: MaterialView, now: i32, k: nat) -> MaterialView
    decreases k,
{
    if k == 0 {
        m
    } else {
        playing_step(race_after(m, now, (k - 1) as nat), no_keys(), now).1
    }
}

/// Ticks at constant `speed` that complete a lap from its start: the
/// smallest count whose distance goes past the goal.
pub open spec fn ticks_to_lap(speed: int) -> int {
    STAGE_GOAL as int / speed + 1
}

proof fn lemma_ticks_to_lap(v: int)
    requires
        0 < v,
        STAGE_GOAL as int % v != 0,
    ensures
        ticks_to_lap(v) == (STAGE_GOAL + v - 1) / v,
        (ticks_to_lap(v) - 1) * v <= STAGE_GOAL,
        ticks_to_lap(v) * v > STAGE_GOAL,
{
    let g = STAGE_GOAL as int;
    let q = g / v;
    let r = g % v;
    assert(g == q * v + r && 0 < r < v) by {
        vstd::arithmetic::div_mod::lemma_fundamental_div_mod(g, v);
    }
    assert(g + v - 1 == (q + 1) * v + (r - 1)) by (nonlinear_arith)
        requires
            g == q * v + r,
    ;
    vstd::arithmetic::div_mod::lemma_div_multiples_vanish_fancy(q + 1, r - 1, v);
    assert((q + 1) * v > g) by (nonlinear_arith)
        requires
            g == q * v + r,
            r < v,
    ;
}

proof fn lemma_steady_speed(m: MaterialView, now: i32)
    requires
        cart_speed(m.cart) > 0,
        !race_cleared(m),
        playing_step(m, no_keys(), now).0 != RaceOutcome::GameOver,
        !completes_lap(m.distance, cart_speed(m.cart)),
    ensures
        playing_step(m, no_keys(), now).0 == RaceOutcome::Continue,
        cart_speed(playing_step(m, no_keys(), now).1.cart) == cart_speed(m.cart),
        playing_step(m, no_keys(), now).1.distance == advanced_distance(m.distance, cart_speed(m.cart)),
        playing_step(m, no_keys(), now).1.lap_count == m.lap_count,
{
    let v = m.cart.state_machine.spec_context().velocity;
    assert(steered(v, no_keys()) == v);
}

proof fn lemma_steady_run(m: MaterialView, now: i32, k: nat)
    requires
        m.distance == 0,
        cart_speed(m.cart) > 0,
        STAGE_GOAL % cart_speed(m.cart) != 0,
        k < ticks_to_lap(cart_speed(m.cart) as int),
        forall|j: nat|
            j < ticks_to_lap(cart_speed(m.cart) as int) ==> #[trigger] playing_step(
                race_after(m, now, j),
                no_keys(),
                now,
            ).0 != RaceOutcome::GameOver,
    ensures
        race_after(m, now, k).distance == k * cart_speed(m.cart),
        race_after(m, now, k).lap_count == m.lap_count,
        cart_speed(race_after(m, now, k).cart) == cart_speed(m.cart),
    decreases k,
{
    let v = cart_speed(m.cart) as int;
    lemma_ticks_to_lap(v);
    if k > 0 {
        let j = (k - 1) as nat;
        lemma_steady_run(m, now, j);
        let prev = race_after(m, now, j);
        assert(k * v <= STAGE_GOAL) by (nonlinear_arith)
            requires
                k <= ticks_to_lap(v) - 1,
                (ticks_to_lap(v) - 1) * v <= STAGE_GOAL,
                v > 0,
        ;
        assert(j * v + v == k * v) by (nonlinear_arith)
            requires
                j + 1 == k,
        ;
        assert(playing_step(prev, no_keys(), now).0 != RaceOutcome::GameOver);
        assert(race_after(m, now, k) == playing_step(prev, no_keys(), now).1);
        assert(prev.distance + cart_speed(prev.cart) == k * v);
        assert(!completes_lap(prev.distance, cart_speed(prev.cart)));
        lemma_steady_speed(prev, now);
        assert(advanced_distance(prev.distance, cart_speed(prev.cart)) == k * v);
    } else {
        assert(k * v == 0) by (nonlinear_arith)
            requires
                k == 0,
        ;
    }
}

/// Lap rollover: from the start of a lap at constant speed `v` (no key
/// held, no crash on the way), the lap count stays put for the first
/// `ceil(goal / v) - 1` ticks and goes up by one on tick `ceil(goal / v)`,
/// when the distance is back in `[0, v)`. A speed that divides the goal
/// exactly reaches it without passing it and needs one tick more, so it is
/// left out.
pub proof fn lemma_lap_rollover(m: MaterialView, now: i32)
    requires
        m.distance == 0,
        cart_speed(m.cart) > 0,
        STAGE_GOAL % cart_speed(m.cart) != 0,
        forall|j: nat|
            j < ticks_to_lap(cart_speed(m.cart) as int) ==> #[trigger] playing_step(
                race_after(m, now, j),
                no_keys(),
                now,
            ).0 != RaceOutcome::GameOver,
    ensures
        ticks_to_lap(cart_speed(m.cart) as int) == (STAGE_GOAL + cart_speed(m.cart) - 1)
            / cart_speed(m.cart) as int,
        forall|k: nat|
            k < ticks_to_lap(cart_speed(m.cart) as int) ==> #[trigger] race_after(
                m,
                now,
                k,
            ).lap_count == m.lap_count,
        race_after(m, now, ticks_to_lap(cart_speed(m.cart) as int) as nat).lap_count == clamp_i32(
            m.lap_count + 1,
        ),
        0 <= race_after(m, now, ticks_to_lap(cart_speed(m.cart) as int) as nat).distance
            < cart_speed(m.cart),
{
    let v = cart_speed(m.cart) as int;
    let n = ticks_to_lap(v);
    lemma_ticks_to_lap(v);
    assert forall|k: nat| k < n implies #[trigger] race_after(m, now, k).lap_count == m.lap_count by {
        lemma_steady_run(m, now, k);
    }
    let j = (n - 1) as nat;
    lemma_steady_run(m, now, j);
    let prev = race_after(m, now, j);
    assert(j * v + v > STAGE_GOAL) by (nonlinear_arith)
        requires
            j + 1 == n,
            n * v > STAGE_GOAL,
    ;
    assert(completes_lap(prev.distance, cart_speed(prev.cart)));
}

/// Lap counting and the finish: a tick that completes a lap adds exactly
/// one to the count and restarts the distance; the lap that brings the
/// count to three ends the race, with the best time now the smaller of the
/// previous best (when there was one) and this race's time.
pub proof fn lemma_lap_count_and_clear(m: MaterialView, keys: KeyState, now: i32)
    requires
        0 <= m.lap_count < LAPS_TO_CLEAR,
        completes_lap(m.distance, cart_speed(m.cart)),
    ensures
        playing_step(m, keys, now).1.lap_count == m.lap_count + 1,
        playing_step(m, keys, now).1.distance == 0,
        (playing_step(m, keys, now).0 == RaceOutcome::GameClear) <==> (m.lap_count + 1
            == LAPS_TO_CLEAR),
        m.lap_count + 1 == LAPS_TO_CLEAR ==> playing_step(m, keys, now).1.highscore == (if m.highscore
            != 0 && m.highscore < elapsed(now, m.start_time) {
            m.highscore
        } else {
            elapsed(now, m.start_time)
        }),
        m.lap_count + 1 == LAPS_TO_CLEAR ==> playing_step(m, keys, now).1.score == elapsed(
            now,
            m.start_time,
        ),
{
}

/// A crash ends the race: when a wall crosses one of the vehicle's edges
/// and the tick does not finish a lap (which would lay the track out
/// afresh), the tick ends in GameOver with the vehicle knocked, whatever
/// the velocity and the keys.
pub proof fn lemma_crossing_wall_ends_race(m: MaterialView, keys: KeyState, now: i32, i: int)
    requires
        !completes_lap(m.distance, cart_speed(m.cart)),
        0 <= i < m.walls.len(),
        cart_hits(cart_position(m.cart), m.walls[i].state_machine.line()),
    ensures
        playing_step(m, keys, now).0 == RaceOutcome::GameOver,
        playing_step(m, keys, now).1.cart.state_machine is Knocked,
{
    let d = driven(after_lap_check(m), keys);
    assert(d.walls[i].state_machine.line() == m.walls[i].state_machine.line());
    assert(cart_position(d.cart) == cart_position(m.cart));
    assert(hits_any_wall(cart_position(d.cart), d.walls));
}

/// Restart: from GameOver or GameClear, Space gives a Ready race with the
/// same best time, no lap done and nothing travelled.
pub proof fn lemma_restart_keeps_best_time(
    m: GameStageStateMachine,
    keys: KeyState,
    now: i32,
    next: GameStageStateMachine,
    sound: bool,
)
    requires
        m is GameOver || m is GameClear,
        keys.space,
        m.steps_to(keys, now, next, sound),
    ensures
        next is Ready,
        next.spec_material().highscore == m.spec_material().highscore,
        next.spec_material().lap_count == 0,
        next.spec_material().distance == 0,
{
}

/// Speed bounds: a racing tick keeps a forward speed that lies between zero
/// and the ceiling within those bounds, whatever keys are held. Throttle
/// stops at the ceiling, braking at zero, and a new lap starts at rest.
pub proof fn lemma_speed_stays_within_limit(m: MaterialView, keys: KeyState, now: i32)
    requires
        0 <= cart_speed(m.cart) <= VELOCITY_LIMIT,
    ensures
        0 <= cart_speed(playing_step(m, keys, now).1.cart) <= VELOCITY_LIMIT,
{
    let l = after_lap_check(m);
    let v = l.cart.state_machine.spec_context().velocity;
    assert(0 <= v.y <= VELOCITY_LIMIT);
    assert(0 <= steered(v, keys).y <= VELOCITY_LIMIT);
}

} // verus!
