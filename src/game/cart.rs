//! The player's vehicle: an Idle / Running / Knocked state machine.
use crate::engine::{
    clamp_i32, cross, intersects, saturate, segments_cross, straddles, Line, Point, Velocity, UNIT,
};
use vstd::prelude::*;

verus! {

/// Half of the vehicle's width, used by the collision edges.
pub const CART_WIDTH: i32 = 20 * UNIT;

/// Length of the vehicle's side edges.
pub const CART_HEIGHT: i32 = 50 * UNIT;

/// Lateral speeds up to this magnitude (a tenth of a unit) leave the vehicle
/// facing ahead.
pub const DIRECTION_DEAD_ZONE: i32 = 10;

/// Where the vehicle faces.
#[derive(Clone, Copy, Debug, PartialEq, Eq, Structural)]
pub enum CarDirection {
    Normal,
    Left,
    Right,
}

/// The facing that a lateral velocity `vx` gives.
pub open spec fn direction_for(vx: int) -> CarDirection {
    if vx < -DIRECTION_DEAD_ZONE {
        CarDirection::Left
    } else if vx > DIRECTION_DEAD_ZONE {
        CarDirection::Right
    } else {
        CarDirection::Normal
    }
}

impl CarDirection {
    /// The facing for lateral velocity `vx`, with a dead zone around zero.
    pub fn from_velocity(vx: i32) -> (r: CarDirection)
        ensures
            r == direction_for(vx as int),
            vx > DIRECTION_DEAD_ZONE ==> r == CarDirection::Right,
            vx < -DIRECTION_DEAD_ZONE ==> r == CarDirection::Left,
            -DIRECTION_DEAD_ZONE <= vx <= DIRECTION_DEAD_ZONE ==> r == CarDirection::Normal,
    {
        if vx < -DIRECTION_DEAD_ZONE {
            CarDirection::Left
        } else if vx > DIRECTION_DEAD_ZONE {
            CarDirection::Right
        } else {
            CarDirection::Normal
        }
    }
}

/// Position, velocity and facing of the vehicle.
#[derive(Clone, Copy, Debug, PartialEq, Eq, Structural)]
pub struct CartContext {
    pub position: Point,
    pub velocity: Velocity,
    pub direction: CarDirection,
}

impl CartContext {
    /// The context with velocity `v` and the facing that it gives.
    pub open spec fn with_velocity(self, v: Velocity) -> CartContext {
        CartContext { velocity: v, direction: direction_for(v.x as int), ..self }
    }

    /// The context after one tick of lateral motion.
    pub open spec fn moved(self) -> CartContext {
        CartContext {
            position: Point {
                x: clamp_i32(self.position.x + self.velocity.x),
                y: self.position.y,
            },
            ..self
        }
    }

    fn new(position: Point, velocity: Velocity) -> (r: CartContext)
        ensures
            r == (CartContext { position, velocity, direction: CarDirection::Normal }),
    {
        CartContext { position, velocity, direction: CarDirection::Normal }
    }

    fn run(self, velocity: Velocity) -> (r: CartContext)
        ensures
            r == self.with_velocity(velocity),
    {
        CartContext { velocity, direction: CarDirection::from_velocity(velocity.x), ..self }
    }
}

/// State tag: standing at the start line.
#[derive(Clone, Copy, Debug, PartialEq, Eq, Structural)]
pub struct Idle;

/// State tag: driving.
#[derive(Clone, Copy, Debug, PartialEq, Eq, Structural)]
pub struct Running;

/// State tag: crashed into a wall.
#[derive(Clone, Copy, Debug, PartialEq, Eq, Structural)]
pub struct Knocked;

/// The vehicle's context in the state named by `S`.
#[derive(Clone, Copy, Debug, PartialEq, Eq, Structural)]
pub struct CartState<S> {
    pub context: CartContext,
    pub _state: S,
}

impl<S> CartState<S> {
    pub fn context(&self) -> (r: &CartContext)
        ensures
            *r == self.context,
    {
        &self.context
    }
}

impl CartState<Idle> {
    pub fn new(position: Point, velocity: Velocity) -> (r: CartState<Idle>)
        ensures
            r == (CartState {
                context: CartContext { position, velocity, direction: CarDirection::Normal },
                _state: Idle,
            }),
    {
        CartState { context: CartContext::new(position, velocity), _state: Idle }
    }

    /// An idle vehicle does not move.
    pub fn update(self) -> (r: CartState<Idle>)
        ensures
            r == self,
    {
        self
    }

    pub fn run(self, velocity: Velocity) -> (r: CartState<Running>)
        ensures
            r == (CartState { context: self.context.with_velocity(velocity), _state: Running }),
    {
        CartState { context: self.context.run(velocity), _state: Running }
    }
}

impl CartState<Running> {
    /// Moves the vehicle sideways by its lateral velocity.
    pub fn update(self) -> (r: CartState<Running>)
        ensures
            r == (CartState { context: self.context.moved(), _state: Running }),
    {
        let mut s = self;
        s.context.position.x = saturate(
            s.context.position.x as i64 + s.context.velocity.x as i64,
        );
        s
    }

    pub fn run(self, velocity: Velocity) -> (r: CartState<Running>)
        ensures
            r == (CartState { context: self.context.with_velocity(velocity), _state: Running }),
    {
        CartState { context: self.context.run(velocity), _state: Running }
    }

    pub fn knocked(self) -> (r: CartState<Knocked>)
        ensures
            r == (CartState { context: self.context, _state: Knocked }),
    {
        CartState { context: self.context, _state: Knocked }
    }
}

/// The vehicle's state machine.
#[derive(Clone, Copy, Debug, PartialEq, Eq, Structural)]
pub enum CartStateMachine {
    Idle(CartState<Idle>),
    Running(CartState<Running>),
    Knocked(CartState<Knocked>),
}

/// What can happen to the vehicle.
#[derive(Clone, Copy, Debug, PartialEq, Eq, Structural)]
pub enum Event {
    Run(Velocity),
    Update,
    Knocked,
}

impl CartStateMachine {
    /// The context of whichever state the machine is in.
    pub open spec fn spec_context(self) -> CartContext {
        match self {
            CartStateMachine::Idle(s) => s.context,
            CartStateMachine::Running(s) => s.context,
            CartStateMachine::Knocked(s) => s.context,
        }
    }

    /// After `run(v)`: an idle or running vehicle runs with velocity `v`; a
    /// knocked one stays as it is.
    pub open spec fn after_run(self, v: Velocity) -> CartStateMachine {
        match self {
            CartStateMachine::Idle(s) => CartStateMachine::Running(
                CartState { context: s.context.with_velocity(v), _state: Running },
            ),
            CartStateMachine::Running(s) => CartStateMachine::Running(
                CartState { context: s.context.with_velocity(v), _state: Running },
            ),
            CartStateMachine::Knocked(s) => self,
        }
    }

    /// After one tick: only a running vehicle moves.
    pub open spec fn after_update(self) -> CartStateMachine {
        match self {
            CartStateMachine::Running(s) => CartStateMachine::Running(
                CartState { context: s.context.moved(), _state: Running },
            ),
            _ => self,
        }
    }

    /// After a crash: a running vehicle is knocked; otherwise nothing changes.
    pub open spec fn after_knock(self) -> CartStateMachine {
        match self {
            CartStateMachine::Running(s) => CartStateMachine::Knocked(
                CartState { context: s.context, _state: Knocked },
            ),
            _ => self,
        }
    }

    /// The machine with its context's facing replaced, in the same state.
    pub open spec fn with_direction(self, d: CarDirection) -> CartStateMachine {
        match self {
            CartStateMachine::Idle(s) => CartStateMachine::Idle(
                CartState { context: CartContext { direction: d, ..s.context }, _state: Idle },
            ),
            CartStateMachine::Running(s) => CartStateMachine::Running(
                CartState { context: CartContext { direction: d, ..s.context }, _state: Running },
            ),
            CartStateMachine::Knocked(s) => CartStateMachine::Knocked(
                CartState { context: CartContext { direction: d, ..s.context }, _state: Knocked },
            ),
        }
    }

    pub fn transition(self, event: Event) -> (r: CartStateMachine)
        ensures
            r == match event {
                Event::Run(v) => self.after_run(v),
                Event::Update => self.after_update(),
                Event::Knocked => self.after_knock(),
            },
    {
        match (self, event) {
            (CartStateMachine::Idle(state), Event::Update) => CartStateMachine::Idle(state.update()),
            (CartStateMachine::Idle(state), Event::Run(v)) => CartStateMachine::Running(state.run(v)),
            (CartStateMachine::Running(state), Event::Run(v)) => CartStateMachine::Running(
                state.run(v),
            ),
            (CartStateMachine::Running(state), Event::Update) => CartStateMachine::Running(
                state.update(),
            ),
            (CartStateMachine::Running(state), Event::Knocked) => CartStateMachine::Knocked(
                state.knocked(),
            ),
            _ => self,
        }
    }

    pub fn context(&self) -> (r: &CartContext)
        ensures
            *r == self.spec_context(),
    {
        match self {
            CartStateMachine::Idle(state) => state.context(),
            CartStateMachine::Running(state) => state.context(),
            CartStateMachine::Knocked(state) => state.context(),
        }
    }

    fn update(self) -> (r: CartStateMachine)
        ensures
            r == self.after_update(),
    {
        self.transition(Event::Update)
    }
}

/// Top collision edge: across the front of the vehicle.
pub open spec fn top_edge(pos: Point) -> Line {
    Line {
        p: Point { x: clamp_i32(pos.x - CART_WIDTH), y: pos.y },
        q: Point { x: clamp_i32(pos.x + CART_WIDTH), y: pos.y },
    }
}

/// Right collision edge: from the front corner forwards by the height.
pub open spec fn right_edge(pos: Point) -> Line {
    Line {
        p: Point { x: clamp_i32(pos.x + CART_WIDTH), y: pos.y },
        q: Point { x: clamp_i32(pos.x + CART_WIDTH), y: clamp_i32(pos.y + CART_HEIGHT) },
    }
}

/// Left collision edge: from behind by the height up to the front corner.
pub open spec fn left_edge(pos: Point) -> Line {
    Line {
        p: Point { x: clamp_i32(pos.x - CART_WIDTH), y: clamp_i32(pos.y - CART_HEIGHT) },
        q: Point { x: clamp_i32(pos.x - CART_WIDTH), y: pos.y },
    }
}

/// A vehicle at `pos` touches `wall`: one of its three edges crosses it.
pub open spec fn cart_hits(pos: Point, wall: Line) -> bool {
    segments_cross(top_edge(pos), wall) || segments_cross(right_edge(pos), wall)
        || segments_cross(left_edge(pos), wall)
}

/// The lowest point of the vehicle's collision edges.
pub open spec fn rear_of(pos: Point) -> int {
    clamp_i32(pos.y - CART_HEIGHT) as int
}

/// A wall whose highest end is below the vehicle's rear: it has been passed.
pub open spec fn wall_behind(pos: Point, wall: Line) -> bool {
    wall.p.y < rear_of(pos) && wall.q.y < rear_of(pos)
}

proof fn lemma_horizontal_edge_misses(e: Line, w: Line)
    requires
        e.p.y == e.q.y,
        w.p.y < e.p.y,
        w.q.y < e.p.y,
    ensures
        !straddles(e, w),
{
    let c = e.p.x - e.q.x;
    let u = w.p.y - e.p.y;
    let v = w.q.y - e.p.y;
    assert(cross(e.p, e.q, w.p) == c * u) by (nonlinear_arith)
        requires
            e.p.y == e.q.y,
            c == e.p.x - e.q.x,
            u == w.p.y - e.p.y,
    ;
    assert(cross(e.p, e.q, w.q) == c * v) by (nonlinear_arith)
        requires
            e.p.y == e.q.y,
            c == e.p.x - e.q.x,
            v == w.q.y - e.p.y,
    ;
    assert(!((c * u < 0 && c * v > 0) || (c * u > 0 && c * v < 0))) by (nonlinear_arith)
        requires
            u < 0,
            v < 0,
    ;
}

proof fn lemma_vertical_edge_misses(e: Line, w: Line)
    requires
        e.p.x == e.q.x,
        w.p.y < e.p.y,
        w.q.y < e.p.y,
        w.p.y < e.q.y,
        w.q.y < e.q.y,
    ensures
        !(straddles(e, w) && straddles(w, e)),
{
    let x0 = e.p.x as int;
    let d = e.p.y - e.q.y;
    let alpha = w.p.x - x0;
    let beta = w.q.x - x0;
    assert(cross(e.p, e.q, w.p) == -(d * alpha)) by (nonlinear_arith)
        requires
            e.p.x == e.q.x,
            x0 == e.p.x,
            d == e.p.y - e.q.y,
            alpha == w.p.x - x0,
    ;
    assert(cross(e.p, e.q, w.q) == -(d * beta)) by (nonlinear_arith)
        requires
            e.p.x == e.q.x,
            x0 == e.p.x,
            d == e.p.y - e.q.y,
            beta == w.q.x - x0,
    ;
    if straddles(e, w) {
        assert((alpha > 0 && beta < 0) || (alpha < 0 && beta > 0)) by (nonlinear_arith)
            requires
                (-(d * alpha) < 0 && -(d * beta) > 0) || (-(d * alpha) > 0 && -(d * beta) < 0),
        ;
        let ta = e.p.y as int;
        let tb = e.q.y as int;
        assert(cross(w.p, w.q, e.p) == alpha * (ta - w.q.y) - beta * (ta - w.p.y))
            by (nonlinear_arith)
            requires
                x0 == e.p.x,
                ta == e.p.y,
                alpha == w.p.x - x0,
                beta == w.q.x - x0,
        ;
        assert(cross(w.p, w.q, e.q) == alpha * (tb - w.q.y) - beta * (tb - w.p.y))
            by (nonlinear_arith)
            requires
                x0 == e.q.x,
                tb == e.q.y,
                alpha == w.p.x - x0,
                beta == w.q.x - x0,
        ;
        if alpha > 0 {
            assert(alpha * (ta - w.q.y) - beta * (ta - w.p.y) > 0) by (nonlinear_arith)
                requires
                    alpha > 0,
                    beta < 0,
                    ta - w.q.y > 0,
                    ta - w.p.y > 0,
            ;
            assert(alpha * (tb - w.q.y) - beta * (tb - w.p.y) > 0) by (nonlinear_arith)
                requires
                    alpha > 0,
                    beta < 0,
                    tb - w.q.y > 0,
                    tb - w.p.y > 0,
            ;
        } else {
            assert(alpha * (ta - w.q.y) - beta * (ta - w.p.y) < 0) by (nonlinear_arith)
                requires
                    alpha < 0,
                    beta > 0,
                    ta - w.q.y > 0,
                    ta - w.p.y > 0,
            ;
            assert(alpha * (tb - w.q.y) - beta * (tb - w.p.y) < 0) by (nonlinear_arith)
                requires
                    alpha < 0,
                    beta > 0,
                    tb - w.q.y > 0,
                    tb - w.p.y > 0,
            ;
        }
    }
}

/// A wall that lies wholly behind the vehicle's rear cannot touch it, so
/// leaving such walls out of the collision test changes nothing.
pub proof fn lemma_wall_behind_is_missed(pos: Point, wall: Line)
    requires
        wall_behind(pos, wall),
    ensures
        !cart_hits(pos, wall),
{
    lemma_horizontal_edge_misses(top_edge(pos), wall);
    lemma_vertical_edge_misses(right_edge(pos), wall);
    lemma_vertical_edge_misses(left_edge(pos), wall);
}

/// The picture that stands for the vehicle.
#[derive(Clone, Copy, Debug, PartialEq, Eq, Structural)]
pub enum CartLook {
    Normal,
    Left,
    Right,
    Knocked,
}

/// A knocked vehicle shows as such; any other shows its facing.
pub open spec fn look_of(m: CartStateMachine) -> CartLook {
    match m {
        CartStateMachine::Knocked(_) => CartLook::Knocked,
        _ => match m.spec_context().direction {
            CarDirection::Normal => CartLook::Normal,
            CarDirection::Left => CartLook::Left,
            CarDirection::Right => CartLook::Right,
        },
    }
}

/// The player's vehicle.
#[derive(Clone, Copy, Debug, PartialEq, Eq, Structural)]
pub struct Cart {
    pub state_machine: CartStateMachine,
}

impl Cart {
    /// An idle vehicle at `position`, facing ahead.
    pub fn new(position: Point, velocity: Velocity) -> (r: Cart)
        ensures
            r.state_machine == CartStateMachine::Idle(
                CartState {
                    context: CartContext { position, velocity, direction: CarDirection::Normal },
                    _state: Idle,
                },
            ),
    {
        Cart { state_machine: CartStateMachine::Idle(CartState::new(position, velocity)) }
    }

    fn get_state_machine(&self) -> (r: CartStateMachine)
        ensures
            r == self.state_machine,
    {
        self.state_machine
    }

    fn set_state_machine(&mut self, state_machine: CartStateMachine)
        ensures
            final(self).state_machine == state_machine,
    {
        self.state_machine = state_machine;
    }

    /// One tick: a running vehicle moves sideways by its lateral velocity.
    pub fn update(&mut self)
        ensures
            final(self).state_machine == old(self).state_machine.after_update(),
    {
        let state_machine = self.get_state_machine();
        self.set_state_machine(state_machine.update());
    }

    /// Drives with `velocity`, facing as its lateral part says.
    pub fn run(&mut self, velocity: Velocity)
        ensures
            final(self).state_machine == old(self).state_machine.after_run(velocity),
    {
        let from = self.get_state_machine();
        self.set_state_machine(from.transition(Event::Run(velocity)));
    }

    /// Crashes a running vehicle.
    pub fn knocked(&mut self)
        ensures
            final(self).state_machine == old(self).state_machine.after_knock(),
    {
        self.state_machine = self.state_machine.transition(Event::Knocked);
    }

    /// Whether one of the vehicle's three edges crosses `wall_line`.
    pub fn intersect(&self, wall_line: Line) -> (r: bool)
        ensures
            r == cart_hits(self.state_machine.spec_context().position, wall_line),
    {
        let position = self.state_machine.context().position;
        let left = saturate(position.x as i64 - CART_WIDTH as i64);
        let right = saturate(position.x as i64 + CART_WIDTH as i64);
        let front = saturate(position.y as i64 + CART_HEIGHT as i64);
        let rear = saturate(position.y as i64 - CART_HEIGHT as i64);
        let top = Line::new(Point::new(left, position.y), Point::new(right, position.y));
        let right_side = Line::new(Point::new(right, position.y), Point::new(right, front));
        let left_side = Line::new(Point::new(left, rear), Point::new(left, position.y));
        intersects(&top, &wall_line) || intersects(&right_side, &wall_line) || intersects(
            &left_side,
            &wall_line,
        )
    }

    pub fn get_position(&self) -> (r: Point)
        ensures
            r == self.state_machine.spec_context().position,
    {
        self.state_machine.context().position
    }

    pub fn get_velocity(&self) -> (r: Velocity)
        ensures
            r == self.state_machine.spec_context().velocity,
    {
        self.state_machine.context().velocity
    }

    pub fn get_direction(&self) -> (r: CarDirection)
        ensures
            r == self.state_machine.spec_context().direction,
    {
        self.state_machine.context().direction
    }

    /// Overrides the facing, whatever the velocity, in the current state.
    pub fn set_direction(&mut self, direction: CarDirection)
        ensures
            final(self).state_machine == old(self).state_machine.with_direction(direction),
    {
        match &mut self.state_machine {
            CartStateMachine::Idle(state) => {
                state.context.direction = direction;
            },
            CartStateMachine::Running(state) => {
                state.context.direction = direction;
            },
            CartStateMachine::Knocked(state) => {
                state.context.direction = direction;
            },
        }
    }

    /// The picture to draw: knocked first, then by facing.
    pub fn appearance(&self) -> (r: CartLook)
        ensures
            r == look_of(self.state_machine),
    {
        match &self.state_machine {
            CartStateMachine::Knocked(_) => CartLook::Knocked,
            _ => match self.state_machine.context().direction {
                CarDirection::Normal => CartLook::Normal,
                CarDirection::Left => CartLook::Left,
                CarDirection::Right => CartLook::Right,
            },
        }
    }
}

} // verus!
