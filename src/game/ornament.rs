//! Decorations that scroll beside the track.
use crate::engine::{Point, Velocity, UNIT};
use crate::game::{running_piece, Piece, State, StateMachine};
use vstd::prelude::*;

verus! {

/// A decoration: the finish banner and the trees, anchored at `p`.
#[derive(Clone, Copy, Debug, PartialEq, Eq, Structural)]
pub struct Ornament {
    pub state_machine: StateMachine,
}

impl Piece for Ornament {
    open spec fn machine(&self) -> StateMachine {
        self.state_machine
    }

    fn new(p: Point, q: Point, velocity: Velocity) -> (r: Ornament) {
        Ornament { state_machine: StateMachine::Running(State::new(p, q, velocity)) }
    }

    fn get_state_machine(&self) -> (r: StateMachine) {
        self.state_machine
    }

    fn set_state_machine(&mut self, state_machine: StateMachine) {
        self.state_machine = state_machine;
    }
}

/// Left end of the decoration strip.
pub const ORNAMENT_X: i32 = 120 * UNIT;

/// Height at which the decoration strip starts.
pub const ORNAMENT_Y: i32 = 950 * UNIT;

/// Width of the decoration strip.
pub const ORNAMENT_WIDTH: i32 = 10 * UNIT;

/// Length of the decoration strip.
pub const ORNAMENT_HEIGHT: i32 = 9900 * UNIT;

/// The decorations of a fresh lap.
pub open spec fn initial_ornaments_spec() -> Seq<Ornament> {
    seq![
        Ornament {
            state_machine: running_piece(
                Point { x: ORNAMENT_X, y: ORNAMENT_Y },
                Point {
                    x: (ORNAMENT_X + ORNAMENT_WIDTH) as i32,
                    y: (ORNAMENT_Y + ORNAMENT_HEIGHT) as i32,
                },
                Velocity { x: 0, y: 0 },
            ),
        },
    ]
}

/// The decorations of a fresh lap, standing.
pub fn initial_ornaments() -> (r: Vec<Ornament>)
    ensures
        r@ == initial_ornaments_spec(),
{
    let r = vec![
        Ornament::new(
            Point::new(ORNAMENT_X, ORNAMENT_Y),
            Point::new(ORNAMENT_X + ORNAMENT_WIDTH, ORNAMENT_Y + ORNAMENT_HEIGHT),
            Velocity { x: 0, y: 0 },
        ),
    ];
    assert(r@ =~= initial_ornaments_spec());
    r
}

} // verus!
