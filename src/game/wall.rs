//! Track walls and the table that lays them out.
use crate::engine::{Point, Velocity, UNIT};
use crate::game::{running_piece, Piece, StateMachine};
use vstd::prelude::*;

verus! {

/// A wall segment of the track.
#[derive(Clone, Copy, Debug, PartialEq, Eq, Structural)]
pub struct Wall {
    pub state_machine: StateMachine,
}

impl Piece for Wall {
    open spec fn machine(&self) -> StateMachine {
        self.state_machine
    }

    fn new(p: Point, q: Point, velocity: Velocity) -> (r: Wall) {
        Wall { state_machine: StateMachine::Running(crate::game::State::new(p, q, velocity)) }
    }

    fn get_state_machine(&self) -> (r: StateMachine) {
        self.state_machine
    }

    fn set_state_machine(&mut self, state_machine: StateMachine) {
        self.state_machine = state_machine;
    }
}

/// The track's wall segments `(x1, y1, x2, y2)`, in world units: the same for
/// every lap.
pub open spec fn walls_table() -> Seq<(i32, i32, i32, i32)> {
    seq![
        // left wall
        (100, 0, 100, 1000),
        (100, 1000, 200, 1400),
        (200, 1400, 50, 2200),
        (50, 2200, 400, 2900),
        (400, 2900, 400, 3700),
        (400, 3700, 100, 3700),
        (100, 3700, 100, 6900),
        (100, 6900, 200, 7200),
        (200, 7200, 100, 7600),
        (100, 7600, 100, 9900),
        // right wall
        (700, 0, 700, 1000),
        (700, 1000, 350, 2200),
        (350, 2200, 700, 2900),
        (700, 2900, 700, 3700),
        (700, 3700, 700, 3700),
        (700, 3700, 700, 6900),
        (700, 6900, 600, 7200),
        (600, 7200, 700, 7600),
        (700, 7600, 700, 9900),
        // first island, left and right
        (450, 4600, 250, 5200),
        (250, 5200, 550, 5900),
        (450, 4600, 600, 5200),
        (600, 5200, 550, 5900),
        // second island, left and right
        (200, 5400, 200, 6550),
        (200, 6550, 550, 6550),
        (200, 5400, 550, 6550),
        // third island, left and right
        (400, 7400, 250, 7800),
        (250, 7800, 250, 8200),
        (250, 8200, 400, 8600),
        (400, 7400, 550, 7800),
        (550, 7800, 550, 8200),
        (550, 8200, 400, 8600),
    ]
}

/// The standing wall that a table row describes.
pub open spec fn wall_of_row(t: (i32, i32, i32, i32)) -> Wall {
    Wall {
        state_machine: running_piece(
            Point { x: (t.0 * UNIT) as i32, y: (t.1 * UNIT) as i32 },
            Point { x: (t.2 * UNIT) as i32, y: (t.3 * UNIT) as i32 },
            Velocity { x: 0, y: 0 },
        ),
    }
}

/// The walls of a fresh lap.
pub open spec fn track_walls_spec() -> Seq<Wall> {
    walls_table().map_values(|t: (i32, i32, i32, i32)| wall_of_row(t))
}

/// The track table, row by row.
pub fn walls_data() -> (r: Vec<(i32, i32, i32, i32)>)
    ensures
        r@ == walls_table(),
{
    let r = vec![
        (100, 0, 100, 1000),
        (100, 1000, 200, 1400),
        (200, 1400, 50, 2200),
        (50, 2200, 400, 2900),
        (400, 2900, 400, 3700),
        (400, 3700, 100, 3700),
        (100, 3700, 100, 6900),
        (100, 6900, 200, 7200),
        (200, 7200, 100, 7600),
        (100, 7600, 100, 9900),
        (700, 0, 700, 1000),
        (700, 1000, 350, 2200),
        (350, 2200, 700, 2900),
        (700, 2900, 700, 3700),
        (700, 3700, 700, 3700),
        (700, 3700, 700, 6900),
        (700, 6900, 600, 7200),
        (600, 7200, 700, 7600),
        (700, 7600, 700, 9900),
        (450, 4600, 250, 5200),
        (250, 5200, 550, 5900),
        (450, 4600, 600, 5200),
        (600, 5200, 550, 5900),
        (200, 5400, 200, 6550),
        (200, 6550, 550, 6550),
        (200, 5400, 550, 6550),
        (400, 7400, 250, 7800),
        (250, 7800, 250, 8200),
        (250, 8200, 400, 8600),
        (400, 7400, 550, 7800),
        (550, 7800, 550, 8200),
        (550, 8200, 400, 8600),
    ];
    assert(r@ =~= walls_table());
    r
}

/// The walls of a fresh lap, standing, in the order of the table.
pub fn track_walls() -> (r: Vec<Wall>)
    ensures
        r@ == track_walls_spec(),
{
    let data = walls_data();
    let mut walls: Vec<Wall> = Vec::new();
    let mut i: usize = 0;
    while i < data.len()
        invariant
            data@ == walls_table(),
            i <= data@.len(),
            walls@ == track_walls_spec().subrange(0, i as int),
        decreases data@.len() - i,
    {
        let row = data[i];
        assert(0 <= row.0 <= 1000 && 0 <= row.1 <= 10000 && 0 <= row.2 <= 1000 && 0 <= row.3
            <= 10000);
        walls.push(
            Wall::new(
                Point::new(row.0 * UNIT, row.1 * UNIT),
                Point::new(row.2 * UNIT, row.3 * UNIT),
                Velocity { x: 0, y: 0 },
            ),
        );
        i = i + 1;
        assert(walls@ =~= track_walls_spec().subrange(0, i as int));
    }
    assert(walls@ =~= track_walls_spec());
    walls
}

} // verus!
