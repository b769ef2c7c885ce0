//! Rival vehicles: they keep their own lap distance and steer round walls by
//! probing ahead.
use crate::engine::{clamp_i32, intersects, saturate, segments_cross, Line, Point, Velocity, UNIT};
use crate::game::cart::CarDirection;
use crate::game::wall::Wall;
use crate::game::{Piece, STAGE_GOAL};
use vstd::prelude::*;

verus! {

/// Half of a rival's width.
pub const RIVAL_HALF_WIDTH: i32 = 10 * UNIT;

/// Gap between a rival's side and its probe.
pub const PROBE_MARGIN: i32 = 10 * UNIT;

/// How far ahead a probe reaches.
pub const COLLISION_CHECK_DISTANCE: i32 = 50 * UNIT;

/// Left edge of the track for rivals.
pub const LEFT_EDGE: i32 = 100 * UNIT;

/// Right edge of the track for rivals.
pub const RIGHT_EDGE: i32 = 700 * UNIT;

/// Lateral speed of an evading rival.
pub const EVASION_SPEED: i32 = 4 * UNIT;

/// Distance within which a rival touches the player.
pub const COLLISION_RADIUS: i32 = 25 * UNIT;

/// A rival vehicle.
#[derive(Clone, Copy, Debug, PartialEq, Eq, Structural)]
pub struct RivalCart {
    pub position: Point,
    pub velocity: Velocity,
    pub direction: CarDirection,
    pub distance: i32,
    pub no: usize,
}

/// A probe from `dx` beside `pos`, reaching forward by the check distance.
pub open spec fn probe(pos: Point, dx: int) -> Line {
    Line {
        p: Point { x: clamp_i32(pos.x + dx), y: pos.y },
        q: Point { x: clamp_i32(pos.x + dx), y: clamp_i32(pos.y + COLLISION_CHECK_DISTANCE) },
    }
}

/// Offset of the probes from a rival's centre.
pub open spec fn probe_offset() -> int {
    RIVAL_HALF_WIDTH + PROBE_MARGIN
}

/// Some wall crosses `line`.
pub open spec fn blocked(walls: Seq<Wall>, line: Line) -> bool {
    exists|i: int| 0 <= i < walls.len() && segments_cross(line, #[trigger] walls[i].state_machine.line())
}

/// Lateral velocity and facing that the probes decide. With both clear the
/// rival goes straight; rival number one prefers the left, every other
/// rival the right, and each takes the other side when its choice is blocked.
pub open spec fn evasion(no: usize, left_blocked: bool, right_blocked: bool) -> (i32, CarDirection) {
    if !left_blocked && !right_blocked {
        (0, CarDirection::Normal)
    } else if no == 1 {
        if !left_blocked {
            (-EVASION_SPEED as i32, CarDirection::Left)
        } else {
            (EVASION_SPEED, CarDirection::Right)
        }
    } else {
        if !right_blocked {
            (EVASION_SPEED, CarDirection::Right)
        } else {
            (-EVASION_SPEED as i32, CarDirection::Left)
        }
    }
}

/// The lateral range that a rival's centre may move within.
pub open spec fn inside_track(x: int) -> bool {
    LEFT_EDGE + RIVAL_HALF_WIDTH < x < RIGHT_EDGE - RIVAL_HALF_WIDTH
}

/// The rival after one tick among `walls`, with the player at `player`
/// velocity: its lap distance grows by its own speed and wraps past the
/// goal; it moves forward on screen by the difference of speeds; its probes
/// decide its lateral velocity, which moves it only where it stays inside
/// the track.
pub open spec fn rival_after_update(r: RivalCart, walls: Seq<Wall>, player: Velocity) -> RivalCart {
    let d = clamp_i32(r.distance + r.velocity.y);
    let y = clamp_i32(r.position.y + (r.velocity.y - player.y));
    let at = Point { x: r.position.x, y };
    let left_blocked = blocked(walls, probe(at, -probe_offset()));
    let right_blocked = blocked(walls, probe(at, probe_offset()));
    let (vx, direction) = evasion(r.no, left_blocked, right_blocked);
    let x = if inside_track(r.position.x + vx) {
        (r.position.x + vx) as i32
    } else {
        r.position.x
    };
    RivalCart {
        position: Point { x, y },
        velocity: Velocity { x: vx, y: r.velocity.y },
        direction,
        distance: if d > STAGE_GOAL {
            0
        } else {
            d
        },
        no: r.no,
    }
}

impl RivalCart {
    /// A rival at `position` driving straight at `speed`, with lap distance
    /// `distance` and number `no`.
    pub fn new(position: Point, speed: i32, distance: i32, no: usize) -> (r: RivalCart)
        ensures
            r == (RivalCart {
                position,
                velocity: Velocity { x: 0, y: speed },
                direction: CarDirection::Normal,
                distance,
                no,
            }),
    {
        RivalCart {
            position,
            velocity: Velocity { x: 0, y: speed },
            direction: CarDirection::Normal,
            distance,
            no,
        }
    }

    /// One tick among `walls`, with the player at velocity `velocity`.
    pub fn update(&mut self, walls: &[Wall], velocity: Velocity)
        ensures
            *final(self) == rival_after_update(*old(self), walls@, velocity),
            inside_track(final(self).position.x as int) || final(self).position.x == old(
                self,
            ).position.x,
            LEFT_EDGE + RIVAL_HALF_WIDTH <= old(self).position.x <= RIGHT_EDGE - RIVAL_HALF_WIDTH
                ==> LEFT_EDGE + RIVAL_HALF_WIDTH <= final(self).position.x <= RIGHT_EDGE
                - RIVAL_HALF_WIDTH,
    {
        let distance = saturate(self.distance as i64 + self.velocity.y as i64);
        self.position.y = saturate(
            self.position.y as i64 + (self.velocity.y as i64 - velocity.y as i64),
        );
        self.check_collision_and_adjust(walls);
        let x = self.position.x as i64 + self.velocity.x as i64;
        let low: i64 = (LEFT_EDGE + RIVAL_HALF_WIDTH) as i64;
        let high: i64 = (RIGHT_EDGE - RIVAL_HALF_WIDTH) as i64;
        if low < x && x < high {
            self.position.x = x as i32;
        }
        self.distance = if distance > STAGE_GOAL {
            0
        } else {
            distance
        };
    }

    /// Sets the lateral velocity and facing from what the probes meet.
    fn check_collision_and_adjust(&mut self, walls: &[Wall])
        ensures
            ({
                let left_blocked = blocked(walls@, probe(old(self).position, -probe_offset()));
                let right_blocked = blocked(walls@, probe(old(self).position, probe_offset()));
                let (vx, direction) = evasion(old(self).no, left_blocked, right_blocked);
                *final(self) == (RivalCart {
                    velocity: Velocity { x: vx, y: old(self).velocity.y },
                    direction,
                    ..*old(self)
                })
            }),
    {
        let y = self.position.y;
        let left_x = saturate(self.position.x as i64 - (RIVAL_HALF_WIDTH + PROBE_MARGIN) as i64);
        let right_x = saturate(self.position.x as i64 + (RIVAL_HALF_WIDTH + PROBE_MARGIN) as i64);
        let ahead = saturate(y as i64 + COLLISION_CHECK_DISTANCE as i64);
        let left_blocked = self.line_segments_intersect(
            walls,
            Point::new(left_x, y),
            Point::new(left_x, ahead),
        );
        let right_blocked = self.line_segments_intersect(
            walls,
            Point::new(right_x, y),
            Point::new(right_x, ahead),
        );
        if !right_blocked && !left_blocked {
            self.velocity.x = 0;
            self.direction = CarDirection::Normal;
        } else if self.no == 1 {
            if !left_blocked {
                self.velocity.x = -EVASION_SPEED;
                self.direction = CarDirection::Left;
            } else {
                self.velocity.x = EVASION_SPEED;
                self.direction = CarDirection::Right;
            }
        } else {
            if !right_blocked {
                self.velocity.x = EVASION_SPEED;
                self.direction = CarDirection::Right;
            } else {
                self.velocity.x = -EVASION_SPEED;
                self.direction = CarDirection::Left;
            }
        }
    }

    /// Whether some wall crosses the probe from `p` to `q`.
    fn line_segments_intersect(&self, walls: &[Wall], p: Point, q: Point) -> (r: bool)
        ensures
            r == blocked(walls@, Line { p, q }),
    {
        let probe_line = Line::new(p, q);
        let mut i: usize = 0;
        while i < walls.len()
            invariant
                i <= walls@.len(),
                probe_line == (Line { p, q }),
                forall|j: int|
                    0 <= j < i ==> !segments_cross(probe_line, #[trigger] walls@[j].state_machine.line()),
            decreases walls@.len() - i,
        {
            if intersects(&probe_line, &walls[i].get_line()) {
                return true;
            }
            i = i + 1;
        }
        false
    }

    pub fn set_position(&mut self, position: Point)
        ensures
            *final(self) == (RivalCart { position, ..*old(self) }),
    {
        self.position = position;
    }

    pub fn get_position(&self) -> (r: Point)
        ensures
            r == self.position,
    {
        self.position
    }

    pub fn get_velocity(&self) -> (r: Velocity)
        ensures
            r == self.velocity,
    {
        self.velocity
    }

    pub fn get_distance(&self) -> (r: i32)
        ensures
            r == self.distance,
    {
        self.distance
    }

    pub fn get_no(&self) -> (r: usize)
        ensures
            r == self.no,
    {
        self.no
    }

    pub fn get_direction(&self) -> (r: CarDirection)
        ensures
            r == self.direction,
    {
        self.direction
    }

    /// Whether the player's vehicle at `cart_position` is closer than the
    /// collision radius.
    pub fn check_collision_with_cart(&self, cart_position: Point) -> (r: bool)
        ensures
            r == ((self.position.x - cart_position.x) * (self.position.x - cart_position.x) + (
            self.position.y - cart_position.y) * (self.position.y - cart_position.y)
                < COLLISION_RADIUS * COLLISION_RADIUS),
    {
        let dx = self.position.x as i64 - cart_position.x as i64;
        let dy = self.position.y as i64 - cart_position.y as i64;
        let dx = dx as i128;
        let dy = dy as i128;
        assert(0 <= dx * dx <= 0x1_0000_0000 * 0x1_0000_0000) by (nonlinear_arith)
            requires
                -0x1_0000_0000 <= dx <= 0x1_0000_0000,
        ;
        assert(0 <= dy * dy <= 0x1_0000_0000 * 0x1_0000_0000) by (nonlinear_arith)
            requires
                -0x1_0000_0000 <= dy <= 0x1_0000_0000,
        ;
        dx * dx + dy * dy < (COLLISION_RADIUS as i128) * (COLLISION_RADIUS as i128)
    }
}

/// The rival after `k` ticks, tick `i` taken among `walls[i]` with the player
/// at velocity `players[i]`.
pub open spec fn rival_after_ticks(
    r: RivalCart,
    walls: Seq<Seq<Wall>>,
    players: Seq<Velocity>,
    k: nat,
) -> RivalCart
    decreases k,
{
    if k == 0 {
        r
    } else {
        let i = (k - 1) as nat;
        rival_after_update(rival_after_ticks(r, walls, players, i), walls[i as int], players[i as int])
    }
}

/// A rival that starts within the track's lateral bounds stays within them,
/// whatever walls it meets and however the player drives.
pub proof fn lemma_rival_stays_on_track(
    r: RivalCart,
    walls: Seq<Seq<Wall>>,
    players: Seq<Velocity>,
    k: nat,
)
    requires
        LEFT_EDGE + RIVAL_HALF_WIDTH <= r.position.x <= RIGHT_EDGE - RIVAL_HALF_WIDTH,
    ensures
        LEFT_EDGE + RIVAL_HALF_WIDTH <= rival_after_ticks(r, walls, players, k).position.x
            <= RIGHT_EDGE - RIVAL_HALF_WIDTH,
    decreases k,
{
    if k > 0 {
        lemma_rival_stays_on_track(r, walls, players, (k - 1) as nat);
    }
}

} // verus!
