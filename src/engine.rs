//! Points, velocities, segments and the segment crossing test.
use vstd::prelude::*;

verus! {

/// Number of fixed-point steps in one world unit.
pub const UNIT: i32 = 100;

/// `v` held within the range of `i32`.
pub open spec fn clamp_i32(v: int) -> i32 {
    if v < i32::MIN {
        i32::MIN
    } else if v > i32::MAX {
        i32::MAX
    } else {
        v as i32
    }
}

/// Narrows a wide value to `i32`, saturating at its bounds.
pub fn saturate(v: i64) -> (r: i32)
    ensures
        r == clamp_i32(v as int),
{
    if v < i32::MIN as i64 {
        i32::MIN
    } else if v > i32::MAX as i64 {
        i32::MAX
    } else {
        v as i32
    }
}

/// A position on the track, in fixed-point steps.
#[derive(Clone, Copy, Debug, PartialEq, Eq, Structural)]
pub struct Point {
    pub x: i32,
    pub y: i32,
}

/// A per-tick displacement, in fixed-point steps.
#[derive(Clone, Copy, Debug, PartialEq, Eq, Structural)]
pub struct Velocity {
    pub x: i32,
    pub y: i32,
}

/// The point that a scroll by `v` leaves `p` at: the world moves backwards,
/// so the velocity is subtracted. Coordinates saturate at the `i32` bounds.
pub open spec fn translated(p: Point, v: Velocity) -> Point {
    Point { x: clamp_i32(p.x - v.x), y: clamp_i32(p.y - v.y) }
}

impl Point {
    pub fn new(x: i32, y: i32) -> (r: Point)
        ensures
            r == (Point { x, y }),
    {
        Point { x, y }
    }

    /// Moves the point by `v` in the scrolling convention: `self - v`.
    pub fn add(&self, v: Velocity) -> (r: Point)
        ensures
            r == translated(*self, v),
    {
        Point {
            x: saturate(self.x as i64 - v.x as i64),
            y: saturate(self.y as i64 - v.y as i64),
        }
    }
}

/// A directed segment from `p` to `q`.
#[derive(Clone, Copy, Debug, PartialEq, Eq, Structural)]
pub struct Line {
    pub p: Point,
    pub q: Point,
}

impl Line {
    pub fn new(p: Point, q: Point) -> (r: Line)
        ensures
            r == (Line { p, q }),
    {
        Line { p, q }
    }
}

/// Signed area spanned by the direction `a -> b` and the point `c`: its sign
/// says on which side of the line through `a` and `b` the point `c` lies.
pub open spec fn cross(a: Point, b: Point, c: Point) -> int {
    (a.x - b.x) * (c.y - a.y) + (a.y - b.y) * (a.x - c.x)
}

/// Two values of strictly opposite signs.
pub open spec fn opposite_signs(u: int, v: int) -> bool {
    (u < 0 && v > 0) || (u > 0 && v < 0)
}

/// The endpoints of `t` lie strictly on opposite sides of the line through `s`.
pub open spec fn straddles(s: Line, t: Line) -> bool {
    opposite_signs(cross(s.p, s.q, t.p), cross(s.p, s.q, t.q))
}

/// The two segments properly cross: each one's endpoints lie strictly on
/// opposite sides of the other's supporting line.
pub open spec fn segments_cross(a: Line, b: Line) -> bool {
    straddles(a, b) && straddles(b, a)
}

proof fn lemma_product_bound(u: int, v: int)
    requires
        -0x1_0000_0000 <= u <= 0x1_0000_0000,
        -0x1_0000_0000 <= v <= 0x1_0000_0000,
    ensures
        -0x1_0000_0000_0000_0000 <= u * v <= 0x1_0000_0000_0000_0000,
{
    assert(-0x1_0000_0000_0000_0000 <= u * v <= 0x1_0000_0000_0000_0000) by (nonlinear_arith)
        requires
            -0x1_0000_0000 <= u <= 0x1_0000_0000,
            -0x1_0000_0000 <= v <= 0x1_0000_0000,
    ;
}

fn cross_value(a: Point, b: Point, c: Point) -> (r: i128)
    ensures
        r as int == cross(a, b, c),
{
    let dx = a.x as i64 - b.x as i64;
    let dy = a.y as i64 - b.y as i64;
    let ey = c.y as i64 - a.y as i64;
    let ex = a.x as i64 - c.x as i64;
    proof {
        lemma_product_bound(dx as int, ey as int);
        lemma_product_bound(dy as int, ex as int);
    }
    (dx as i128) * (ey as i128) + (dy as i128) * (ex as i128)
}

fn straddle_test(s: &Line, t: &Line) -> (r: bool)
    ensures
        r == straddles(*s, *t),
{
    let c1 = cross_value(s.p, s.q, t.p);
    let c2 = cross_value(s.p, s.q, t.q);
    (c1 < 0 && c2 > 0) || (c1 > 0 && c2 < 0)
}

/// Whether the two segments cross (collinear or touching segments do not).
pub fn intersects(a: &Line, b: &Line) -> (r: bool)
    ensures
        r == segments_cross(*a, *b),
{
    straddle_test(a, b) && straddle_test(b, a)
}

/// The crossing test does not depend on the order of its arguments.
pub proof fn lemma_intersects_symmetric(a: Line, b: Line)
    ensures
        segments_cross(a, b) == segments_cross(b, a),
{
}

/// The logical keys that the game reads.
#[derive(Clone, Copy, Debug, PartialEq, Eq, Structural)]
pub enum Key {
    Space,
    ArrowUp,
    ArrowDown,
    ArrowLeft,
    ArrowRight,
}

/// A snapshot of which keys are held down.
#[derive(Clone, Copy, Debug, PartialEq, Eq, Structural)]
pub struct KeyState {
    pub space: bool,
    pub arrow_up: bool,
    pub arrow_down: bool,
    pub arrow_left: bool,
    pub arrow_right: bool,
}

impl KeyState {
    /// Whether `key` is held in this snapshot.
    pub open spec fn pressed(&self, key: Key) -> bool {
        match key {
            Key::Space => self.space,
            Key::ArrowUp => self.arrow_up,
            Key::ArrowDown => self.arrow_down,
            Key::ArrowLeft => self.arrow_left,
            Key::ArrowRight => self.arrow_right,
        }
    }

    /// A snapshot with no key held.
    pub fn new() -> (r: KeyState)
        ensures
            forall|k: Key| !r.pressed(k),
    {
        KeyState {
            space: false,
            arrow_up: false,
            arrow_down: false,
            arrow_left: false,
            arrow_right: false,
        }
    }

    pub fn is_pressed(&self, key: Key) -> (r: bool)
        ensures
            r == self.pressed(key),
    {
        match key {
            Key::Space => self.space,
            Key::ArrowUp => self.arrow_up,
            Key::ArrowDown => self.arrow_down,
            Key::ArrowLeft => self.arrow_left,
            Key::ArrowRight => self.arrow_right,
        }
    }

    fn set(&mut self, key: Key, held: bool)
        ensures
            forall|k: Key| #[trigger] final(self).pressed(k) == if k == key {
                held
            } else {
                old(self).pressed(k)
            },
    {
        match key {
            Key::Space => self.space = held,
            Key::ArrowUp => self.arrow_up = held,
            Key::ArrowDown => self.arrow_down = held,
            Key::ArrowLeft => self.arrow_left = held,
            Key::ArrowRight => self.arrow_right = held,
        }
    }

    /// Records that `key` went down.
    pub fn set_pressed(&mut self, key: Key)
        ensures
            forall|k: Key| #[trigger] final(self).pressed(k) == (k == key || old(self).pressed(k)),
    {
        self.set(key, true);
    }

    /// Records that `key` went up.
    pub fn set_released(&mut self, key: Key)
        ensures
            forall|k: Key| #[trigger] final(self).pressed(k) == (k != key && old(self).pressed(k)),
    {
        self.set(key, false);
    }
}

} // verus!
