//! Axis-aligned rectangles that move: the ball and the paddles.
use vstd::prelude::*;

use crate::vector::Vector;
use crate::POSITION_SCALE;

verus! {

/// A corner of an entity's outline, relative to its centre, in units.
#[derive(Clone, Copy, Debug, PartialEq, Eq, Structural)]
pub struct Vertex {
    pub x: i32,
    pub y: i32,
}

/// A rectangle with a top-left `position` (position sub-units) and a
/// `velocity` (velocity sub-units). The half extents are cached at creation.
#[derive(Clone, Copy, Debug, PartialEq, Eq, Structural)]
pub struct Entity {
    pub width: u32,
    pub height: u32,
    pub half_width: u32,
    pub half_height: u32,
    pub position: Vector,
    pub velocity: Vector,
}

/// `x` advanced by `v` for `dt` milliseconds, in position sub-units.
pub open spec fn advanced(x: i64, v: i64, dt: int) -> int {
    x + v * dt
}

pub open spec fn fits_i64(x: int) -> bool {
    i64::MIN <= x <= i64::MAX
}

impl Entity {
    /// The half extents are the floor halves of the dimensions.
    pub open spec fn wf(&self) -> bool {
        &&& self.half_width == self.width / 2
        &&& self.half_height == self.height / 2
    }

    pub open spec fn min_x(&self) -> int {
        self.position.x as int
    }

    pub open spec fn min_y(&self) -> int {
        self.position.y as int
    }

    pub open spec fn max_x(&self) -> int {
        self.position.x + self.width * POSITION_SCALE
    }

    pub open spec fn max_y(&self) -> int {
        self.position.y + self.height * POSITION_SCALE
    }

    /// Whether both coordinates stay representable after `dt` milliseconds.
    pub open spec fn can_integrate(&self, dt: int) -> bool {
        &&& fits_i64(advanced(self.position.x, self.velocity.x, dt))
        &&& fits_i64(advanced(self.position.y, self.velocity.y, dt))
    }

    /// The entity after moving at its velocity for `dt` milliseconds.
    pub open spec fn integrated(self, dt: int) -> Entity {
        Entity {
            position: Vector {
                x: advanced(self.position.x, self.velocity.x, dt) as i64,
                y: advanced(self.position.y, self.velocity.y, dt) as i64,
            },
            ..self
        }
    }

    /// A resting entity at the origin.
    pub fn new(width: u32, height: u32) -> (r: Entity)
        ensures
            r.wf(),
            r.width == width,
            r.height == height,
            r.position == (Vector { x: 0, y: 0 }),
            r.velocity == (Vector { x: 0, y: 0 }),
    {
        Entity {
            width,
            height,
            half_width: width / 2,
            half_height: height / 2,
            position: Vector::new(0, 0),
            velocity: Vector::new(0, 0),
        }
    }

    /// Advances the position by velocity times `dt` milliseconds; nothing
    /// else changes.
    pub fn update(&mut self, dt: u32)
        requires
            old(self).can_integrate(dt as int),
        ensures
            *final(self) == old(self).integrated(dt as int),
    {
        let x = self.position.x as i128 + self.velocity.x as i128 * dt as i128;
        let y = self.position.y as i128 + self.velocity.y as i128 * dt as i128;
        self.position.set(x as i64, y as i64);
    }
}

/// The four corners of a `w` by `h` rectangle centred on the origin, in
/// triangle-strip order.
pub fn get_rekt(w: u32, h: u32) -> (r: Vec<Vertex>)
    ensures
        r@.len() == 4,
        r@[0].x == -(w / 2) && r@[0].y == -(h / 2),
        r@[1].x == -(w / 2) && r@[1].y == h / 2,
        r@[2].x == w / 2 && r@[2].y == -(h / 2),
        r@[3].x == w / 2 && r@[3].y == h / 2,
{
    let hw = (w / 2) as i32;
    let hh = (h / 2) as i32;
    let nhw = -hw;
    let nhh = -hh;
    let mut r: Vec<Vertex> = Vec::new();
    r.push(Vertex { x: nhw, y: nhh });
    r.push(Vertex { x: nhw, y: hh });
    r.push(Vertex { x: hw, y: nhh });
    r.push(Vertex { x: hw, y: hh });
    r
}

/// Moving for no time leaves an entity as it was.
pub proof fn lemma_integrate_zero(e: Entity)
    ensures
        e.integrated(0) == e,
{
}

/// Moving at a constant velocity for `t` milliseconds adds velocity times
/// `t` to the position, and two consecutive moves add up to one.
pub proof fn lemma_integrate_linear(e: Entity, t1: int, t2: int)
    requires
        0 <= t1,
        0 <= t2,
        e.can_integrate(t1 + t2),
    ensures
        e.can_integrate(t1),
        e.integrated(t1).can_integrate(t2),
        e.integrated(t1).integrated(t2) == e.integrated(t1 + t2),
        e.integrated(t1 + t2).position.x == e.position.x + e.velocity.x * (t1 + t2),
        e.integrated(t1 + t2).position.y == e.position.y + e.velocity.y * (t1 + t2),
{
    assert(e.velocity.x * (t1 + t2) == e.velocity.x * t1 + e.velocity.x * t2) by (nonlinear_arith);
    assert(e.velocity.y * (t1 + t2) == e.velocity.y * t1 + e.velocity.y * t2) by (nonlinear_arith);
    lemma_between(e.velocity.x, t1, t2);
    lemma_between(e.velocity.y, t1, t2);
}

proof fn lemma_between(v: i64, t1: int, t2: int)
    requires
        0 <= t1,
        0 <= t2,
    ensures
        (v >= 0 ==> 0 <= v * t1 <= v * (t1 + t2)),
        (v < 0 ==> v * (t1 + t2) <= v * t1 <= 0),
{
    assert(v >= 0 ==> 0 <= v * t1 <= v * (t1 + t2)) by (nonlinear_arith)
        requires
            0 <= t1,
            0 <= t2,
    ;
    assert(v < 0 ==> v * (t1 + t2) <= v * t1 <= 0) by (nonlinear_arith)
        requires
            0 <= t1,
            0 <= t2,
    ;
}

} // verus!
