use vstd::prelude::*;
use crate::config::COORD_LIMIT;
use crate::geometry::{Rect, Vec2};

verus! {

/// A rectangular moving object of the playfield: a paddle or the ball.
///
/// Its size is set when it is made and is positive (`wf`); its position and
/// velocity belong to whoever owns it.
#[derive(Clone, Copy, Debug, PartialEq, Eq, Structural)]
pub struct Entity {
    pub position: Vec2,
    pub velocity: Vec2,
    pub width: i64,
    pub height: i64,
}

impl Entity {
    /// The size is positive and bounded.
    pub open spec fn wf(self) -> bool {
        &&& 1 <= self.width <= COORD_LIMIT
        &&& 1 <= self.height <= COORD_LIMIT
    }

    /// Position and velocity lie within the range for which a tick cannot
    /// overflow.
    pub open spec fn in_range(self) -> bool {
        &&& -COORD_LIMIT <= self.position.x <= COORD_LIMIT
        &&& -COORD_LIMIT <= self.position.y <= COORD_LIMIT
        &&& -COORD_LIMIT <= self.velocity.x <= COORD_LIMIT
        &&& -COORD_LIMIT <= self.velocity.y <= COORD_LIMIT
    }

    pub open spec fn bounds_spec(self) -> Rect {
        Rect {
            x: self.position.x,
            y: self.position.y,
            width: self.width,
            height: self.height,
        }
    }

    /// The centre, rounded down to a whole unit.
    pub open spec fn centre_spec(self) -> (int, int) {
        (self.position.x + self.width / 2, self.position.y + self.height / 2)
    }

    /// An entity at rest.
    pub fn new(position: Vec2, width: i64, height: i64) -> (r: Entity)
        requires
            1 <= width <= COORD_LIMIT,
            1 <= height <= COORD_LIMIT,
        ensures
            r.wf(),
            r.position == position,
            r.velocity == Vec2::zero_spec(),
            r.width == width,
            r.height == height,
    {
        Entity::with_velocity(position, Vec2::zero(), width, height)
    }

    /// An entity in motion.
    pub fn with_velocity(position: Vec2, velocity: Vec2, width: i64, height: i64) -> (r: Entity)
        requires
            1 <= width <= COORD_LIMIT,
            1 <= height <= COORD_LIMIT,
        ensures
            r.wf(),
            r.position == position,
            r.velocity == velocity,
            r.width == width,
            r.height == height,
    {
        Entity { position, velocity, width, height }
    }

    pub fn width(&self) -> (r: i64)
        ensures
            r == self.width,
    {
        self.width
    }

    pub fn height(&self) -> (r: i64)
        ensures
            r == self.height,
    {
        self.height
    }

    pub fn is_wf(&self) -> (r: bool)
        ensures
            r == self.wf(),
    {
        1 <= self.width && self.width <= COORD_LIMIT && 1 <= self.height && self.height
            <= COORD_LIMIT
    }

    pub fn is_in_range(&self) -> (r: bool)
        ensures
            r == self.in_range(),
    {
        -COORD_LIMIT <= self.position.x && self.position.x <= COORD_LIMIT
            && -COORD_LIMIT <= self.position.y && self.position.y <= COORD_LIMIT
            && -COORD_LIMIT <= self.velocity.x && self.velocity.x <= COORD_LIMIT
            && -COORD_LIMIT <= self.velocity.y && self.velocity.y <= COORD_LIMIT
    }

    /// The box the entity covers.
    pub fn bounds(&self) -> (r: Rect)
        ensures
            r == self.bounds_spec(),
    {
        Rect::new(self.position.x, self.position.y, self.width, self.height)
    }

    /// The midpoint of the box, rounded down to a whole unit.
    pub fn centre(&self) -> (r: Vec2)
        requires
            self.wf(),
            self.in_range(),
        ensures
            (r.x as int, r.y as int) == self.centre_spec(),
    {
        Vec2::new(self.position.x + self.width / 2, self.position.y + self.height / 2)
    }
}

} // verus!
