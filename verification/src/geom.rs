//! Plane vectors: the positions and velocities of the simulation.

use vstd::prelude::*;
use crate::COORD_LIMIT;

verus! {

/// A position or velocity, in tenths of a unit per component.
#[derive(Debug, Clone, Copy)]
pub struct Vec2 {
    pub x: i64,
    pub y: i64,
}

/// Mathematical model of a [`Vec2`].
pub ghost struct Vec2V {
    pub x: int,
    pub y: int,
}

impl View for Vec2 {
    type V = Vec2V;

    open spec fn view(&self) -> Vec2V {
        Vec2V { x: self.x as int, y: self.y as int }
    }
}

/// A single component small enough for every arithmetic step the
/// library performs on it.
pub open spec fn coord_ok(v: int) -> bool {
    -COORD_LIMIT <= v <= COORD_LIMIT
}

/// Both components of a vector within [`coord_ok`] bounds.
pub open spec fn vec_ok(v: Vec2V) -> bool {
    coord_ok(v.x) && coord_ok(v.y)
}

} // verus!
