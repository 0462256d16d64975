//! The ball: position, velocity, per-tick motion and wall bounces.

use vstd::prelude::*;
use crate::geom::{Vec2, Vec2V, vec_ok};
use crate::SCREEN_H;

verus! {

/// Horizontal centre of the court, half of [`crate::SCREEN_W`].
pub const SCREEN_W_HALF: i64 = 3000;

/// Vertical centre of the court, half of [`crate::SCREEN_H`].
pub const SCREEN_H_HALF: i64 = 2500;

/// The ball's velocity right after a reset, on both axes.
pub const BALL_START_VEL: i64 = 10;

/// The ball: where it is and where it is heading.
#[derive(Debug, Clone)]
pub struct Ball {
    pub pos: Vec2,
    pub vel: Vec2,
}

/// Mathematical model of a [`Ball`].
pub ghost struct BallV {
    pub pos: Vec2V,
    pub vel: Vec2V,
}

impl View for Ball {
    type V = BallV;

    open spec fn view(&self) -> BallV {
        BallV { pos: self.pos@, vel: self.vel@ }
    }
}

/// The ball as every reset leaves it: at the centre of the court,
/// heading down-right one tenth per tick on each axis.
pub open spec fn start_ball() -> BallV {
    BallV {
        pos: Vec2V { x: SCREEN_W_HALF as int, y: SCREEN_H_HALF as int },
        vel: Vec2V { x: BALL_START_VEL as int, y: BALL_START_VEL as int },
    }
}

/// One tick of free flight: the velocity is added to the position,
/// then the ball is reflected off the top or bottom wall if the step
/// carried it past one, flipping the vertical velocity.
pub open spec fn advanced(b: BallV) -> BallV {
    let x1: int = b.pos.x + b.vel.x;
    let y1: int = b.pos.y + b.vel.y;
    if y1 < 0 {
        BallV { pos: Vec2V { x: x1, y: -y1 }, vel: Vec2V { x: b.vel.x, y: -b.vel.y } }
    } else if y1 > SCREEN_H {
        BallV {
            pos: Vec2V { x: x1, y: y1 - 2 * (y1 - SCREEN_H) },
            vel: Vec2V { x: b.vel.x, y: -b.vel.y },
        }
    } else {
        BallV { pos: Vec2V { x: x1, y: y1 }, vel: b.vel }
    }
}

impl Ball {
    /// Put the ball back at the centre of the court with the starting
    /// velocity, whatever its state was before.
    pub fn reset(&mut self)
        ensures
            final(self)@ == start_ball(),
    {
        self.pos = Vec2 { x: SCREEN_W_HALF, y: SCREEN_H_HALF };
        self.vel = Vec2 { x: BALL_START_VEL, y: BALL_START_VEL };
    }

    /// Fly for one tick: move by the velocity, then bounce off the top
    /// or bottom wall. The side walls are not handled here; crossing
    /// them is what the collision rule scores.
    pub fn advance(&mut self)
        requires
            vec_ok(old(self)@.pos),
            vec_ok(old(self)@.vel),
        ensures
            final(self)@ == advanced(old(self)@),
    {
        self.pos.x = self.pos.x + self.vel.x;
        self.pos.y = self.pos.y + self.vel.y;
        if self.pos.y < 0 {
            self.pos.y = -self.pos.y;
            self.vel.y = -self.vel.y;
        } else if self.pos.y > SCREEN_H {
            self.pos.y = self.pos.y - 2 * (self.pos.y - SCREEN_H);
            self.vel.y = -self.vel.y;
        }
    }
}

} // verus!
