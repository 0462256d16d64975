//! A player: one bat and one score.

use vstd::prelude::*;
use crate::geom::{Vec2, Vec2V, coord_ok};
use crate::{BAT_TOP_MAX, PADDLE_STEP};

verus! {

/// A move command for a bat.
#[derive(Debug, Clone, Copy)]
pub enum Dir {
    Up,
    Down,
}

/// One player's bat position (top-left corner) and score.
#[derive(Debug, Clone)]
pub struct Player {
    pub bat: Vec2,
    pub score: u32,
}

/// Mathematical model of a [`Player`].
pub ghost struct PlayerV {
    pub bat: Vec2V,
    pub score: nat,
}

impl View for Player {
    type V = PlayerV;

    open spec fn view(&self) -> PlayerV {
        PlayerV { bat: self.bat@, score: self.score as nat }
    }
}

/// How far one command shifts a bat: up is towards smaller y.
pub open spec fn dir_delta(dir: Dir) -> int {
    match dir {
        Dir::Up => -(PADDLE_STEP as int),
        Dir::Down => PADDLE_STEP as int,
    }
}

/// A bat's top edge confined to the court.
pub open spec fn clamp_y(y: int) -> int {
    if y < 0 {
        0
    } else if y > BAT_TOP_MAX {
        BAT_TOP_MAX as int
    } else {
        y
    }
}

/// The bat height after one move command: shifted one step, then
/// clamped onto the court.
pub open spec fn moved_y(y: int, dir: Dir) -> int {
    clamp_y(y + dir_delta(dir))
}

/// The whole player after one move command: only the bat height
/// changes.
pub open spec fn moved(p: PlayerV, dir: Dir) -> PlayerV {
    PlayerV { bat: Vec2V { x: p.bat.x, y: moved_y(p.bat.y, dir) }, score: p.score }
}

impl Player {
    /// Shift the bat one step in the given direction, keeping it on
    /// the court. The score and the horizontal position never change,
    /// and the bat always ends inside `[0, BAT_TOP_MAX]`.
    pub fn update(&mut self, dir: Dir)
        requires
            coord_ok(old(self).bat.y as int),
        ensures
            final(self)@ == moved(old(self)@, dir),
            0 <= final(self).bat.y <= BAT_TOP_MAX,
    {
        match dir {
            Dir::Up => self.bat.y = self.bat.y - PADDLE_STEP,
            Dir::Down => self.bat.y = self.bat.y + PADDLE_STEP,
        }
        if self.bat.y < 0 {
            self.bat.y = 0;
        } else if self.bat.y > BAT_TOP_MAX {
            self.bat.y = BAT_TOP_MAX;
        }
    }
}

/// The bat height after a whole run of move commands, applied in
/// order.
pub open spec fn apply_moves(y: int, dirs: Seq<Dir>) -> int
    decreases dirs.len(),
{
    if dirs.len() == 0 {
        y
    } else {
        apply_moves(moved_y(y, dirs[0]), dirs.drop_first())
    }
}

/// Law: whatever height a bat starts from, after at least one move
/// command its top edge lies on the court, between 0 and
/// [`BAT_TOP_MAX`].
pub proof fn lemma_paddle_clamp(y: int, dirs: Seq<Dir>)
    requires
        dirs.len() > 0,
    ensures
        0 <= apply_moves(y, dirs) <= BAT_TOP_MAX,
    decreases dirs.len(),
{
    let y1: int = moved_y(y, dirs[0]);
    assert(apply_moves(y, dirs) == apply_moves(y1, dirs.drop_first()));
    if dirs.len() > 1 {
        lemma_paddle_clamp(y1, dirs.drop_first());
    } else {
        assert(dirs.drop_first().len() == 0);
        assert(apply_moves(y1, dirs.drop_first()) == y1);
    }
}

} // verus!
