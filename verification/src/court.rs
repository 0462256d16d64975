//! The whole match: both players, the ball, and the collision and
//! scoring rule that ties them together once per tick.

use vstd::prelude::*;
use crate::geom::{Vec2, Vec2V, coord_ok, vec_ok};
use crate::ball::{Ball, BallV, advanced, start_ball, BALL_START_VEL, SCREEN_H_HALF, SCREEN_W_HALF};
use crate::player::{Dir, Player, PlayerV, moved};
use crate::{BAT_H, BAT_W, COORD_LIMIT};

verus! {

/// Starting x of the left bat's top-left corner.
pub const LEFT_BAT_START_X: i64 = 360;

/// Starting x of the right bat's top-left corner.
pub const RIGHT_BAT_START_X: i64 = 5540;

/// Starting y of both bats' top edges.
pub const BAT_START_Y: i64 = 500;

/// Speeding a velocity component up by one tenth of itself: the
/// magnitude grows by a factor 11/10, rounded down, and the sign is
/// kept.
pub open spec fn sped_up(v: int) -> int {
    if v >= 0 {
        v * 11 / 10
    } else {
        -((-v) * 11 / 10)
    }
}

/// Scale a velocity component up by one tenth of its magnitude,
/// rounding the magnitude down and keeping the sign.
pub fn speed_up(v: i64) -> (r: i64)
    requires
        coord_ok(v as int),
    ensures
        r == sped_up(v as int),
{
    if v >= 0 {
        v * 11 / 10
    } else {
        -((-v) * 11 / 10)
    }
}

/// What one application of the collision and scoring rule makes of
/// the ball and the two players.
///
/// Mid-court — the ball strictly between the left bat's right edge
/// and the right bat's left edge — nothing changes. Otherwise the
/// side the ball is heading for is checked: level with that bat, the
/// ball bounces back sped up by a tenth on both axes; past it, the
/// other player scores one point and the ball resets to the centre.
pub open spec fn resolved(b: BallV, l: PlayerV, r: PlayerV) -> (BallV, PlayerV, PlayerV) {
    let l_edge: int = l.bat.x + BAT_W;
    let r_edge: int = r.bat.x;
    if l_edge < b.pos.x && b.pos.x < r_edge {
        (b, l, r)
    } else if b.vel.x < 0 {
        if b.pos.x <= l_edge && l.bat.y <= b.pos.y <= l.bat.y + BAT_H {
            (bounced(b), l, r)
        } else {
            (start_ball(), l, PlayerV { bat: r.bat, score: r.score + 1 })
        }
    } else {
        if b.pos.x >= r_edge && r.bat.y <= b.pos.y <= r.bat.y + BAT_H {
            (bounced(b), l, r)
        } else {
            (start_ball(), PlayerV { bat: l.bat, score: l.score + 1 }, r)
        }
    }
}

/// The ball as a bat hit leaves it: in place, its horizontal velocity
/// reversed and sped up, its vertical velocity sped up in the same
/// direction.
pub open spec fn bounced(b: BallV) -> BallV {
    BallV { pos: b.pos, vel: Vec2V { x: -sped_up(b.vel.x), y: sped_up(b.vel.y) } }
}

/// Apply the collision and scoring rule once, right after the ball
/// advanced: bounce the ball off a defending bat, or award a point
/// and reset the ball; mid-court, change nothing.
pub fn resolve(ball: &mut Ball, left: &mut Player, right: &mut Player)
    requires
        vec_ok(old(ball)@.vel),
        coord_ok(old(left)@.bat.x),
        coord_ok(old(left)@.bat.y),
        coord_ok(old(right)@.bat.x),
        coord_ok(old(right)@.bat.y),
        old(left).score < u32::MAX,
        old(right).score < u32::MAX,
    ensures
        (final(ball)@, final(left)@, final(right)@) == resolved(
            old(ball)@,
            old(left)@,
            old(right)@,
        ),
{
    let l_edge: i64 = left.bat.x + BAT_W;
    let r_edge: i64 = right.bat.x;
    if ball.pos.x > l_edge && ball.pos.x < r_edge {
        return;
    }
    if ball.vel.x < 0 {
        if ball.pos.x <= l_edge && ball.pos.y >= left.bat.y && ball.pos.y <= left.bat.y
            + BAT_H {
            let sx: i64 = speed_up(ball.vel.x);
            ball.vel.x = -sx;
            ball.vel.y = speed_up(ball.vel.y);
        } else {
            right.score = right.score + 1;
            ball.reset();
        }
    } else {
        if ball.pos.x >= r_edge && ball.pos.y >= right.bat.y && ball.pos.y <= right.bat.y
            + BAT_H {
            let sx: i64 = speed_up(ball.vel.x);
            ball.vel.x = -sx;
            ball.vel.y = speed_up(ball.vel.y);
        } else {
            left.score = left.score + 1;
            ball.reset();
        }
    }
}

/// Law: with the ball strictly between the two bats' facing edges,
/// the collision and scoring rule changes nothing, whatever the
/// heights and velocities are.
pub proof fn lemma_midcourt_noop(b: BallV, l: PlayerV, r: PlayerV)
    requires
        l.bat.x + BAT_W < b.pos.x < r.bat.x,
    ensures
        resolved(b, l, r) == (b, l, r),
{
}

/// The whole match: both players and the ball.
#[derive(Debug, Clone)]
pub struct State {
    pub player1: Player,
    pub player2: Player,
    pub ball: Ball,
}

/// Mathematical model of a [`State`].
pub ghost struct StateV {
    pub player1: PlayerV,
    pub player2: PlayerV,
    pub ball: BallV,
}

impl View for State {
    type V = StateV;

    open spec fn view(&self) -> StateV {
        StateV { player1: self.player1@, player2: self.player2@, ball: self.ball@ }
    }
}

/// The match as it begins: both bats near their side walls at the
/// same height, scores nil, the ball at the centre with the starting
/// velocity.
pub open spec fn initial_state() -> StateV {
    StateV {
        player1: PlayerV {
            bat: Vec2V { x: LEFT_BAT_START_X as int, y: BAT_START_Y as int },
            score: 0,
        },
        player2: PlayerV {
            bat: Vec2V { x: RIGHT_BAT_START_X as int, y: BAT_START_Y as int },
            score: 0,
        },
        ball: start_ball(),
    }
}

/// A player after its two move signals for one tick: up wins over
/// down when both are raised, and neither raised leaves the player
/// alone.
pub open spec fn commanded(p: PlayerV, up: bool, down: bool) -> PlayerV {
    if up {
        moved(p, Dir::Up)
    } else if down {
        moved(p, Dir::Down)
    } else {
        p
    }
}

/// One whole simulation tick: both bats follow their move signals,
/// the ball flies and bounces off the long walls, then the collision
/// and scoring rule settles what happened at the short walls.
pub open spec fn stepped(s: StateV, p1_up: bool, p1_down: bool, p2_up: bool, p2_down: bool) -> StateV {
    let p1 = commanded(s.player1, p1_up, p1_down);
    let p2 = commanded(s.player2, p2_up, p2_down);
    let b = advanced(s.ball);
    let after = resolved(b, p1, p2);
    StateV { player1: after.1, player2: after.2, ball: after.0 }
}

/// Everything one simulation tick touches is within the bounds its
/// arithmetic needs.
pub open spec fn state_ok(s: StateV) -> bool {
    &&& vec_ok(s.ball.pos)
    &&& vec_ok(s.ball.vel)
    &&& vec_ok(s.player1.bat)
    &&& vec_ok(s.player2.bat)
    &&& s.player1.score < u32::MAX
    &&& s.player2.score < u32::MAX
}

/// Runtime test of the bounds that [`State::update`] asks for, for
/// callers outside verified code: true exactly when one tick's
/// arithmetic is safe on this state.
pub fn state_in_bounds(s: &State) -> (r: bool)
    ensures
        r == state_ok(s@),
{
    let c: i64 = COORD_LIMIT;
    -c <= s.ball.pos.x && s.ball.pos.x <= c && -c <= s.ball.pos.y && s.ball.pos.y <= c && -c
        <= s.ball.vel.x && s.ball.vel.x <= c && -c <= s.ball.vel.y && s.ball.vel.y <= c && -c
        <= s.player1.bat.x && s.player1.bat.x <= c && -c <= s.player1.bat.y && s.player1.bat.y
        <= c && -c <= s.player2.bat.x && s.player2.bat.x <= c && -c <= s.player2.bat.y
        && s.player2.bat.y <= c && s.player1.score < u32::MAX && s.player2.score < u32::MAX
}

impl State {
    /// A fresh match, exactly as [`initial_state`] describes it.
    pub fn new() -> (s: State)
        ensures
            s@ == initial_state(),
    {
        State {
            player1: Player {
                bat: Vec2 { x: LEFT_BAT_START_X, y: BAT_START_Y },
                score: 0,
            },
            player2: Player {
                bat: Vec2 { x: RIGHT_BAT_START_X, y: BAT_START_Y },
                score: 0,
            },
            ball: Ball {
                pos: Vec2 { x: SCREEN_W_HALF, y: SCREEN_H_HALF },
                vel: Vec2 { x: BALL_START_VEL, y: BALL_START_VEL },
            },
        }
    }

    /// Run one tick of the match from the four move signals sampled
    /// for it: player one's and player two's up and down keys.
    pub fn update(&mut self, p1_up: bool, p1_down: bool, p2_up: bool, p2_down: bool)
        requires
            state_ok(old(self)@),
        ensures
            final(self)@ == stepped(old(self)@, p1_up, p1_down, p2_up, p2_down),
    {
        if p2_up {
            self.player2.update(Dir::Up);
        } else if p2_down {
            self.player2.update(Dir::Down);
        }
        if p1_up {
            self.player1.update(Dir::Up);
        } else if p1_down {
            self.player1.update(Dir::Down);
        }
        self.ball.advance();
        resolve(&mut self.ball, &mut self.player1, &mut self.player2);
    }
}

} // verus!
