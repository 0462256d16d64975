use pong::ball::Ball;
use pong::court::{resolve, speed_up, State};
use pong::geom::Vec2;
use pong::player::{Dir, Player};

fn left_player() -> Player {
    Player { bat: Vec2 { x: 360, y: 500 }, score: 0 }
}

fn right_player() -> Player {
    Player { bat: Vec2 { x: 5540, y: 500 }, score: 0 }
}

#[test]
fn new_match_starts_centred() {
    let s = State::new();
    assert_eq!(s.player1.bat.x, 360);
    assert_eq!(s.player1.bat.y, 500);
    assert_eq!(s.player1.score, 0);
    assert_eq!(s.player2.bat.x, 5540);
    assert_eq!(s.player2.bat.y, 500);
    assert_eq!(s.player2.score, 0);
    assert_eq!(s.ball.pos.x, 3000);
    assert_eq!(s.ball.pos.y, 2500);
    assert_eq!(s.ball.vel.x, 10);
    assert_eq!(s.ball.vel.y, 10);
}

#[test]
fn paddle_moves_one_step() {
    let mut p = left_player();
    p.update(Dir::Up);
    assert_eq!(p.bat.y, 450);
    p.update(Dir::Down);
    assert_eq!(p.bat.y, 500);
    assert_eq!(p.bat.x, 360);
    assert_eq!(p.score, 0);
}

#[test]
fn paddle_clamps_to_court() {
    let mut p = left_player();
    p.bat.y = 10;
    p.update(Dir::Up);
    assert_eq!(p.bat.y, 0);
    p.update(Dir::Up);
    assert_eq!(p.bat.y, 0);
    p.bat.y = 4480;
    p.update(Dir::Down);
    assert_eq!(p.bat.y, 4500);
    p.update(Dir::Down);
    assert_eq!(p.bat.y, 4500);
}

#[test]
fn paddle_clamp_holds_over_any_run_of_moves() {
    let mut p = left_player();
    p.bat.y = 3;
    let moves = [
        Dir::Up,
        Dir::Up,
        Dir::Down,
        Dir::Up,
        Dir::Down,
        Dir::Down,
        Dir::Down,
        Dir::Up,
    ];
    for _round in 0..200 {
        for d in moves {
            p.update(d);
            assert!(0 <= p.bat.y && p.bat.y <= 4500);
        }
    }
}

#[test]
fn ball_reflects_off_top_wall() {
    let mut b = Ball { pos: Vec2 { x: 100, y: -30 }, vel: Vec2 { x: 5, y: 20 } };
    b.advance();
    assert_eq!(b.pos.x, 105);
    assert_eq!(b.pos.y, 10);
    assert!(b.pos.y >= 0);
    assert_eq!(b.vel.x, 5);
    assert_eq!(b.vel.y, -20);
}

#[test]
fn ball_reflects_off_bottom_wall() {
    let mut b = Ball { pos: Vec2 { x: 100, y: 4995 }, vel: Vec2 { x: 5, y: 20 } };
    b.advance();
    assert_eq!(b.pos.y, 4985);
    assert_eq!(b.vel.y, -20);
}

#[test]
fn ball_flies_straight_between_walls() {
    let mut b = Ball { pos: Vec2 { x: 3000, y: 2500 }, vel: Vec2 { x: 10, y: 10 } };
    b.advance();
    assert_eq!(b.pos.x, 3010);
    assert_eq!(b.pos.y, 2510);
    assert_eq!(b.vel.x, 10);
    assert_eq!(b.vel.y, 10);
}

#[test]
fn reset_always_recentres_the_ball() {
    let mut b = Ball { pos: Vec2 { x: -777, y: 123456 }, vel: Vec2 { x: -33, y: 98 } };
    b.reset();
    assert_eq!(b.pos.x, 3000);
    assert_eq!(b.pos.y, 2500);
    assert_eq!(b.vel.x, 10);
    assert_eq!(b.vel.y, 10);
}

#[test]
fn miss_past_right_bat_scores_for_the_left() {
    let mut ball = Ball { pos: Vec2 { x: 5900, y: 100 }, vel: Vec2 { x: 10, y: 10 } };
    let mut left = left_player();
    let mut right = right_player();
    resolve(&mut ball, &mut left, &mut right);
    assert_eq!(left.score, 1);
    assert_eq!(right.score, 0);
    assert_eq!(ball.pos.x, 3000);
    assert_eq!(ball.pos.y, 2500);
    assert_eq!(ball.vel.x, 10);
    assert_eq!(ball.vel.y, 10);
}

#[test]
fn miss_past_left_bat_scores_for_the_right() {
    let mut ball = Ball { pos: Vec2 { x: 200, y: 4000 }, vel: Vec2 { x: -10, y: 10 } };
    let mut left = left_player();
    let mut right = right_player();
    resolve(&mut ball, &mut left, &mut right);
    assert_eq!(left.score, 0);
    assert_eq!(right.score, 1);
    assert_eq!(ball.pos.x, 3000);
    assert_eq!(ball.pos.y, 2500);
}

#[test]
fn hit_on_left_bat_reverses_and_speeds_up() {
    let mut ball = Ball { pos: Vec2 { x: 460, y: 700 }, vel: Vec2 { x: -20, y: 10 } };
    let mut left = left_player();
    let mut right = right_player();
    resolve(&mut ball, &mut left, &mut right);
    assert_eq!(ball.vel.x, 22);
    assert_eq!(ball.vel.y, 11);
    assert_eq!(ball.pos.x, 460);
    assert_eq!(ball.pos.y, 700);
    assert_eq!(left.score, 0);
    assert_eq!(right.score, 0);
}

#[test]
fn hit_on_right_bat_reverses_and_speeds_up() {
    let mut ball = Ball { pos: Vec2 { x: 5540, y: 900 }, vel: Vec2 { x: 20, y: -10 } };
    let mut left = left_player();
    let mut right = right_player();
    resolve(&mut ball, &mut left, &mut right);
    assert_eq!(ball.vel.x, -22);
    assert_eq!(ball.vel.y, -11);
    assert_eq!(ball.pos.x, 5540);
    assert_eq!(ball.pos.y, 900);
    assert_eq!(left.score, 0);
    assert_eq!(right.score, 0);
}

#[test]
fn midcourt_resolve_changes_nothing() {
    for y in [-900_000i64, 0, 250, 2500, 900_000] {
        let mut ball = Ball { pos: Vec2 { x: 3000, y }, vel: Vec2 { x: -40, y: 7 } };
        let mut left = left_player();
        let mut right = right_player();
        resolve(&mut ball, &mut left, &mut right);
        assert_eq!(ball.pos.x, 3000);
        assert_eq!(ball.pos.y, y);
        assert_eq!(ball.vel.x, -40);
        assert_eq!(ball.vel.y, 7);
        assert_eq!(left.score, 0);
        assert_eq!(right.score, 0);
        assert_eq!(left.bat.y, 500);
        assert_eq!(right.bat.y, 500);
    }
}

#[test]
fn boundary_touch_counts_as_a_hit() {
    // Exactly on the left bat's right edge, exactly on its lower span end.
    let mut ball = Ball { pos: Vec2 { x: 460, y: 1000 }, vel: Vec2 { x: -10, y: 10 } };
    let mut left = left_player();
    let mut right = right_player();
    resolve(&mut ball, &mut left, &mut right);
    assert_eq!(ball.vel.x, 11);
    assert_eq!(ball.vel.y, 11);
    assert_eq!(right.score, 0);
}

#[test]
fn speed_up_rounds_magnitude_down_and_keeps_sign() {
    assert_eq!(speed_up(0), 0);
    assert_eq!(speed_up(10), 11);
    assert_eq!(speed_up(-10), -11);
    assert_eq!(speed_up(15), 16);
    assert_eq!(speed_up(-15), -16);
    assert_eq!(speed_up(22), 24);
    assert_eq!(speed_up(-22), -24);
}

#[test]
fn tick_applies_input_and_flight() {
    let mut s = State::new();
    s.update(false, false, false, false);
    assert_eq!(s.ball.pos.x, 3010);
    assert_eq!(s.ball.pos.y, 2510);
    assert_eq!(s.player1.bat.y, 500);
    assert_eq!(s.player2.bat.y, 500);
    assert_eq!(s.player1.score, 0);
    assert_eq!(s.player2.score, 0);
}

#[test]
fn tick_up_wins_over_down() {
    let mut s = State::new();
    s.update(true, true, false, true);
    assert_eq!(s.player1.bat.y, 450);
    assert_eq!(s.player2.bat.y, 550);
}

#[test]
fn tick_can_end_in_a_hit() {
    let mut s = State::new();
    s.ball.pos = Vec2 { x: 5530, y: 700 };
    s.update(false, false, false, false);
    // The ball advanced onto the right bat's left edge, level with the
    // bat, so it bounced back sped up.
    assert_eq!(s.ball.pos.x, 5540);
    assert_eq!(s.ball.pos.y, 710);
    assert_eq!(s.ball.vel.x, -11);
    assert_eq!(s.ball.vel.y, 11);
    assert_eq!(s.player1.score, 0);
    assert_eq!(s.player2.score, 0);
}

#[test]
fn unattended_rally_ends_in_a_point_and_a_reset() {
    let mut s = State::new();
    let mut ticks = 0u32;
    while s.player1.score + s.player2.score == 0 {
        s.update(false, false, false, false);
        ticks += 1;
        assert!(ticks < 100_000);
    }
    // With nobody moving a bat the ball gets past one of them sooner or
    // later; the point is scored and the ball is back at the centre.
    assert_eq!(s.player1.score + s.player2.score, 1);
    assert_eq!(s.ball.pos.x, 3000);
    assert_eq!(s.ball.pos.y, 2500);
    assert_eq!(s.ball.vel.x, 10);
    assert_eq!(s.ball.vel.y, 10);
}
