use ping_pong::consts::{MAX_X, R, RACKET_X, WIN_X};
use ping_pong::game::{serve, serve_with, Game, Key, ServeDraw, Side, StepDraws};

fn draws(left_nudge: u32, right_nudge: u32, left_serve: ServeDraw, right_serve: ServeDraw) -> StepDraws {
    StepDraws { left_nudge, right_nudge, left_serve, right_serve }
}

fn sd(magnitude: u32, sign: u32) -> ServeDraw {
    ServeDraw { magnitude, sign }
}

fn state(ball: (i32, i32), velocity: (i32, i32), racket: (i32, i32)) -> Game {
    Game { ball, velocity, score: (0, 0), racket }
}

#[test]
fn ball_in_midfield_just_moves() {
    let mut g = state((410, 100), (-5, 3), (250, 300));
    g.advance(draws(0, 0, sd(0, 0), sd(0, 0)));
    assert_eq!(g.ball, (405, 103));
    assert_eq!(g.velocity, (-5, 3));
    assert_eq!(g.score, (0, 0));
}

#[test]
fn right_paddle_collision_forces_leftward() {
    let mut g = state((795, 400), (5, 0), (250, 350));
    g.hit_right_paddle(1);
    assert_eq!(g.velocity, (-5, 0));
    g.hit_right_paddle(0);
    assert_eq!(g.velocity, (-5, -1));
}

#[test]
fn right_paddle_hit_past_outer_wall_still_scores() {
    // The outer-wall bounce flips the ball back to the right, so it reaches the wall.
    let mut g = state((795, 400), (5, 0), (250, 350));
    g.advance(draws(1, 1, sd(0, 0), sd(3, 1)));
    assert_eq!(g.score, (1, 0));
    assert_eq!(g.ball, (MAX_X - WIN_X - RACKET_X - 1, 400));
    assert_eq!(g.velocity, (-5, 4));
}

#[test]
fn left_miss_moves_then_serves_from_left() {
    let mut g = state((8, 300), (-5, 0), (250, 250));
    g.hit_left_paddle(1);
    g.hit_right_paddle(1);
    g.bounce_walls();
    g.integrate();
    assert_eq!(g.ball, (3, 300));
    g.score_left_miss(sd(2, 1));
    assert_eq!(g.score, (0, 1));
    assert_eq!(g.ball, (WIN_X + RACKET_X + R + 1, 300));
    assert_eq!(g.velocity, (5, 3));
}

#[test]
fn left_miss_full_step() {
    let mut g = state((8, 300), (-5, 0), (250, 250));
    g.advance(draws(0, 0, sd(2, 1), sd(0, 0)));
    assert_eq!(g.score, (0, 1));
    assert_eq!(g.ball, (51, 300));
    assert_eq!(g.velocity, (5, 3));
}

#[test]
fn outer_wall_bounce_without_paddle_saves_the_point() {
    let mut g = state((8, 300), (-5, 0), (0, 250));
    g.advance(draws(0, 0, sd(2, 1), sd(0, 0)));
    assert_eq!(g.score, (0, 0));
    assert_eq!(g.ball, (13, 300));
    assert_eq!(g.velocity, (5, 0));
}

#[test]
fn wall_reflection_top_and_bottom() {
    let mut g = state((400, 5), (5, -7), (250, 250));
    g.bounce_walls();
    assert_eq!(g.velocity, (5, 7));
    let mut h = state((400, 595), (5, 7), (250, 250));
    h.bounce_walls();
    assert_eq!(h.velocity, (5, -7));
    let mut k = state((400, 300), (5, 7), (250, 250));
    k.bounce_walls();
    assert_eq!(k.velocity, (5, 7));
}

#[test]
fn outer_wall_bounce_flips_horizontal() {
    let mut g = state((795, 300), (5, 1), (250, 250));
    g.bounce_walls();
    assert_eq!(g.velocity, (-5, 1));
}

#[test]
fn left_collision_sends_right_whatever_the_sign() {
    let mut g = state((45, 260), (-5, 2), (250, 250));
    g.hit_left_paddle(0);
    assert_eq!(g.velocity, (5, 1));
    let mut h = state((45, 260), (5, 2), (250, 250));
    h.hit_left_paddle(1);
    assert_eq!(h.velocity, (5, 2));
}

#[test]
fn no_collision_outside_paddle_range() {
    let mut g = state((45, 100), (-5, 2), (250, 250));
    g.hit_left_paddle(0);
    assert_eq!(g.velocity, (-5, 2));
}

#[test]
fn serve_from_each_side() {
    let l = serve_with(Side::Left, 123, sd(0, 0));
    assert_eq!(l, ((WIN_X + RACKET_X + R + 1, 123), (5, -1)));
    let r = serve_with(Side::Right, 77, sd(9, 3));
    assert_eq!(r, ((MAX_X - WIN_X - RACKET_X - 1, 77), (-5, 5)));
}

#[test]
fn random_serve_has_nonzero_lift() {
    for _ in 0..200 {
        let ((x, y), (dx, dy)) = serve(Side::Left, 300);
        assert_eq!((x, y, dx), (51, 300, 5));
        assert!(dy != 0 && (-5..=5).contains(&dy));
        let ((x, y), (dx, dy)) = serve(Side::Right, 40);
        assert_eq!((x, y, dx), (759, 40, -5));
        assert!(dy != 0 && (-5..=5).contains(&dy));
    }
}

#[test]
fn opening_state() {
    let g = Game::new_with(Side::Right, sd(4, 1));
    assert_eq!(g.ball, (759, 300));
    assert_eq!(g.velocity, (-5, 5));
    assert_eq!(g.score, (0, 0));
    assert_eq!(g.racket, (250, 250));
    let h = Game::new();
    assert_eq!(h.racket, (250, 250));
    assert_eq!(h.ball.1, 300);
    assert!(h.velocity.0 == 5 || h.velocity.0 == -5);
}

#[test]
fn keys_move_and_clamp_paddles() {
    let mut g = state((400, 300), (5, 1), (20, 480));
    g.event(Key::P);
    assert_eq!(g.racket, (0, 480));
    g.event(Key::L);
    assert_eq!(g.racket, (40, 480));
    g.event(Key::A);
    assert_eq!(g.racket, (40, 500));
    g.event(Key::Q);
    assert_eq!(g.racket, (40, 460));
    g.event(Key::Other);
    assert_eq!(g.racket, (40, 460));
}

#[test]
fn paddles_stay_in_range_over_many_presses() {
    let mut g = Game::new();
    let keys = [Key::P, Key::L, Key::Q, Key::A, Key::L, Key::L, Key::A, Key::Q];
    for i in 0..400 {
        g.event(keys[(i * 7 + i / 3) % keys.len()]);
        assert!((0..=500).contains(&g.racket.0));
        assert!((0..=500).contains(&g.racket.1));
    }
}

#[test]
fn scores_never_decrease_over_random_play() {
    let mut g = Game::new();
    for _ in 0..5000 {
        let before = g.score;
        g.update();
        assert!(g.score.0 == before.0 || g.score.0 == before.0 + 1);
        assert!(g.score.1 == before.1 || g.score.1 == before.1 + 1);
        assert!(g.velocity.0 == 5 || g.velocity.0 == -5);
        assert_eq!(g.racket, (250, 250));
    }
}

#[test]
fn score_digits_wrap_at_ten() {
    let mut g = state((400, 300), (5, 1), (250, 250));
    g.score = (13, 7);
    assert_eq!(g.score_digits(), (3, 7));
}

#[test]
fn bounds_checks() {
    let g = state((400, 300), (5, 1), (250, 250));
    assert!(g.in_bounds());
    assert!(g.paddles_on_screen());
    let mut h = g;
    h.velocity.1 = 1_000_000_001;
    assert!(!h.in_bounds());
    h = g;
    h.score.0 = usize::MAX;
    assert!(!h.in_bounds());
    h = g;
    h.racket.1 = 501;
    assert!(!h.paddles_on_screen());
    h.racket.1 = -1;
    assert!(!h.paddles_on_screen());
}
