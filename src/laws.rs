use vstd::prelude::*;

use crate::consts::{MAX_Y, R, SERVE_SPEED};
use crate::game::{Game, Key, StepDraws};

verus! {

/// The state after pressing each key of `keys` in order.
pub open spec fn pressed_all(g: Game, keys: Seq<Key>) -> Game
    decreases keys.len(),
{
    if keys.len() == 0 {
        g
    } else {
        pressed_all(g.pressed(keys[0]), keys.drop_first())
    }
}

/// The state after one physics step for each element of `ds`, in order.
pub open spec fn stepped_all(g: Game, ds: Seq<StepDraws>) -> Game
    decreases ds.len(),
{
    if ds.len() == 0 {
        g
    } else {
        stepped_all(g.stepped(ds[0]), ds.drop_first())
    }
}

/// At the wall check of a step, a ball above the top wall or below the bottom
/// wall has its vertical speed negated; otherwise the vertical speed is kept.
pub proof fn lemma_wall_reflection(g: Game, d: StepDraws)
    requires
        g.fits(),
    ensures
        ({
            let w = g.hit_left(d.left_nudge).hit_right(d.right_nudge);
            &&& w.ball == g.ball
            &&& (g.ball.1 < R || g.ball.1 + R > MAX_Y) ==> w.bounced().velocity.1 == -w.velocity.1
            &&& !(g.ball.1 < R || g.ball.1 + R > MAX_Y) ==> w.bounced().velocity.1 == w.velocity.1
        }),
{
}

/// In one step neither score decreases, and each grows by exactly one when its
/// player's opponent misses, never by more.
pub proof fn lemma_score_monotone(g: Game, d: StepDraws)
    requires
        g.score.0 < usize::MAX,
        g.score.1 < usize::MAX,
    ensures
        ({
            let m = g.in_flight(d);
            let s = g.stepped(d);
            &&& s.score.1 == g.score.1 + if m.left_missed() { 1int } else { 0 }
            &&& s.score.0 == g.score.0 + if m.scored_left_miss(d.left_serve).right_missed() {
                1int
            } else {
                0
            }
            &&& g.score.0 <= s.score.0 <= g.score.0 + 1
            &&& g.score.1 <= s.score.1 <= g.score.1 + 1
        }),
{
}

/// Over any run of steps neither score decreases, and each grows by at most one
/// per step.
pub proof fn lemma_scores_never_decrease(g: Game, ds: Seq<StepDraws>)
    requires
        g.score.0 + ds.len() < usize::MAX,
        g.score.1 + ds.len() < usize::MAX,
    ensures
        g.score.0 <= stepped_all(g, ds).score.0 <= g.score.0 + ds.len(),
        g.score.1 <= stepped_all(g, ds).score.1 <= g.score.1 + ds.len(),
    decreases ds.len(),
{
    if ds.len() > 0 {
        lemma_score_monotone(g, ds[0]);
        lemma_scores_never_decrease(g.stepped(ds[0]), ds.drop_first());
    }
}

/// Whatever keys are pressed, paddles that start on screen stay on screen.
pub proof fn lemma_paddles_stay_on_screen(g: Game, keys: Seq<Key>)
    requires
        g.paddles_ok(),
    ensures
        pressed_all(g, keys).paddles_ok(),
    decreases keys.len(),
{
    if keys.len() > 0 {
        lemma_paddles_stay_on_screen(g.pressed(keys[0]), keys.drop_first());
    }
}

/// A physics step never moves the paddles.
pub proof fn lemma_step_keeps_paddles(g: Game, d: StepDraws)
    ensures
        g.stepped(d).racket == g.racket,
{
}

/// A ball moving at serve speed horizontally still does so after a step, so the
/// horizontal speed never becomes zero during play.
pub proof fn lemma_horizontal_speed_kept(g: Game, d: StepDraws)
    requires
        g.velocity.0 == SERVE_SPEED || g.velocity.0 == -SERVE_SPEED,
    ensures
        g.stepped(d).velocity.0 == SERVE_SPEED || g.stepped(d).velocity.0 == -SERVE_SPEED,
{
}

} // verus!
