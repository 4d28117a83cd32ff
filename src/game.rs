use vstd::prelude::*;

use crate::consts::{
    BOUND, MAX_SERVE_LIFT, MAX_X, MAX_Y, PADDLE_MAX, R, RACKET_X, RACKET_Y, ROCKET_SPEED,
    SERVE_SPEED, WIN_X,
};
use crate::random::random_u32;

verus! {

/// The edge a ball is served from.
#[derive(Clone, Copy, Debug, PartialEq, Eq, Structural)]
pub enum Side {
    Left,
    Right,
}

/// The two random numbers that decide a serve's vertical speed.
#[derive(Clone, Copy, Debug, PartialEq, Eq, Structural)]
pub struct ServeDraw {
    /// Picks the magnitude, `magnitude % 5 + 1`.
    pub magnitude: u32,
    /// Picks the sign: upward (negative) when even.
    pub sign: u32,
}

/// A ball position and velocity, as handed out by a serve.
pub type Launch = ((i32, i32), (i32, i32));

/// Horizontal launch position of a serve from `side`: just past that side's paddle.
pub open spec fn launch_x(side: Side) -> int {
    match side {
        Side::Left => WIN_X + RACKET_X + R + 1,
        Side::Right => MAX_X - WIN_X - RACKET_X - 1,
    }
}

/// Horizontal speed of a serve from `side`: away from that side.
pub open spec fn launch_dx(side: Side) -> int {
    match side {
        Side::Left => SERVE_SPEED as int,
        Side::Right => -SERVE_SPEED,
    }
}

/// Vertical speed picked by `draw`: a magnitude in `1..=5` with a sign.
pub open spec fn launch_dy(draw: ServeDraw) -> int {
    let m = (draw.magnitude % MAX_SERVE_LIFT) as int + 1;
    if draw.sign % 2 == 0 {
        -m
    } else {
        m
    }
}

/// The launch that a serve from `side` at height `anchor` makes with `draw`.
pub open spec fn launch(side: Side, anchor: i32, draw: ServeDraw) -> Launch {
    ((launch_x(side) as i32, anchor), (launch_dx(side) as i32, launch_dy(draw) as i32))
}

/// Serves from `side` at height `anchor`, with the given random draws.
pub fn serve_with(side: Side, anchor: i32, draw: ServeDraw) -> (r: Launch)
    ensures
        r == launch(side, anchor, draw),
        r.0.0 == launch_x(side),
        r.1.0 == launch_dx(side),
        r.1.1 == launch_dy(draw),
        1 <= r.1.1 <= 5 || -5 <= r.1.1 <= -1,
{
    let m = (draw.magnitude % MAX_SERVE_LIFT) as i32 + 1;
    let dy = if draw.sign % 2 == 0 {
        -m
    } else {
        m
    };
    match side {
        Side::Left => ((WIN_X + RACKET_X + R + 1, anchor), (SERVE_SPEED, dy)),
        Side::Right => ((MAX_X - WIN_X - RACKET_X - 1, anchor), (-SERVE_SPEED, dy)),
    }
}

/// Draws the two random numbers that a serve needs.
pub fn draw_serve() -> (d: ServeDraw) {
    ServeDraw { magnitude: random_u32(), sign: random_u32() }
}

/// Serves from `side` at height `anchor`, with a fresh random vertical speed.
pub fn serve(side: Side, anchor: i32) -> (r: Launch)
    ensures
        exists|d: ServeDraw| r == launch(side, anchor, d),
        r.0 == (launch_x(side) as i32, anchor),
        r.1.0 == launch_dx(side),
        1 <= r.1.1 <= 5 || -5 <= r.1.1 <= -1,
{
    let d = draw_serve();
    serve_with(side, anchor, d)
}

/// A key press that the game reacts to.
#[derive(Clone, Copy, Debug, PartialEq, Eq, Structural)]
pub enum Key {
    /// Left paddle up.
    P,
    /// Left paddle down.
    L,
    /// Right paddle up.
    Q,
    /// Right paddle down.
    A,
    /// Any other key: no effect.
    Other,
}

/// The random numbers one physics step may use.
#[derive(Clone, Copy, Debug, PartialEq, Eq, Structural)]
pub struct StepDraws {
    /// Picks the vertical nudge on a left-paddle hit.
    pub left_nudge: u32,
    /// Picks the vertical nudge on a right-paddle hit.
    pub right_nudge: u32,
    /// Decides the serve after a miss on the left.
    pub left_serve: ServeDraw,
    /// Decides the serve after a miss on the right.
    pub right_serve: ServeDraw,
}

/// The whole simulation state.
#[derive(Clone, Copy, Debug, PartialEq, Eq)]
pub struct Game {
    /// Ball position `(x, y)`.
    pub ball: (i32, i32),
    /// Ball velocity `(dx, dy)` per frame.
    pub velocity: (i32, i32),
    /// Points `(left player, right player)`.
    pub score: (usize, usize),
    /// Top edge of the paddles `(left, right)`.
    pub racket: (i32, i32),
}

/// Change of vertical speed on a paddle hit: `-1` or `0`.
pub open spec fn nudge(n: u32) -> int {
    (n % 2) as int - 1
}

/// Absolute value.
pub open spec fn abs(v: int) -> int {
    if v < 0 {
        -v
    } else {
        v
    }
}

/// `v` lies in `[-b, b]`.
pub open spec fn within(v: int, b: int) -> bool {
    -b <= v <= b
}

impl Game {
    /// Both paddles lie on screen.
    pub open spec fn paddles_ok(self) -> bool {
        0 <= self.racket.0 <= PADDLE_MAX && 0 <= self.racket.1 <= PADDLE_MAX
    }

    /// Every coordinate and speed is small enough that a step cannot overflow.
    pub open spec fn fits(self) -> bool {
        &&& within(self.ball.0 as int, BOUND as int)
        &&& within(self.ball.1 as int, BOUND as int)
        &&& within(self.velocity.0 as int, BOUND as int)
        &&& within(self.velocity.1 as int, BOUND as int)
        &&& within(self.racket.0 as int, BOUND as int)
        &&& within(self.racket.1 as int, BOUND as int)
        &&& self.score.0 < usize::MAX
        &&& self.score.1 < usize::MAX
    }

    /// The ball touches the left paddle's collision plane within its height.
    pub open spec fn left_contact(self) -> bool {
        &&& self.ball.0 <= WIN_X + RACKET_X + R
        &&& self.racket.0 <= self.ball.1 <= self.racket.0 + RACKET_Y
    }

    /// The ball touches the right paddle's collision plane within its height.
    pub open spec fn right_contact(self) -> bool {
        &&& self.ball.0 + R >= MAX_X - WIN_X - RACKET_X
        &&& self.racket.1 <= self.ball.1 <= self.racket.1 + RACKET_Y
    }

    /// The ball is past the top or bottom wall.
    pub open spec fn off_vertical(self) -> bool {
        self.ball.1 + R > MAX_Y || self.ball.1 < R
    }

    /// The ball is past the left or right outer wall.
    pub open spec fn off_horizontal(self) -> bool {
        self.ball.0 + R > MAX_X || self.ball.0 < R
    }

    /// The ball has reached the left wall: a point for the right player.
    pub open spec fn left_missed(self) -> bool {
        self.ball.0 <= R
    }

    /// The ball has reached the right wall: a point for the left player.
    pub open spec fn right_missed(self) -> bool {
        self.ball.0 + R >= MAX_X
    }

    /// Rule one: a left-paddle hit sends the ball right and nudges it vertically.
    pub open spec fn hit_left(self, n: u32) -> Game {
        if self.left_contact() {
            Game {
                velocity: (abs(self.velocity.0 as int) as i32, (self.velocity.1 + nudge(n)) as i32),
                ..self
            }
        } else {
            self
        }
    }

    /// Rule two: a right-paddle hit sends the ball left and nudges it vertically.
    pub open spec fn hit_right(self, n: u32) -> Game {
        if self.right_contact() {
            Game {
                velocity: (-abs(self.velocity.0 as int) as i32, (self.velocity.1 + nudge(n)) as i32),
                ..self
            }
        } else {
            self
        }
    }

    /// Rules three and four: each speed component flips when the ball is past a
    /// wall across it.
    pub open spec fn bounced(self) -> Game {
        let dx = if self.off_horizontal() { -self.velocity.0 } else { self.velocity.0 as int };
        let dy = if self.off_vertical() { -self.velocity.1 } else { self.velocity.1 as int };
        Game { velocity: (dx as i32, dy as i32), ..self }
    }

    /// Rule five: the ball moves by its velocity.
    pub open spec fn moved(self) -> Game {
        Game {
            ball: ((self.ball.0 + self.velocity.0) as i32, (self.ball.1 + self.velocity.1) as i32),
            ..self
        }
    }

    /// Rule six: a miss on the left scores for the right player and serves from
    /// the left paddle's middle.
    pub open spec fn scored_left_miss(self, d: ServeDraw) -> Game {
        if self.left_missed() {
            let l = launch(Side::Left, (self.racket.0 + RACKET_Y / 2) as i32, d);
            Game { ball: l.0, velocity: l.1, score: (self.score.0, (self.score.1 + 1) as usize), ..self }
        } else {
            self
        }
    }

    /// Rule seven: a miss on the right scores for the left player and serves
    /// from the right paddle's middle.
    pub open spec fn scored_right_miss(self, d: ServeDraw) -> Game {
        if self.right_missed() {
            let l = launch(Side::Right, (self.racket.1 + RACKET_Y / 2) as i32, d);
            Game { ball: l.0, velocity: l.1, score: ((self.score.0 + 1) as usize, self.score.1), ..self }
        } else {
            self
        }
    }

    /// The state after the ball has moved, before any scoring.
    pub open spec fn in_flight(self, d: StepDraws) -> Game {
        self.hit_left(d.left_nudge).hit_right(d.right_nudge).bounced().moved()
    }

    /// One whole physics step: the seven rules in order.
    pub open spec fn stepped(self, d: StepDraws) -> Game {
        self.in_flight(d).scored_left_miss(d.left_serve).scored_right_miss(d.right_serve)
    }

    /// The state after one key press.
    pub open spec fn pressed(self, k: Key) -> Game {
        let (l, r) = (self.racket.0 as int, self.racket.1 as int);
        let up = |p: int| if p - ROCKET_SPEED < 0 { 0 } else { p - ROCKET_SPEED };
        let down = |p: int| if p + ROCKET_SPEED > PADDLE_MAX { PADDLE_MAX as int } else { p + ROCKET_SPEED };
        match k {
            Key::P => Game { racket: (up(l) as i32, self.racket.1), ..self },
            Key::L => Game { racket: (down(l) as i32, self.racket.1), ..self },
            Key::Q => Game { racket: (self.racket.0, up(r) as i32), ..self },
            Key::A => Game { racket: (self.racket.0, down(r) as i32), ..self },
            Key::Other => self,
        }
    }

    /// The state at the start of play: the ball served from `side` at mid-height,
    /// paddles centred, no points.
    pub open spec fn opening(side: Side, d: ServeDraw) -> Game {
        let l = launch(side, (MAX_Y / 2) as i32, d);
        Game {
            ball: l.0,
            velocity: l.1,
            score: (0, 0),
            racket: ((MAX_Y / 2 - RACKET_Y / 2) as i32, (MAX_Y / 2 - RACKET_Y / 2) as i32),
        }
    }
}

/// Draws the random numbers that one physics step may use.
pub fn draw_step() -> (d: StepDraws) {
    let left_nudge = random_u32();
    let right_nudge = random_u32();
    let left_serve = draw_serve();
    let right_serve = draw_serve();
    StepDraws { left_nudge, right_nudge, left_serve, right_serve }
}

impl Game {
    /// Tells whether both paddles lie on screen.
    pub fn paddles_on_screen(&self) -> (r: bool)
        ensures
            r == self.paddles_ok(),
    {
        0 <= self.racket.0 && self.racket.0 <= PADDLE_MAX && 0 <= self.racket.1 && self.racket.1
            <= PADDLE_MAX
    }

    /// Tells whether a physics step can be taken without overflow.
    pub fn in_bounds(&self) -> (r: bool)
        ensures
            r == self.fits(),
    {
        -BOUND <= self.ball.0 && self.ball.0 <= BOUND && -BOUND <= self.ball.1 && self.ball.1
            <= BOUND && -BOUND <= self.velocity.0 && self.velocity.0 <= BOUND && -BOUND
            <= self.velocity.1 && self.velocity.1 <= BOUND && -BOUND <= self.racket.0
            && self.racket.0 <= BOUND && -BOUND <= self.racket.1 && self.racket.1 <= BOUND
            && self.score.0 < usize::MAX && self.score.1 < usize::MAX
    }

    /// Starts play with the ball served from `side` at mid-height.
    pub fn new_with(side: Side, d: ServeDraw) -> (g: Game)
        ensures
            g == Game::opening(side, d),
            g.paddles_ok(),
            g.fits(),
    {
        let (ball, velocity) = serve_with(side, MAX_Y / 2, d);
        let mid = MAX_Y / 2 - RACKET_Y / 2;
        Game { ball, velocity, score: (0, 0), racket: (mid, mid) }
    }

    /// Starts play with the ball served from a random side.
    pub fn new() -> (g: Game)
        ensures
            exists|side: Side, d: ServeDraw| g == Game::opening(side, d),
            g.paddles_ok(),
            g.fits(),
    {
        let side = if random_u32() % 2 == 0 {
            Side::Left
        } else {
            Side::Right
        };
        Game::new_with(side, draw_serve())
    }

    /// Applies rule one: the left-paddle collision.
    pub fn hit_left_paddle(&mut self, n: u32)
        requires
            old(self).racket.0 + RACKET_Y <= i32::MAX,
            old(self).velocity.0 > i32::MIN,
            old(self).velocity.1 > i32::MIN,
        ensures
            *final(self) == old(self).hit_left(n),
            old(self).left_contact() && old(self).velocity.0 != 0 ==> final(self).velocity.0 > 0,
    {
        if self.ball.0 <= WIN_X + RACKET_X + R && self.ball.1 >= self.racket.0 && self.ball.1
            <= self.racket.0 + RACKET_Y {
            let dx = self.velocity.0;
            self.velocity.0 = if dx < 0 {
                -dx
            } else {
                dx
            };
            self.velocity.1 = self.velocity.1 + ((n % 2) as i32 - 1);
        }
    }

    /// Applies rule two: the right-paddle collision.
    pub fn hit_right_paddle(&mut self, n: u32)
        requires
            old(self).ball.0 + R <= i32::MAX,
            old(self).racket.1 + RACKET_Y <= i32::MAX,
            old(self).velocity.0 > i32::MIN,
            old(self).velocity.1 > i32::MIN,
        ensures
            *final(self) == old(self).hit_right(n),
            old(self).right_contact() && old(self).velocity.0 != 0 ==> final(self).velocity.0 < 0,
    {
        if self.ball.0 + R >= MAX_X - WIN_X - RACKET_X && self.ball.1 >= self.racket.1
            && self.ball.1 <= self.racket.1 + RACKET_Y {
            let dx = self.velocity.0;
            self.velocity.0 = if dx < 0 {
                dx
            } else {
                -dx
            };
            self.velocity.1 = self.velocity.1 + ((n % 2) as i32 - 1);
        }
    }

    /// Applies rules three and four: bouncing off the walls.
    pub fn bounce_walls(&mut self)
        requires
            old(self).ball.0 + R <= i32::MAX,
            old(self).ball.1 + R <= i32::MAX,
            old(self).velocity.0 > i32::MIN,
            old(self).velocity.1 > i32::MIN,
        ensures
            *final(self) == old(self).bounced(),
            final(self).velocity.1 == if old(self).off_vertical() {
                -old(self).velocity.1
            } else {
                old(self).velocity.1 as int
            },
            final(self).velocity.0 == if old(self).off_horizontal() {
                -old(self).velocity.0
            } else {
                old(self).velocity.0 as int
            },
    {
        if self.ball.0 + R > MAX_X || self.ball.0 < R {
            self.velocity.0 = -self.velocity.0;
        }
        if self.ball.1 + R > MAX_Y || self.ball.1 < R {
            self.velocity.1 = -self.velocity.1;
        }
    }

    /// Applies rule five: moves the ball by its velocity.
    pub fn integrate(&mut self)
        requires
            i32::MIN <= old(self).ball.0 + old(self).velocity.0 <= i32::MAX,
            i32::MIN <= old(self).ball.1 + old(self).velocity.1 <= i32::MAX,
        ensures
            *final(self) == old(self).moved(),
            final(self).ball.0 == old(self).ball.0 + old(self).velocity.0,
            final(self).ball.1 == old(self).ball.1 + old(self).velocity.1,
    {
        self.ball.0 = self.ball.0 + self.velocity.0;
        self.ball.1 = self.ball.1 + self.velocity.1;
    }

    /// Applies rule six: a miss on the left.
    pub fn score_left_miss(&mut self, d: ServeDraw)
        requires
            old(self).racket.0 + RACKET_Y / 2 <= i32::MAX,
            old(self).score.1 < usize::MAX,
        ensures
            *final(self) == old(self).scored_left_miss(d),
    {
        if self.ball.0 <= R {
            self.score.1 = self.score.1 + 1;
            let (start, velocity) = serve_with(Side::Left, self.racket.0 + RACKET_Y / 2, d);
            self.ball = start;
            self.velocity = velocity;
        }
    }

    /// Applies rule seven: a miss on the right.
    pub fn score_right_miss(&mut self, d: ServeDraw)
        requires
            old(self).ball.0 + R <= i32::MAX,
            old(self).racket.1 + RACKET_Y / 2 <= i32::MAX,
            old(self).score.0 < usize::MAX,
        ensures
            *final(self) == old(self).scored_right_miss(d),
    {
        if self.ball.0 + R >= MAX_X {
            self.score.0 = self.score.0 + 1;
            let (start, velocity) = serve_with(Side::Right, self.racket.1 + RACKET_Y / 2, d);
            self.ball = start;
            self.velocity = velocity;
        }
    }

    /// One physics step with the given random draws.
    pub fn advance(&mut self, d: StepDraws)
        requires
            old(self).fits(),
        ensures
            *final(self) == old(self).stepped(d),
    {
        self.hit_left_paddle(d.left_nudge);
        self.hit_right_paddle(d.right_nudge);
        self.bounce_walls();
        self.integrate();
        self.score_left_miss(d.left_serve);
        self.score_right_miss(d.right_serve);
    }

    /// One physics step with fresh random draws.
    pub fn update(&mut self)
        requires
            old(self).fits(),
        ensures
            exists|d: StepDraws| *final(self) == old(self).stepped(d),
    {
        let d = draw_step();
        self.advance(d);
    }

    /// Moves a paddle for one key press, keeping it on screen.
    pub fn event(&mut self, key: Key)
        requires
            old(self).paddles_ok(),
        ensures
            *final(self) == old(self).pressed(key),
            final(self).paddles_ok(),
    {
        match key {
            Key::P => {
                let p = self.racket.0 - ROCKET_SPEED;
                self.racket.0 = if p < 0 { 0 } else { p };
            },
            Key::L => {
                let p = self.racket.0 + ROCKET_SPEED;
                self.racket.0 = if p > PADDLE_MAX { PADDLE_MAX } else { p };
            },
            Key::Q => {
                let p = self.racket.1 - ROCKET_SPEED;
                self.racket.1 = if p < 0 { 0 } else { p };
            },
            Key::A => {
                let p = self.racket.1 + ROCKET_SPEED;
                self.racket.1 = if p > PADDLE_MAX { PADDLE_MAX } else { p };
            },
            Key::Other => {},
        }
    }

    /// The digits shown for the two scores: each score modulo 10.
    pub fn score_digits(&self) -> (r: (usize, usize))
        ensures
            r == (self.score.0 % 10, self.score.1 % 10),
    {
        (self.score.0 % 10, self.score.1 % 10)
    }
}

} // verus!
