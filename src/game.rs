use vstd::prelude::*;

use crate::ball::Ball;
use crate::geometry::{
    circle_hits_rect, circle_intersects_rect, fit, saturate, LIMIT, UNITS_PER_PIXEL,
};
use crate::paddle::{Paddle, Rgba};

verus! {

/// Horizontal speed after a paddle hit: reversed and amplified by 10%,
/// truncated towards zero.
pub open spec fn bounce_speed_x(v: int) -> int {
    fit(if v < 0 { (-v * 11) / 10 } else { -((v * 11) / 10) })
}

/// `n / d` rounded towards zero, for a positive `d`.
pub open spec fn trunc_div(n: int, d: int) -> int {
    if n >= 0 { n / d } else { -((-n) / d) }
}

/// Vertical speed after a paddle hit: the offset of the ball from the paddle
/// centre, over half the paddle height, times the new horizontal speed.
pub open spec fn bounce_speed_y(offset: int, speed_x: int, height: int) -> int {
    fit(trunc_div(2 * offset * speed_x, height))
}

/// The ball after bouncing off `p`.
pub open spec fn bounced_off(b: Ball, p: Paddle) -> Ball {
    let nx = bounce_speed_x(b.speed_x as int);
    Ball { speed_x: nx as i64, speed_y: bounce_speed_y(b.y - p.y, nx, p.height as int) as i64, ..b }
}

/// Whether the ball touches the paddle's collision rectangle.
pub open spec fn touches(b: Ball, p: Paddle) -> bool {
    circle_hits_rect(b.x as int, b.y as int, b.radius as int, p.rect())
}

/// A left-paddle bounce happens only on contact while moving left.
pub open spec fn hits_left(b: Ball, p: Paddle) -> bool {
    b.speed_x < 0 && touches(b, p)
}

/// A right-paddle bounce happens only on contact while moving right.
pub open spec fn hits_right(b: Ball, p: Paddle) -> bool {
    b.speed_x > 0 && touches(b, p)
}

/// The ball after the left-paddle collision step.
pub open spec fn after_left(b: Ball, p: Paddle) -> Ball {
    if hits_left(b, p) { bounced_off(b, p) } else { b }
}

/// The ball after the right-paddle collision step.
pub open spec fn after_right(b: Ball, p: Paddle) -> Ball {
    if hits_right(b, p) { bounced_off(b, p) } else { b }
}

fn reverse_amplified(v: i64) -> (r: i64)
    ensures
        r == bounce_speed_x(v as int),
{
    let w = v as i128 * 11;
    if v < 0 {
        saturate((-w) / 10)
    } else {
        saturate(-(w / 10))
    }
}

fn deflection(offset: i128, speed_x: i64, height: i64) -> (r: i64)
    requires
        height > 0,
        -0xffff_ffff_ffff_ffff <= offset <= 0xffff_ffff_ffff_ffff,
        speed_x >= -LIMIT,
    ensures
        r == bounce_speed_y(offset as int, speed_x as int, height as int),
{
    proof {
        assert(-0x7fff_ffff_ffff_ffff_0000_0000_0000_0000 <= offset * speed_x
            <= 0x7fff_ffff_ffff_ffff_0000_0000_0000_0000) by (nonlinear_arith)
            requires
                -0xffff_ffff_ffff_ffff <= offset <= 0xffff_ffff_ffff_ffff,
                -0x7fff_ffff_ffff_ffff <= speed_x <= 0x7fff_ffff_ffff_ffff,
        ;
        assert(2 * offset * speed_x == 2 * (offset * speed_x)) by (nonlinear_arith);
    }
    let n = offset * speed_x as i128;
    let mag: u128 = if n >= 0 { n as u128 } else { (-n) as u128 };
    let q = (mag * 2) / (height as u128);
    if q > LIMIT as u128 {
        if n >= 0 { LIMIT } else { -LIMIT }
    } else if n >= 0 {
        q as i64
    } else {
        -(q as i64)
    }
}

/// Bounces the ball off `paddle` if it touches it while moving left.
pub fn bounce_off_left(ball: &mut Ball, paddle: &Paddle)
    requires
        paddle.wf(),
    ensures
        *final(ball) == after_left(*old(ball), *paddle),
{
    if circle_intersects_rect(ball.x, ball.y, ball.radius, paddle.get_rect()) {
        if ball.speed_x < 0 {
            let nx = reverse_amplified(ball.speed_x);
            ball.speed_y = deflection(ball.y as i128 - paddle.y as i128, nx, paddle.height);
            ball.speed_x = nx;
        }
    }
}

/// Bounces the ball off `paddle` if it touches it while moving right.
pub fn bounce_off_right(ball: &mut Ball, paddle: &Paddle)
    requires
        paddle.wf(),
    ensures
        *final(ball) == after_right(*old(ball), *paddle),
{
    if circle_intersects_rect(ball.x, ball.y, ball.radius, paddle.get_rect()) {
        if ball.speed_x > 0 {
            let nx = reverse_amplified(ball.speed_x);
            ball.speed_y = deflection(ball.y as i128 - paddle.y as i128, nx, paddle.height);
            ball.speed_x = nx;
        }
    }
}

/// Once a left bounce has happened the ball moves right, so touching the same
/// paddle again does nothing: a ball moving right never bounces off the left
/// paddle, and one moving left never off the right paddle.
pub proof fn lemma_bounce_not_retriggered(b: Ball, p: Paddle)
    requires
        p.wf(),
    ensures
        b.speed_x >= 0 ==> after_left(b, p) == b,
        b.speed_x <= 0 ==> after_right(b, p) == b,
        hits_left(b, p) ==> after_left(b, p).speed_x > 0
            && after_left(after_left(b, p), p) == after_left(b, p),
        hits_right(b, p) ==> after_right(b, p).speed_x < 0
            && after_right(after_right(b, p), p) == after_right(b, p),
{
}

/// The player who won the round.
#[derive(Clone, Copy, Debug, PartialEq, Eq, Structural)]
pub enum Winner {
    LeftPlayer,
    RightPlayer,
}

impl Winner {
    /// The banner announcing this winner.
    pub fn message(&self) -> (r: &'static str)
        ensures
            *self == Winner::LeftPlayer ==> r@ == "Left Player Wins!"@,
            *self == Winner::RightPlayer ==> r@ == "Right Player Wins!"@,
    {
        match self {
            Winner::LeftPlayer => "Left Player Wins!",
            Winner::RightPlayer => "Right Player Wins!",
        }
    }
}

/// Who has won once the ball's centre is at `x`: past the left edge the right
/// player, past the right edge the left player.
pub open spec fn winner_at(x: int, screen_width: int) -> Option<Winner> {
    if x > screen_width {
        Some(Winner::LeftPlayer)
    } else if x < 0 {
        Some(Winner::RightPlayer)
    } else {
        None
    }
}

/// The winner, if the ball at `ball_x` has left the playfield sideways.
pub fn detect_winner(ball_x: i64, screen_width: i64) -> (r: Option<Winner>)
    ensures
        r == winner_at(ball_x as int, screen_width as int),
{
    let mut w: Option<Winner> = None;
    if ball_x < 0 {
        w = Some(Winner::RightPlayer);
    }
    if ball_x > screen_width {
        w = Some(Winner::LeftPlayer);
    }
    w
}

/// The banner text for the ball at `ball_x`: empty while it is in play.
pub fn banner_text(ball_x: i64, screen_width: i64) -> (r: &'static str)
    ensures
        winner_at(ball_x as int, screen_width as int) == Some(Winner::LeftPlayer)
            ==> r@ == "Left Player Wins!"@,
        winner_at(ball_x as int, screen_width as int) == Some(Winner::RightPlayer)
            ==> r@ == "Right Player Wins!"@,
        winner_at(ball_x as int, screen_width as int) is None ==> r@ == ""@,
{
    match detect_winner(ball_x, screen_width) {
        Some(w) => w.message(),
        None => "",
    }
}

/// The keys that drive one frame.
#[derive(Clone, Copy, Debug, PartialEq, Eq, Structural)]
pub struct Input {
    pub left_up: bool,
    pub left_down: bool,
    pub right_up: bool,
    pub right_down: bool,
    pub serve: bool,
}

/// A match: the ball, both paddles, the playfield and the round's outcome.
#[derive(Clone, Copy, Debug, PartialEq, Eq, Structural)]
pub struct Game {
    pub ball: Ball,
    pub left_paddle: Paddle,
    pub right_paddle: Paddle,
    pub screen_width: i64,
    pub screen_height: i64,
    pub serve_speed: i64,
    pub winner: Option<Winner>,
}

/// Speed of the ball along each axis when served, in pixels per second.
pub const SERVE_SPEED: i64 = 300;

/// Radius of the ball.
pub const BALL_RADIUS: i64 = 5 * UNITS_PER_PIXEL;

/// Distance of each paddle's centre from its side of the playfield.
pub const PADDLE_INSET: i64 = 50 * UNITS_PER_PIXEL;

/// Paddle speed, in pixels per second.
pub const PADDLE_SPEED: i64 = 500;

/// Width of each paddle.
pub const PADDLE_WIDTH: i64 = 10 * UNITS_PER_PIXEL;

/// Height of each paddle.
pub const PADDLE_HEIGHT: i64 = 100 * UNITS_PER_PIXEL;

/// Largest playfield side accepted by `Game::new`.
pub const MAX_SCREEN: i64 = 1_000_000_000 * UNITS_PER_PIXEL;

impl Game {
    /// A game is well formed when its ball and paddles are and the playfield
    /// has no negative side.
    pub open spec fn wf(&self) -> bool {
        &&& self.ball.wf()
        &&& self.left_paddle.wf()
        &&& self.right_paddle.wf()
        &&& self.screen_width >= 0
        &&& self.screen_height >= 0
    }

    /// The game with the ball served again from the centre and the banner
    /// cleared.
    pub open spec fn restarted(self) -> Game {
        Game {
            ball: self.ball.served(
                self.screen_width / 2,
                self.screen_height / 2,
                self.serve_speed as int,
            ),
            winner: None,
            ..self
        }
    }

    /// One frame of play lasting `dt`, up to the serve: move the ball and
    /// bounce it off the walls, move and clamp both paddles, bounce off the
    /// left then the right paddle, and decide the winner.
    pub open spec fn played(self, dt: int, input: Input) -> Game {
        let h = self.screen_height as int;
        let moved = self.ball.advanced(dt).reflected(h);
        let left = self.left_paddle.moved(dt, input.left_up, input.left_down).clamped(h);
        let right = self.right_paddle.moved(dt, input.right_up, input.right_down).clamped(h);
        let ball = after_right(after_left(moved, left), right);
        Game {
            ball,
            left_paddle: left,
            right_paddle: right,
            winner: winner_at(ball.x as int, self.screen_width as int),
            ..self
        }
    }

    /// One whole frame: play it, then restart on a serve if the round is over.
    pub open spec fn next(self, dt: int, input: Input) -> Game {
        let played = self.played(dt, input);
        if played.winner is Some && input.serve {
            played.restarted()
        } else {
            played
        }
    }

    /// A fresh match on a playfield of the given size: the ball at the centre
    /// moving down and right, a red paddle on the left and a blue one on the
    /// right, both vertically centred.
    pub fn new(screen_width: i64, screen_height: i64) -> (r: Game)
        requires
            0 <= screen_width <= MAX_SCREEN,
            0 <= screen_height <= MAX_SCREEN,
        ensures
            r.wf(),
            r.ball == (Ball {
                x: (screen_width / 2) as i64,
                y: (screen_height / 2) as i64,
                speed_x: SERVE_SPEED,
                speed_y: SERVE_SPEED,
                radius: BALL_RADIUS,
            }),
            r.left_paddle.x == PADDLE_INSET,
            r.right_paddle.x == screen_width - PADDLE_INSET,
            r.left_paddle.y == screen_height / 2 && r.right_paddle.y == screen_height / 2,
            r.left_paddle.speed == PADDLE_SPEED && r.right_paddle.speed == PADDLE_SPEED,
            r.left_paddle.width == PADDLE_WIDTH && r.right_paddle.width == PADDLE_WIDTH,
            r.left_paddle.height == PADDLE_HEIGHT && r.right_paddle.height == PADDLE_HEIGHT,
            r.left_paddle.color == (Rgba { r: 255, g: 0, b: 0, a: 255 }),
            r.right_paddle.color == (Rgba { r: 0, g: 0, b: 255, a: 255 }),
            r.screen_width == screen_width && r.screen_height == screen_height,
            r.serve_speed == SERVE_SPEED,
            r.winner is None,
    {
        let cx = screen_width / 2;
        let cy = screen_height / 2;
        Game {
            ball: Ball::new(cx, cy, SERVE_SPEED, SERVE_SPEED, BALL_RADIUS),
            left_paddle: Paddle::new(
                PADDLE_INSET,
                cy,
                PADDLE_SPEED,
                PADDLE_WIDTH,
                PADDLE_HEIGHT,
                Rgba { r: 255, g: 0, b: 0, a: 255 },
            ),
            right_paddle: Paddle::new(
                screen_width - PADDLE_INSET,
                cy,
                PADDLE_SPEED,
                PADDLE_WIDTH,
                PADDLE_HEIGHT,
                Rgba { r: 0, g: 0, b: 255, a: 255 },
            ),
            screen_width,
            screen_height,
            serve_speed: SERVE_SPEED,
            winner: None,
        }
    }

    /// Serves the ball again from the centre and clears the banner.
    pub fn restart(&mut self)
        requires
            old(self).wf(),
        ensures
            *final(self) == old(self).restarted(),
            final(self).wf(),
    {
        let cx = self.screen_width / 2;
        let cy = self.screen_height / 2;
        let speed = self.serve_speed;
        self.ball.reset(cx, cy, speed);
        self.winner = None;
    }

    /// Advances the match by one frame lasting `dt`.
    pub fn step(&mut self, dt: i64, input: Input)
        requires
            old(self).wf(),
            dt >= 0,
        ensures
            *final(self) == old(self).next(dt as int, input),
            final(self).wf(),
    {
        let h = self.screen_height;
        self.ball.advance(dt);
        self.ball.reflect_off_walls(h);
        self.left_paddle.apply_input(dt, input.left_up, input.left_down);
        self.right_paddle.apply_input(dt, input.right_up, input.right_down);
        self.left_paddle.clamp(h);
        self.right_paddle.clamp(h);
        bounce_off_left(&mut self.ball, &self.left_paddle);
        bounce_off_right(&mut self.ball, &self.right_paddle);
        self.winner = detect_winner(self.ball.x, self.screen_width);
        if self.winner.is_some() && input.serve {
            self.restart();
        }
    }

    /// The banner for the current outcome: empty while the round is on.
    pub fn banner(&self) -> (r: &'static str)
        ensures
            self.winner == Some(Winner::LeftPlayer) ==> r@ == "Left Player Wins!"@,
            self.winner == Some(Winner::RightPlayer) ==> r@ == "Right Player Wins!"@,
            self.winner is None ==> r@ == ""@,
    {
        match self.winner {
            Some(w) => w.message(),
            None => "",
        }
    }
}

/// A serve in a frame that ends the round puts the ball back at the centre
/// with velocity `(serve_speed, serve_speed)` and clears the banner; without
/// a serve the banner stays.
pub proof fn lemma_serve_restores_start(g: Game, dt: int, input: Input)
    requires
        g.wf(),
        dt >= 0,
        g.played(dt, input).winner is Some,
    ensures
        input.serve ==> g.next(dt, input).ball.x == g.screen_width / 2
            && g.next(dt, input).ball.y == g.screen_height / 2
            && g.next(dt, input).ball.speed_x == g.serve_speed
            && g.next(dt, input).ball.speed_y == g.serve_speed
            && g.next(dt, input).ball.radius == g.ball.radius
            && g.next(dt, input).winner is None,
        !input.serve ==> g.next(dt, input).winner is Some,
{
}

} // verus!
