use vstd::prelude::*;

use crate::geometry::{clamp_spec, clamp_to, fit, saturate, wide_mul, Rect, UNITS_PER_PIXEL};

verus! {

/// Width of the collision rectangle of every paddle.
pub const PADDLE_RECT_WIDTH: i64 = 10 * UNITS_PER_PIXEL;

/// Height of the collision rectangle of every paddle.
pub const PADDLE_RECT_HEIGHT: i64 = 100 * UNITS_PER_PIXEL;

/// A colour given by its red, green, blue and alpha channels.
#[derive(Clone, Copy, Debug, PartialEq, Eq, Structural)]
pub struct Rgba {
    pub r: u8,
    pub g: u8,
    pub b: u8,
    pub a: u8,
}

/// A paddle: its centre, vertical speed, size and colour.
#[derive(Clone, Copy, Debug, PartialEq, Eq, Structural)]
pub struct Paddle {
    pub x: i64,
    pub y: i64,
    pub speed: i64,
    pub width: i64,
    pub height: i64,
    pub color: Rgba,
}

impl Paddle {
    /// A paddle is well formed when its size is positive.
    pub open spec fn wf(&self) -> bool {
        self.width > 0 && self.height > 0
    }

    /// The collision rectangle. Its corner follows the paddle's own width and
    /// height, but its extent is the fixed `PADDLE_RECT_WIDTH` by
    /// `PADDLE_RECT_HEIGHT`, whatever the paddle's size.
    pub open spec fn rect(self) -> Rect {
        Rect {
            x: fit(self.x - self.width / 2) as i64,
            y: fit(self.y - self.height / 2) as i64,
            width: PADDLE_RECT_WIDTH,
            height: PADDLE_RECT_HEIGHT,
        }
    }

    /// The paddle after `dt` of input: up moves it towards `y = 0`, down away
    /// from it; both together cancel out (up to saturation).
    pub open spec fn moved(self, dt: int, up: bool, down: bool) -> Paddle {
        let y1 = if up { fit(self.y - self.speed * dt) } else { self.y as int };
        let y2 = if down { fit(y1 + self.speed * dt) } else { y1 };
        Paddle { y: y2 as i64, ..self }
    }

    /// Lowest centre that keeps the paddle inside the playfield.
    pub open spec fn min_y(self) -> int {
        self.height / 2
    }

    /// Highest centre that keeps the paddle inside the playfield.
    pub open spec fn max_y(self, screen_height: int) -> int {
        screen_height - self.height / 2
    }

    /// The paddle with its centre forced into `[min_y, max_y]`.
    pub open spec fn clamped(self, screen_height: int) -> Paddle {
        Paddle { y: clamp_spec(self.y as int, self.min_y(), self.max_y(screen_height)) as i64, ..self }
    }

    pub fn new(x: i64, y: i64, speed: i64, width: i64, height: i64, color: Rgba) -> (r: Paddle)
        requires
            width > 0,
            height > 0,
        ensures
            r == (Paddle { x, y, speed, width, height, color }),
            r.wf(),
    {
        Paddle { x, y, speed, width, height, color }
    }

    /// The rectangle used for collision tests.
    pub fn get_rect(&self) -> (r: Rect)
        requires
            self.wf(),
        ensures
            r == self.rect(),
    {
        Rect {
            x: saturate(self.x as i128 - (self.width / 2) as i128),
            y: saturate(self.y as i128 - (self.height / 2) as i128),
            width: PADDLE_RECT_WIDTH,
            height: PADDLE_RECT_HEIGHT,
        }
    }

    /// Moves the paddle by `speed * dt` for each direction held.
    pub fn apply_input(&mut self, dt: i64, up: bool, down: bool)
        requires
            dt >= 0,
        ensures
            *final(self) == old(self).moved(dt as int, up, down),
    {
        let step = wide_mul(self.speed, dt);
        if up {
            self.y = saturate(self.y as i128 - step);
        }
        if down {
            self.y = saturate(self.y as i128 + step);
        }
    }

    /// Keeps the whole paddle between the top and bottom of the playfield.
    pub fn clamp(&mut self, screen_height: i64)
        requires
            old(self).wf(),
            screen_height >= 0,
        ensures
            *final(self) == old(self).clamped(screen_height as int),
    {
        let half = self.height / 2;
        self.y = clamp_to(self.y, half, screen_height - half);
    }
}

/// Clamping a paddle whose centre is already in range changes nothing, and
/// clamping twice is the same as clamping once.
pub proof fn lemma_clamp_idempotent(p: Paddle, screen_height: int)
    requires
        p.wf(),
        0 <= screen_height <= i64::MAX,
    ensures
        p.min_y() <= p.y <= p.max_y(screen_height) ==> p.clamped(screen_height) == p,
        p.clamped(screen_height).clamped(screen_height) == p.clamped(screen_height),
{
}

/// With the paddle no taller than the playfield, clamping leaves its centre
/// in `[min_y, max_y]`.
pub proof fn lemma_clamp_in_range(p: Paddle, screen_height: int)
    requires
        p.wf(),
        p.height <= screen_height <= i64::MAX,
    ensures
        p.min_y() <= p.clamped(screen_height).y <= p.max_y(screen_height),
{
}

} // verus!
