use vstd::prelude::*;

use crate::geometry::{fit, saturate, wide_mul};

verus! {

/// The ball: centre, velocity and radius.
///
/// Lengths are in micro-pixels, time in microseconds, so a speed reads
/// directly as pixels per second.
#[derive(Clone, Copy, Debug, PartialEq, Eq, Structural)]
pub struct Ball {
    pub x: i64,
    pub y: i64,
    pub speed_x: i64,
    pub speed_y: i64,
    pub radius: i64,
}

impl Ball {
    /// A ball is well formed when its radius is positive.
    pub open spec fn wf(&self) -> bool {
        self.radius > 0
    }

    /// The ball after moving for `dt` at its velocity.
    pub open spec fn advanced(self, dt: int) -> Ball {
        Ball {
            x: fit(self.x + self.speed_x * dt) as i64,
            y: fit(self.y + self.speed_y * dt) as i64,
            ..self
        }
    }

    /// The ball after bouncing off the top (`y = 0`) and bottom
    /// (`y = screen_height`) walls, each checked in turn.
    pub open spec fn reflected(self, screen_height: int) -> Ball {
        let top = if self.y < 0 {
            Ball { y: 0, speed_y: fit(-self.speed_y) as i64, ..self }
        } else {
            self
        };
        if top.y > screen_height {
            Ball { y: screen_height as i64, speed_y: fit(-top.speed_y) as i64, ..top }
        } else {
            top
        }
    }

    /// The ball served again from `(cx, cy)` with velocity `(speed, speed)`.
    pub open spec fn served(self, cx: int, cy: int, speed: int) -> Ball {
        Ball { x: cx as i64, y: cy as i64, speed_x: speed as i64, speed_y: speed as i64, ..self }
    }

    pub fn new(x: i64, y: i64, speed_x: i64, speed_y: i64, radius: i64) -> (r: Ball)
        requires
            radius > 0,
        ensures
            r == (Ball { x, y, speed_x, speed_y, radius }),
            r.wf(),
    {
        Ball { x, y, speed_x, speed_y, radius }
    }

    /// Moves the centre by velocity times `dt`, saturating at the range limit.
    pub fn advance(&mut self, dt: i64)
        requires
            dt >= 0,
        ensures
            *final(self) == old(self).advanced(dt as int),
    {
        self.x = saturate(self.x as i128 + wide_mul(self.speed_x, dt));
        self.y = saturate(self.y as i128 + wide_mul(self.speed_y, dt));
    }

    /// Clamps the centre to the top and bottom walls, reversing the vertical
    /// speed at each wall that was crossed.
    pub fn reflect_off_walls(&mut self, screen_height: i64)
        ensures
            *final(self) == old(self).reflected(screen_height as int),
    {
        if self.y < 0 {
            self.y = 0;
            self.speed_y = saturate(-(self.speed_y as i128));
        }
        if self.y > screen_height {
            self.y = screen_height;
            self.speed_y = saturate(-(self.speed_y as i128));
        }
    }

    /// Puts the ball back at `(cx, cy)` moving diagonally at `(speed, speed)`.
    pub fn reset(&mut self, cx: i64, cy: i64, speed: i64)
        ensures
            *final(self) == old(self).served(cx as int, cy as int, speed as int),
            final(self).x == cx && final(self).y == cy,
            final(self).speed_x == speed && final(self).speed_y == speed,
            final(self).radius == old(self).radius,
    {
        self.x = cx;
        self.y = cy;
        self.speed_x = speed;
        self.speed_y = speed;
    }
}

/// Moving and then bouncing off the walls always leaves the centre between
/// the top and bottom walls.
pub proof fn lemma_advance_reflect_in_bounds(b: Ball, dt: int, screen_height: int)
    requires
        dt >= 0,
        0 <= screen_height <= i64::MAX,
    ensures
        0 <= b.advanced(dt).reflected(screen_height).y <= screen_height,
{
}

/// Crossing one wall reverses the vertical speed once and puts the centre on
/// that wall; a ball between the walls is untouched.
pub proof fn lemma_reflect_flips_once(b: Ball, screen_height: int)
    requires
        0 <= screen_height <= i64::MAX,
        b.speed_y > i64::MIN,
    ensures
        b.y < 0 ==> b.reflected(screen_height).y == 0
            && b.reflected(screen_height).speed_y == -b.speed_y,
        b.y > screen_height ==> b.reflected(screen_height).y == screen_height
            && b.reflected(screen_height).speed_y == -b.speed_y,
        0 <= b.y <= screen_height ==> b.reflected(screen_height) == b,
{
}

} // verus!
