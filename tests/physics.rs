use ping_pong::ball::Ball;
use ping_pong::game::{
    banner_text, bounce_off_left, bounce_off_right, detect_winner, Game, Input, Winner,
};
use ping_pong::geometry::{circle_intersects_rect, clamp_to, Rect, LIMIT, UNITS_PER_PIXEL};
use ping_pong::paddle::{Paddle, Rgba, PADDLE_RECT_HEIGHT, PADDLE_RECT_WIDTH};

const PX: i64 = UNITS_PER_PIXEL;

fn grey() -> Rgba {
    Rgba { r: 128, g: 128, b: 128, a: 255 }
}

fn idle() -> Input {
    Input { left_up: false, left_down: false, right_up: false, right_down: false, serve: false }
}

fn paddle_at(x: i64, y: i64) -> Paddle {
    Paddle::new(x, y, 500, 10 * PX, 100 * PX, grey())
}

#[test]
fn circle_touching_edge_intersects() {
    let r = Rect { x: 0, y: 0, width: 10, height: 10 };
    assert!(circle_intersects_rect(15, 5, 5, r));
    assert!(!circle_intersects_rect(16, 5, 5, r));
    assert!(circle_intersects_rect(5, 5, 1, r));
}

#[test]
fn circle_near_corner_uses_distance() {
    let r = Rect { x: 0, y: 0, width: 10, height: 10 };
    // (13, 14) is 3 by 4 from the corner (10, 10): distance 5.
    assert!(circle_intersects_rect(13, 14, 5, r));
    assert!(!circle_intersects_rect(13, 14, 4, r));
}

#[test]
fn circle_far_away_does_not_overflow() {
    let r = Rect { x: i64::MIN, y: i64::MIN, width: 1, height: 1 };
    assert!(!circle_intersects_rect(i64::MAX, i64::MAX, i64::MAX, r));
    assert!(circle_intersects_rect(0, 0, i64::MAX, Rect { x: 0, y: 0, width: 0, height: 0 }));
}

#[test]
fn clamp_to_orders_bounds() {
    assert_eq!(clamp_to(5, 0, 10), 5);
    assert_eq!(clamp_to(-5, 0, 10), 0);
    assert_eq!(clamp_to(15, 0, 10), 10);
}

#[test]
fn advance_moves_by_velocity_times_dt() {
    let mut b = Ball::new(100, 200, 300, -50, 5);
    b.advance(2);
    assert_eq!((b.x, b.y), (700, 100));
    assert_eq!((b.speed_x, b.speed_y), (300, -50));
}

#[test]
fn advance_saturates_far_off_screen() {
    let mut b = Ball::new(LIMIT - 10, 0, 1_000_000, 0, 5);
    b.advance(1_000_000);
    assert_eq!(b.x, LIMIT);
    b.advance(1_000_000);
    assert_eq!(b.x, LIMIT);
}

#[test]
fn reflect_off_top_wall() {
    let mut b = Ball::new(0, -3, 0, -50, 5);
    b.reflect_off_walls(600);
    assert_eq!(b.y, 0);
    assert_eq!(b.speed_y, 50);
}

#[test]
fn reflect_off_bottom_wall() {
    let mut b = Ball::new(0, 607, 0, 80, 5);
    b.reflect_off_walls(600);
    assert_eq!(b.y, 600);
    assert_eq!(b.speed_y, -80);
}

#[test]
fn reflect_inside_is_noop() {
    let mut b = Ball::new(0, 300, 10, 80, 5);
    b.reflect_off_walls(600);
    assert_eq!(b, Ball::new(0, 300, 10, 80, 5));
}

#[test]
fn advance_then_reflect_stays_between_walls() {
    let h = 600 * PX;
    let starts = [(0, -900), (h, 900), (h / 2, 77), (10, -1_000_000)];
    for (y, vy) in starts {
        for dt in [0, 1, 16_667, 1_000_000] {
            let mut b = Ball::new(0, y, 0, vy, 5 * PX);
            b.advance(dt);
            b.reflect_off_walls(h);
            assert!(0 <= b.y && b.y <= h);
        }
    }
}

#[test]
fn paddle_clamp_bottom() {
    let mut p = Paddle::new(0, 1000, 500, 10, 100, grey());
    p.clamp(600);
    assert_eq!(p.y, 550);
}

#[test]
fn paddle_clamp_top_and_idempotent() {
    let mut p = Paddle::new(0, -20, 500, 10, 100, grey());
    p.clamp(600);
    assert_eq!(p.y, 50);
    p.clamp(600);
    assert_eq!(p.y, 50);
    let mut q = Paddle::new(0, 321, 500, 10, 100, grey());
    q.clamp(600);
    assert_eq!(q.y, 321);
}

#[test]
fn paddle_input_moves_and_cancels() {
    let mut p = Paddle::new(0, 1_000, 500, 10, 100, grey());
    p.apply_input(2, true, false);
    assert_eq!(p.y, 0);
    p.apply_input(3, false, true);
    assert_eq!(p.y, 1_500);
    p.apply_input(7, true, true);
    assert_eq!(p.y, 1_500);
}

#[test]
fn paddle_rect_uses_fixed_extent() {
    let p = Paddle::new(50 * PX, 300 * PX, 500, 4 * PX, 40 * PX, grey());
    let r = p.get_rect();
    assert_eq!(r.x, 48 * PX);
    assert_eq!(r.y, 280 * PX);
    assert_eq!(r.width, PADDLE_RECT_WIDTH);
    assert_eq!(r.height, PADDLE_RECT_HEIGHT);
    assert_eq!((r.width, r.height), (10 * PX, 100 * PX));
}

#[test]
fn left_bounce_amplifies() {
    let p = paddle_at(50 * PX, 300 * PX);
    let mut b = Ball::new(58 * PX, 300 * PX, -300, 0, 5 * PX);
    bounce_off_left(&mut b, &p);
    assert_eq!(b.speed_x, 330);
    assert_eq!(b.speed_y, 0);
    assert_eq!((b.x, b.y), (58 * PX, 300 * PX));
}

#[test]
fn left_bounce_angle_follows_offset() {
    let p = paddle_at(50 * PX, 300 * PX);
    // 25 px below the centre of a 100 px paddle: half of the new speed.
    let mut b = Ball::new(58 * PX, 325 * PX, -300, 40, 5 * PX);
    bounce_off_left(&mut b, &p);
    assert_eq!(b.speed_x, 330);
    assert_eq!(b.speed_y, 165);
    let mut c = Ball::new(58 * PX, 275 * PX, -300, 40, 5 * PX);
    bounce_off_left(&mut c, &p);
    assert_eq!(c.speed_y, -165);
}

#[test]
fn left_bounce_gated_on_direction() {
    let p = paddle_at(50 * PX, 300 * PX);
    let mut b = Ball::new(58 * PX, 300 * PX, 300, 20, 5 * PX);
    bounce_off_left(&mut b, &p);
    assert_eq!((b.speed_x, b.speed_y), (300, 20));
    let mut c = Ball::new(58 * PX, 300 * PX, -300, 20, 5 * PX);
    bounce_off_left(&mut c, &p);
    let once = c;
    bounce_off_left(&mut c, &p);
    assert_eq!(c, once);
}

#[test]
fn left_bounce_needs_contact() {
    let p = paddle_at(50 * PX, 300 * PX);
    let mut b = Ball::new(61 * PX, 300 * PX, -300, 20, 5 * PX);
    bounce_off_left(&mut b, &p);
    assert_eq!((b.speed_x, b.speed_y), (-300, 20));
}

#[test]
fn right_bounce_mirrors_left() {
    let p = paddle_at(750 * PX, 300 * PX);
    let mut b = Ball::new(743 * PX, 300 * PX, 300, 0, 5 * PX);
    bounce_off_right(&mut b, &p);
    assert_eq!((b.speed_x, b.speed_y), (-330, 0));
    let mut c = Ball::new(743 * PX, 300 * PX, -300, 7, 5 * PX);
    bounce_off_right(&mut c, &p);
    assert_eq!((c.speed_x, c.speed_y), (-300, 7));
}

#[test]
fn bounce_speed_saturates() {
    let p = paddle_at(50 * PX, 300 * PX);
    let mut b = Ball::new(58 * PX, 300 * PX, -LIMIT, 0, 5 * PX);
    bounce_off_left(&mut b, &p);
    assert_eq!(b.speed_x, LIMIT);
}

#[test]
fn win_banner_by_ball_x() {
    let w = 800 * PX;
    assert_eq!(banner_text(-PX / 2, w), "Right Player Wins!");
    assert_eq!(banner_text(850 * PX, w), "Left Player Wins!");
    assert_eq!(banner_text(400 * PX, w), "");
    assert_eq!(banner_text(0, w), "");
    assert_eq!(banner_text(w, w), "");
    assert_eq!(detect_winner(-1, w), Some(Winner::RightPlayer));
    assert_eq!(detect_winner(w + 1, w), Some(Winner::LeftPlayer));
    assert_eq!(Winner::LeftPlayer.message(), "Left Player Wins!");
}

#[test]
fn new_game_is_centred() {
    let g = Game::new(800 * PX, 600 * PX);
    assert_eq!(g.ball, Ball::new(400 * PX, 300 * PX, 300, 300, 5 * PX));
    assert_eq!((g.left_paddle.x, g.left_paddle.y), (50 * PX, 300 * PX));
    assert_eq!((g.right_paddle.x, g.right_paddle.y), (750 * PX, 300 * PX));
    assert_eq!(g.left_paddle.color, Rgba { r: 255, g: 0, b: 0, a: 255 });
    assert_eq!(g.right_paddle.color, Rgba { r: 0, g: 0, b: 255, a: 255 });
    assert_eq!(g.banner(), "");
}

#[test]
fn round_over_then_serve_resets() {
    let mut g = Game::new(800 * PX, 600 * PX);
    g.ball = Ball::new(2 * PX, 100 * PX, -300, 12, 5 * PX);
    g.step(16_667, idle());
    assert_eq!(g.banner(), "Right Player Wins!");
    // The ball keeps flying while the banner is shown.
    for _ in 0..100 {
        g.step(16_667, idle());
    }
    assert!(g.ball.x < -400 * PX);
    assert_eq!(g.winner, Some(Winner::RightPlayer));
    let serve = Input { serve: true, ..idle() };
    g.step(16_667, serve);
    assert_eq!((g.ball.x, g.ball.y), (400 * PX, 300 * PX));
    assert_eq!((g.ball.speed_x, g.ball.speed_y), (300, 300));
    assert_eq!(g.ball.radius, 5 * PX);
    assert_eq!(g.winner, None);
    assert_eq!(g.banner(), "");
}

#[test]
fn serve_ignored_while_playing() {
    let mut g = Game::new(800 * PX, 600 * PX);
    let serve = Input { serve: true, ..idle() };
    g.step(16_667, serve);
    assert_eq!(g.ball.x, 400 * PX + 300 * 16_667);
    assert_eq!(g.winner, None);
}

#[test]
fn paddles_follow_keys_and_stay_on_screen() {
    let mut g = Game::new(800 * PX, 600 * PX);
    let up = Input { left_up: true, right_down: true, ..idle() };
    g.step(100_000, up);
    assert_eq!(g.left_paddle.y, 250 * PX);
    assert_eq!(g.right_paddle.y, 350 * PX);
    for _ in 0..20 {
        g.step(100_000, up);
    }
    assert_eq!(g.left_paddle.y, 50 * PX);
    assert_eq!(g.right_paddle.y, 550 * PX);
}

#[test]
fn ball_crosses_to_left_paddle_and_bounces_once() {
    let mut g = Game::new(800 * PX, 600 * PX);
    g.ball = Ball::new(400 * PX, 300 * PX, -300, 0, 5 * PX);
    let dt = 16_667;
    g.step(dt, idle());
    assert_eq!(g.ball.speed_x, -300);
    assert!(g.ball.x - 55 * PX > 5 * PX);
    let mut frames = 1;
    while g.ball.speed_x < 0 {
        g.step(dt, idle());
        frames += 1;
        assert!(frames < 200);
    }
    assert_eq!(g.ball.speed_x, 330);
    assert_eq!(g.ball.speed_y, 0);
    assert!(g.ball.x <= 60 * PX);
    for _ in 0..5 {
        g.step(dt, idle());
        assert_eq!(g.ball.speed_x, 330);
        assert_eq!(g.ball.speed_y, 0);
    }
    assert_eq!(g.banner(), "");
}
