use pong::config::{
    BALL_ACCEL, BALL_SPEED, MAX_POINTS, PADDLE_MARGIN, PADDLE_SPEED, UNITS_PER_PIXEL,
    WINDOW_HEIGHT, WINDOW_WIDTH,
};
use pong::entity::Entity;
use pong::game::{deflect, GameState, Input, Phase, Side, Size};
use pong::geometry::{div_trunc, Rect, Vec2};

const PX: i64 = UNITS_PER_PIXEL;

fn paddle() -> Size {
    Size { width: 16 * PX, height: 40 * PX }
}

fn ball() -> Size {
    Size { width: 16 * PX, height: 16 * PX }
}

fn idle() -> Input {
    Input { p1_up: false, p1_down: false, p2_up: false, p2_down: false }
}

fn start(toward: Side) -> GameState {
    GameState::new(paddle(), paddle(), ball(), toward)
}

#[test]
fn new_match_layout() {
    let g = start(Side::Left);
    assert_eq!(g.player1.position, Vec2 { x: 16 * PX, y: 220 * PX });
    assert_eq!(g.player2.position, Vec2 { x: 608 * PX, y: 220 * PX });
    assert_eq!(g.ball.position, Vec2 { x: 312 * PX, y: 232 * PX });
    assert_eq!(g.ball.velocity, Vec2 { x: -5 * PX, y: 0 });
    assert_eq!(g.player1.velocity, Vec2 { x: 0, y: 0 });
    assert_eq!((g.score1, g.score2), (0, 0));
    assert_eq!(g.phase, Phase::Playing);
    assert!(g.is_valid());
    assert_eq!(g.winner(), None);
    let r = start(Side::Right);
    assert_eq!(r.ball.velocity, Vec2 { x: BALL_SPEED, y: 0 });
}

#[test]
fn new_match_with_odd_paddle_height() {
    let g = GameState::new(Size { width: 10, height: 4001 }, paddle(), ball(), Side::Left);
    assert_eq!(g.player1.position.y, 21_999);
    assert_eq!(g.player1.position.x, PADDLE_MARGIN);
}

#[test]
fn idle_tick_keeps_paddles() {
    let mut g = start(Side::Left);
    let before = (g.player1.position, g.player2.position);
    g.update(idle(), Side::Left);
    assert_eq!((g.player1.position, g.player2.position), before);
    assert_eq!(g.ball.position, Vec2 { x: 307 * PX, y: 232 * PX });
}

#[test]
fn paddle_keys_move_by_speed() {
    let mut g = start(Side::Left);
    let y1 = g.player1.position.y;
    let y2 = g.player2.position.y;
    g.update(Input { p1_up: true, p1_down: false, p2_up: false, p2_down: true }, Side::Left);
    assert_eq!(g.player1.position.y, y1 - PADDLE_SPEED);
    assert_eq!(g.player2.position.y, y2 + PADDLE_SPEED);
    g.update(Input { p1_up: true, p1_down: true, p2_up: true, p2_down: true }, Side::Left);
    assert_eq!(g.player1.position.y, y1 - PADDLE_SPEED);
    assert_eq!(g.player2.position.y, y2 + PADDLE_SPEED);
    g.update(Input { p1_up: false, p1_down: true, p2_up: true, p2_down: false }, Side::Left);
    assert_eq!(g.player1.position.y, y1);
    assert_eq!(g.player2.position.y, y2);
}

#[test]
fn paddles_are_not_clamped() {
    let mut g = start(Side::Left);
    let up = Input { p1_up: true, p1_down: false, p2_up: false, p2_down: false };
    for _ in 0..40 {
        g.update(up, Side::Left);
    }
    assert_eq!(g.player1.position.y, 220 * PX - 40 * PADDLE_SPEED);
    assert!(g.player1.position.y < 0);
}

#[test]
fn top_wall_flips_once() {
    let mut g = start(Side::Left);
    g.ball.position = Vec2 { x: 300 * PX, y: 0 };
    g.ball.velocity = Vec2 { x: -5 * PX, y: -3 * PX };
    g.update(idle(), Side::Left);
    assert_eq!(g.ball.velocity, Vec2 { x: -5 * PX, y: 3 * PX });
    assert_eq!(g.ball.position, Vec2 { x: 295 * PX, y: 3 * PX });
    g.update(idle(), Side::Left);
    assert_eq!(g.ball.velocity, Vec2 { x: -5 * PX, y: 3 * PX });
    assert_eq!(g.ball.position, Vec2 { x: 290 * PX, y: 6 * PX });
}

#[test]
fn top_wall_flips_downward_ball() {
    let mut g = start(Side::Left);
    g.ball.position = Vec2 { x: 300 * PX, y: 0 };
    g.ball.velocity = Vec2 { x: 0, y: 2 * PX };
    g.update(idle(), Side::Left);
    assert_eq!(g.ball.velocity.y, -2 * PX);
    assert_eq!(g.ball.position.y, -2 * PX);
    // still touching the wall: it flips again
    g.update(idle(), Side::Left);
    assert_eq!(g.ball.velocity.y, 2 * PX);
}

#[test]
fn bottom_wall_flips() {
    let mut g = start(Side::Left);
    g.ball.position = Vec2 { x: 300 * PX, y: WINDOW_HEIGHT - 16 * PX };
    g.ball.velocity = Vec2 { x: 5 * PX, y: 4 * PX };
    g.update(idle(), Side::Left);
    assert_eq!(g.ball.velocity, Vec2 { x: 5 * PX, y: -4 * PX });
}

#[test]
fn ball_past_left_edge_scores_for_right() {
    let mut g = start(Side::Left);
    g.ball.velocity = Vec2 { x: -5 * PX, y: 0 };
    g.ball.position.x = -1 * PX;
    g.update(idle(), Side::Right);
    assert_eq!(g.score1, 0);
    assert_eq!(g.score2, 1);
    assert_eq!(g.ball.position, Vec2 { x: WINDOW_WIDTH / 2 - 8 * PX, y: WINDOW_HEIGHT / 2 - 8 * PX });
    assert_eq!(g.ball.velocity.x.abs(), 5 * PX);
    assert_eq!(g.ball.velocity.y, 0);
    assert_eq!(g.phase, Phase::Playing);
}

#[test]
fn ball_past_right_edge_scores_for_left() {
    let mut g = start(Side::Left);
    g.ball.position = Vec2 { x: WINDOW_WIDTH + 1, y: 100 * PX };
    g.ball.velocity = Vec2 { x: 7 * PX, y: 3 * PX };
    g.update(idle(), Side::Left);
    assert_eq!((g.score1, g.score2), (1, 0));
    assert_eq!(g.ball.position, Vec2 { x: 312 * PX, y: 232 * PX });
    assert_eq!(g.ball.velocity, Vec2 { x: -BALL_SPEED, y: 0 });
}

#[test]
fn ball_at_edges_does_not_score() {
    let mut g = start(Side::Left);
    g.ball.position = Vec2 { x: WINDOW_WIDTH, y: 100 * PX };
    g.ball.velocity = Vec2 { x: 1, y: 0 };
    g.update(idle(), Side::Left);
    assert_eq!((g.score1, g.score2), (0, 0));
    assert_eq!(g.ball.position.x, WINDOW_WIDTH + 1);
}

#[test]
fn dead_centre_hit_has_no_spin() {
    let mut g = start(Side::Left);
    g.player1.position.y = 80 * PX;
    g.ball.position = Vec2 { x: 30 * PX, y: 92 * PX };
    g.ball.velocity = Vec2 { x: -5 * PX, y: 0 };
    g.update(idle(), Side::Left);
    assert_eq!(g.ball.velocity.x, 5 * PX + BALL_ACCEL);
    assert_eq!(g.ball.velocity.y, 0);
}

#[test]
fn paddle_hit_speeds_up_and_reverses() {
    let mut g = start(Side::Left);
    g.ball.position = Vec2 { x: 600 * PX, y: 232 * PX };
    g.ball.velocity = Vec2 { x: 6 * PX, y: 0 };
    g.update(idle(), Side::Left);
    assert_eq!(g.ball.velocity.x, -(6 * PX + BALL_ACCEL));
}

#[test]
fn left_paddle_wins_a_tie() {
    let mut g = start(Side::Left);
    g.player2.position = g.player1.position;
    g.player2.position.y += 10 * PX;
    g.ball.position = Vec2 { x: 20 * PX, y: 220 * PX };
    g.ball.velocity = Vec2 { x: -5 * PX, y: 0 };
    g.update(idle(), Side::Left);
    // ball centre 228 px, left paddle centre 240 px: offset 12/40, spin -1.2 px
    assert_eq!(g.ball.velocity, Vec2 { x: 5 * PX + BALL_ACCEL, y: -120 });
}

#[test]
fn spin_below_centre_pushes_down() {
    let mut g = start(Side::Left);
    g.ball.position = Vec2 { x: 30 * PX, y: 250 * PX };
    g.ball.velocity = Vec2 { x: -5 * PX, y: 1 * PX };
    g.update(idle(), Side::Left);
    // paddle centre 240 px, ball centre 258 px: offset -18/40, spin +1.8 px
    assert_eq!(g.ball.velocity, Vec2 { x: 5 * PX + BALL_ACCEL, y: 1 * PX + 180 });
}

#[test]
fn spin_rounds_toward_zero() {
    let mut b = Entity::with_velocity(Vec2 { x: 0, y: 7 }, Vec2 { x: 0, y: 0 }, 10, 10);
    let p = Entity::new(Vec2 { x: 0, y: 0 }, 10, 30);
    deflect(&mut b, &p);
    // paddle centre 15, ball centre 12: 400 * 3 / 30 = 40
    assert_eq!(b.velocity, Vec2 { x: -BALL_ACCEL, y: -40 });
    let mut c = Entity::with_velocity(Vec2 { x: 0, y: 11 }, Vec2 { x: -1, y: 0 }, 10, 10);
    let q = Entity::new(Vec2 { x: 0, y: 0 }, 10, 30);
    deflect(&mut c, &q);
    // 400 * -1 / 30 = -13.3, toward zero -13
    assert_eq!(c.velocity, Vec2 { x: 1 + BALL_ACCEL, y: 13 });
}

#[test]
fn match_ends_at_max_points() {
    let mut g = start(Side::Left);
    for i in 0..MAX_POINTS {
        assert_eq!(g.phase, Phase::Playing);
        g.ball.position = Vec2 { x: -1, y: 100 * PX };
        g.update(idle(), Side::Left);
        assert_eq!(g.score2, i + 1);
    }
    assert_eq!(g.score2, MAX_POINTS);
    assert_eq!(g.phase, Phase::MatchOver);
    assert!(g.is_over());
    assert_eq!(g.winner(), Some(Side::Right));
    let frozen = g;
    g.ball.position = Vec2 { x: -1, y: 100 * PX };
    let before = g;
    g.update(Input { p1_up: true, p1_down: false, p2_up: true, p2_down: false }, Side::Left);
    assert_eq!(g, before);
    assert_eq!(g.score2, frozen.score2);
}

#[test]
fn is_valid_rejects_far_state() {
    let mut g = start(Side::Left);
    g.ball.velocity.x = i64::MAX;
    assert!(!g.is_valid());
    let mut h = start(Side::Left);
    h.score1 = MAX_POINTS;
    assert!(!h.is_valid());
    h.phase = Phase::MatchOver;
    assert!(h.is_valid());
    assert_eq!(h.winner(), Some(Side::Left));
}

#[test]
fn rect_intersection() {
    let base = Rect::new(2, 2, 4, 4);
    assert!(base.intersects(&base));
    assert!(base.intersects(&Rect::new(3, 3, 2, 2)));
    assert!(base.intersects(&Rect::new(3, 3, 4, 4)));
    assert!(!base.intersects(&Rect::new(20, 20, 4, 4)));
    assert!(!base.intersects(&Rect::new(6, 2, 4, 4)));
    assert!(!base.intersects(&Rect::new(2, 6, 4, 4)));
}

#[test]
fn entity_geometry() {
    let e = Entity::new(Vec2::new(10, 20), 7, 9);
    assert_eq!(e.bounds(), Rect { x: 10, y: 20, width: 7, height: 9 });
    assert_eq!(e.centre(), Vec2 { x: 13, y: 24 });
    assert_eq!((e.width(), e.height()), (7, 9));
    assert_eq!(e.velocity, Vec2::zero());
}

#[test]
fn truncating_division() {
    assert_eq!(div_trunc(7, 2), 3);
    assert_eq!(div_trunc(-7, 2), -3);
    assert_eq!(div_trunc(0, 5), 0);
}
