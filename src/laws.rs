use vstd::prelude::*;
use crate::config::{BALL_ACCEL, BALL_SPEED, MAX_POINTS, PADDLE_SPEED, WINDOW_HEIGHT, WINDOW_WIDTH};
use crate::entity::Entity;
use crate::game::{
    deflected, moved_paddle, touches_wall, GameState, Input, Phase, Side,
};

verus! {

pub open spec fn abs(v: int) -> int {
    if v < 0 {
        -v
    } else {
        v
    }
}

/// With no movement key held, neither paddle moves.
pub proof fn lemma_idle_paddles_stay(s: GameState, toward: Side)
    requires
        s.wf(),
        s.in_range(),
    ensures
        ({
            let input = Input { p1_up: false, p1_down: false, p2_up: false, p2_down: false };
            let n = s.tick(input, toward);
            n.player1.position == s.player1.position && n.player2.position == s.player2.position
        }),
{
}

/// During play, "up" alone moves a paddle up by exactly `PADDLE_SPEED`,
/// "down" alone moves it down by exactly that, and both together leave it
/// where it was; a paddle never moves sideways.
pub proof fn lemma_paddle_keys(s: GameState, input: Input, toward: Side)
    requires
        s.wf(),
        s.in_range(),
        s.phase == Phase::Playing,
    ensures
        ({
            let n = s.tick(input, toward);
            &&& n.player1.position.x == s.player1.position.x
            &&& n.player2.position.x == s.player2.position.x
            &&& (input.p1_up && !input.p1_down) ==> n.player1.position.y == s.player1.position.y
                - PADDLE_SPEED
            &&& (!input.p1_up && input.p1_down) ==> n.player1.position.y == s.player1.position.y
                + PADDLE_SPEED
            &&& (input.p1_up == input.p1_down) ==> n.player1.position.y == s.player1.position.y
            &&& (input.p2_up && !input.p2_down) ==> n.player2.position.y == s.player2.position.y
                - PADDLE_SPEED
            &&& (!input.p2_up && input.p2_down) ==> n.player2.position.y == s.player2.position.y
                + PADDLE_SPEED
            &&& (input.p2_up == input.p2_down) ==> n.player2.position.y == s.player2.position.y
        }),
{
}

/// A ball at the top wall that hits no paddle and scores no point leaves the
/// tick with its vertical speed reversed, once.
pub proof fn lemma_top_wall_flips_once(s: GameState, input: Input, toward: Side)
    requires
        s.wf(),
        s.in_range(),
        s.phase == Phase::Playing,
        s.ball.position.y == 0,
        0 <= s.ball.position.x <= WINDOW_WIDTH,
        !s.ball.bounds_spec().overlaps(
            moved_paddle(s.player1, input.p1_up, input.p1_down).bounds_spec(),
        ),
        !s.ball.bounds_spec().overlaps(
            moved_paddle(s.player2, input.p2_up, input.p2_down).bounds_spec(),
        ),
    ensures
        s.tick(input, toward).ball.velocity.y == -s.ball.velocity.y,
        s.tick(input, toward).ball.velocity.x == s.ball.velocity.x,
{
}

/// A ball clear of both walls and both paddles, scoring no point, keeps its
/// vertical speed: the wall flips it only while the ball touches a wall.
pub proof fn lemma_no_flip_off_walls(s: GameState, input: Input, toward: Side)
    requires
        s.wf(),
        s.in_range(),
        s.phase == Phase::Playing,
        !touches_wall(s.ball),
        0 <= s.ball.position.x <= WINDOW_WIDTH,
        !s.ball.bounds_spec().overlaps(
            moved_paddle(s.player1, input.p1_up, input.p1_down).bounds_spec(),
        ),
        !s.ball.bounds_spec().overlaps(
            moved_paddle(s.player2, input.p2_up, input.p2_down).bounds_spec(),
        ),
    ensures
        s.tick(input, toward).ball.velocity == s.ball.velocity,
{
}

/// A paddle reverses the ball's horizontal direction and adds exactly
/// `BALL_ACCEL` to its horizontal speed.
pub proof fn lemma_deflect_reverses_and_speeds_up(ball: Entity, paddle: Entity)
    requires
        ball.wf(),
        ball.in_range(),
        paddle.wf(),
    ensures
        ball.velocity.x >= 0 ==> deflected(ball, paddle).velocity.x < 0,
        ball.velocity.x < 0 ==> deflected(ball, paddle).velocity.x > 0,
        abs(deflected(ball, paddle).velocity.x as int) == abs(ball.velocity.x as int) + BALL_ACCEL,
{
}

/// During play, a ball that overlaps a paddle (after the paddles moved) and
/// scores no point leaves the tick with its horizontal direction reversed and
/// its horizontal speed `BALL_ACCEL` higher.
pub proof fn lemma_paddle_hit(s: GameState, input: Input, toward: Side)
    requires
        s.wf(),
        s.in_range(),
        s.phase == Phase::Playing,
        0 <= s.ball.position.x <= WINDOW_WIDTH,
        s.ball.bounds_spec().overlaps(
            moved_paddle(s.player1, input.p1_up, input.p1_down).bounds_spec(),
        ) || s.ball.bounds_spec().overlaps(
            moved_paddle(s.player2, input.p2_up, input.p2_down).bounds_spec(),
        ),
    ensures
        ({
            let vx = s.ball.velocity.x as int;
            let nvx = s.tick(input, toward).ball.velocity.x as int;
            &&& vx >= 0 ==> nvx < 0
            &&& vx < 0 ==> nvx > 0
            &&& abs(nvx) == abs(vx) + BALL_ACCEL
        }),
{
    let p1 = moved_paddle(s.player1, input.p1_up, input.p1_down);
    let p2 = moved_paddle(s.player2, input.p2_up, input.p2_down);
    if s.ball.bounds_spec().overlaps(p1.bounds_spec()) {
        lemma_deflect_reverses_and_speeds_up(s.ball, p1);
    } else {
        lemma_deflect_reverses_and_speeds_up(s.ball, p2);
    }
}

/// During play, a ball past the left edge gives the right player exactly one
/// point, leaves the left score alone, and is served again from the centre
/// with serving speed and no vertical speed; past the right edge, the same
/// for the left player.
pub proof fn lemma_scoring(s: GameState, input: Input, toward: Side)
    requires
        s.wf(),
        s.in_range(),
        s.phase == Phase::Playing,
    ensures
        ({
            let n = s.tick(input, toward);
            let centre_x = WINDOW_WIDTH / 2 - s.ball.width / 2;
            let centre_y = WINDOW_HEIGHT / 2 - s.ball.height / 2;
            &&& s.ball.position.x < 0 ==> {
                &&& n.score2 == s.score2 + 1
                &&& n.score1 == s.score1
            }
            &&& s.ball.position.x > WINDOW_WIDTH ==> {
                &&& n.score1 == s.score1 + 1
                &&& n.score2 == s.score2
            }
            &&& (s.ball.position.x < 0 || s.ball.position.x > WINDOW_WIDTH) ==> {
                &&& n.ball.position.x == centre_x
                &&& n.ball.position.y == centre_y
                &&& n.ball.velocity.y == 0
                &&& abs(n.ball.velocity.x as int) == BALL_SPEED
            }
            &&& (0 <= s.ball.position.x <= WINDOW_WIDTH) ==> {
                &&& n.score1 == s.score1
                &&& n.score2 == s.score2
            }
        }),
{
}

/// Scores never pass `MAX_POINTS`; the match is over from the first tick
/// that one of them reaches it, and a finished match stays as it is.
pub proof fn lemma_match_ends_at_max(s: GameState, input: Input, toward: Side)
    requires
        s.wf(),
        s.in_range(),
    ensures
        ({
            let n = s.tick(input, toward);
            &&& n.wf()
            &&& n.score1 <= MAX_POINTS && n.score2 <= MAX_POINTS
            &&& (n.phase == Phase::MatchOver <==> (n.score1 == MAX_POINTS || n.score2
                == MAX_POINTS))
            &&& s.phase == Phase::MatchOver ==> n == s
            &&& n.score1 <= s.score1 + 1 && n.score2 <= s.score2 + 1
        }),
{
}

} // verus!
