use vstd::prelude::*;
use crate::config::{
    BALL_ACCEL, BALL_SPEED, COORD_LIMIT, MAX_POINTS, PADDLE_MARGIN, PADDLE_SPEED, PADDLE_SPIN,
    WINDOW_HEIGHT, WINDOW_WIDTH,
};
use crate::entity::Entity;
use crate::geometry::{div_toward_zero, div_trunc, Vec2};

verus! {

/// Which movement keys are held during one tick.
#[derive(Clone, Copy, Debug, PartialEq, Eq, Structural)]
pub struct Input {
    pub p1_up: bool,
    pub p1_down: bool,
    pub p2_up: bool,
    pub p2_down: bool,
}

/// A side of the playfield: where a served ball heads, or who won.
#[derive(Clone, Copy, Debug, PartialEq, Eq, Structural)]
pub enum Side {
    Left,
    Right,
}

/// A match is played until a score reaches `MAX_POINTS`; then it is over for good.
#[derive(Clone, Copy, Debug, PartialEq, Eq, Structural)]
pub enum Phase {
    Playing,
    MatchOver,
}

/// The size of a paddle or of the ball.
#[derive(Clone, Copy, Debug, PartialEq, Eq, Structural)]
pub struct Size {
    pub width: i64,
    pub height: i64,
}

/// One match: two paddles, the ball and the two scores.
#[derive(Clone, Copy, Debug, PartialEq, Eq, Structural)]
pub struct GameState {
    pub player1: Entity,
    pub player2: Entity,
    pub ball: Entity,
    pub score1: u64,
    pub score2: u64,
    pub phase: Phase,
}

/// A size that `GameState::new` accepts: positive and bounded.
pub open spec fn size_ok(s: Size) -> bool {
    &&& 1 <= s.width <= COORD_LIMIT
    &&& 1 <= s.height <= COORD_LIMIT
}

/// Paddle height after a tick: "up" lowers `y`, "down" raises it, each on its own.
pub open spec fn moved_y(y: int, up: bool, down: bool) -> int {
    y - (if up { PADDLE_SPEED as int } else { 0 }) + (if down { PADDLE_SPEED as int } else { 0 })
}

pub open spec fn moved_paddle(p: Entity, up: bool, down: bool) -> Entity {
    Entity { position: Vec2 { x: p.position.x, y: moved_y(p.position.y as int, up, down) as i64 }, ..p }
}

/// Horizontal speed after a paddle hit: one step of acceleration in the
/// direction of travel (a ball at rest counts as heading right), then reversed.
pub open spec fn rebound_speed(vx: int) -> int {
    if vx >= 0 {
        -(vx + BALL_ACCEL)
    } else {
        -(vx - BALL_ACCEL)
    }
}

/// Vertical speed a paddle adds to the ball: proportional to how far the
/// ball's centre lies from the paddle's, in paddle heights, rounded toward zero.
/// A ball above the centre is pushed up (toward smaller `y`).
pub open spec fn spin(paddle: Entity, ball: Entity) -> int {
    -div_toward_zero(
        PADDLE_SPIN * (paddle.centre_spec().1 - ball.centre_spec().1),
        paddle.height as int,
    )
}

pub open spec fn deflected(ball: Entity, paddle: Entity) -> Entity {
    Entity {
        velocity: Vec2 {
            x: rebound_speed(ball.velocity.x as int) as i64,
            y: (ball.velocity.y + spin(paddle, ball)) as i64,
        },
        ..ball
    }
}

pub open spec fn touches_wall(ball: Entity) -> bool {
    ball.position.y <= 0 || ball.position.y + ball.height >= WINDOW_HEIGHT
}

pub open spec fn wall_bounced(ball: Entity) -> Entity {
    if touches_wall(ball) {
        Entity { velocity: Vec2 { x: ball.velocity.x, y: (-ball.velocity.y) as i64 }, ..ball }
    } else {
        ball
    }
}

pub open spec fn serve_speed(toward: Side) -> int {
    match toward {
        Side::Left => -BALL_SPEED,
        Side::Right => BALL_SPEED as int,
    }
}

/// The ball put back at the centre of the playfield, heading `toward` at
/// serving speed, with no vertical speed.
pub open spec fn served(ball: Entity, toward: Side) -> Entity {
    Entity {
        position: Vec2 {
            x: (WINDOW_WIDTH / 2 - ball.width / 2) as i64,
            y: (WINDOW_HEIGHT / 2 - ball.height / 2) as i64,
        },
        velocity: Vec2 { x: serve_speed(toward) as i64, y: 0 },
        ..ball
    }
}

pub open spec fn advanced(ball: Entity) -> Entity {
    Entity {
        position: Vec2 {
            x: (ball.position.x + ball.velocity.x) as i64,
            y: (ball.position.y + ball.velocity.y) as i64,
        },
        ..ball
    }
}

/// The ball after the paddle hit, if any: the left paddle is tested first.
pub open spec fn after_hit(ball: Entity, p1: Entity, p2: Entity) -> Entity {
    if ball.bounds_spec().overlaps(p1.bounds_spec()) {
        deflected(ball, p1)
    } else if ball.bounds_spec().overlaps(p2.bounds_spec()) {
        deflected(ball, p2)
    } else {
        ball
    }
}

pub open spec fn phase_for(score1: int, score2: int) -> Phase {
    if score1 == MAX_POINTS || score2 == MAX_POINTS {
        Phase::MatchOver
    } else {
        Phase::Playing
    }
}

impl GameState {
    /// Sizes are positive, scores never pass `MAX_POINTS`, and the match is
    /// over exactly when one of them has reached it.
    pub open spec fn wf(self) -> bool {
        &&& self.player1.wf()
        &&& self.player2.wf()
        &&& self.ball.wf()
        &&& self.score1 <= MAX_POINTS
        &&& self.score2 <= MAX_POINTS
        &&& self.phase == phase_for(self.score1 as int, self.score2 as int)
    }

    /// Every position and velocity lies where one tick cannot overflow.
    pub open spec fn in_range(self) -> bool {
        &&& self.player1.in_range()
        &&& self.player2.in_range()
        &&& self.ball.in_range()
    }

    /// The state one tick later, with the held keys `input` and, should a
    /// point be scored, the ball served `toward` the given side.
    ///
    /// Paddles move first; then the ball bounces off a paddle it overlaps and
    /// off a wall it touches. A ball past the left edge scores for the right
    /// player, one past the right edge for the left player; a point re-serves
    /// the ball from the centre and ends the tick. Otherwise the ball moves by
    /// its velocity. A finished match no longer changes.
    pub open spec fn tick(self, input: Input, toward: Side) -> GameState {
        if self.phase == Phase::MatchOver {
            self
        } else {
            let p1 = moved_paddle(self.player1, input.p1_up, input.p1_down);
            let p2 = moved_paddle(self.player2, input.p2_up, input.p2_down);
            let ball = wall_bounced(after_hit(self.ball, p1, p2));
            if ball.position.x < 0 {
                let s2 = self.score2 + 1;
                GameState {
                    player1: p1,
                    player2: p2,
                    ball: served(ball, toward),
                    score1: self.score1,
                    score2: s2 as u64,
                    phase: phase_for(self.score1 as int, s2),
                }
            } else if ball.position.x > WINDOW_WIDTH {
                let s1 = self.score1 + 1;
                GameState {
                    player1: p1,
                    player2: p2,
                    ball: served(ball, toward),
                    score1: s1 as u64,
                    score2: self.score2,
                    phase: phase_for(s1, self.score2 as int),
                }
            } else {
                GameState { player1: p1, player2: p2, ball: advanced(ball), ..self }
            }
        }
    }
}

/// Applies the held keys to a paddle, each adjustment on its own.
pub fn move_paddle(paddle: &mut Entity, up: bool, down: bool)
    requires
        old(paddle).in_range(),
    ensures
        *final(paddle) == moved_paddle(*old(paddle), up, down),
{
    if up {
        paddle.position.y = paddle.position.y - PADDLE_SPEED;
    }
    if down {
        paddle.position.y = paddle.position.y + PADDLE_SPEED;
    }
}

/// Sends the ball back from a paddle it struck, faster by `BALL_ACCEL`,
/// with spin from where on the paddle it landed.
pub fn deflect(ball: &mut Entity, paddle: &Entity)
    requires
        old(ball).wf(),
        old(ball).in_range(),
        paddle.wf(),
        -COORD_LIMIT - PADDLE_SPEED <= paddle.position.y <= COORD_LIMIT + PADDLE_SPEED,
    ensures
        *final(ball) == deflected(*old(ball), *paddle),
{
    let vx = ball.velocity.x;
    ball.velocity.x = if vx >= 0 {
        -(vx + BALL_ACCEL)
    } else {
        -(vx - BALL_ACCEL)
    };
    let paddle_centre = paddle.position.y + paddle.height / 2;
    let ball_centre = ball.position.y + ball.height / 2;
    let offset = div_trunc(PADDLE_SPIN * (paddle_centre - ball_centre), paddle.height);
    ball.velocity.y = ball.velocity.y - offset;
}

/// Reverses the ball's vertical speed when it touches the top or bottom wall.
pub fn bounce_off_walls(ball: &mut Entity)
    requires
        old(ball).wf(),
        -COORD_LIMIT <= old(ball).position.y <= COORD_LIMIT,
        -2 * COORD_LIMIT * PADDLE_SPIN <= old(ball).velocity.y <= 2 * COORD_LIMIT * PADDLE_SPIN,
    ensures
        *final(ball) == wall_bounced(*old(ball)),
{
    if ball.position.y <= 0 || ball.position.y + ball.height >= WINDOW_HEIGHT {
        ball.velocity.y = -ball.velocity.y;
    }
}

/// Puts the ball back at the centre, heading `toward` the given side.
pub fn serve_ball(ball: &mut Entity, toward: Side)
    requires
        old(ball).wf(),
    ensures
        *final(ball) == served(*old(ball), toward),
        final(ball).in_range(),
{
    ball.position = Vec2::new(WINDOW_WIDTH / 2 - ball.width / 2, WINDOW_HEIGHT / 2 - ball.height / 2);
    ball.velocity = match toward {
        Side::Left => Vec2::new(-BALL_SPEED, 0),
        Side::Right => Vec2::new(BALL_SPEED, 0),
    };
}

/// Moves the ball by its velocity.
pub fn advance(ball: &mut Entity)
    requires
        -COORD_LIMIT <= old(ball).position.x <= COORD_LIMIT,
        -COORD_LIMIT <= old(ball).position.y <= COORD_LIMIT,
        -2 * COORD_LIMIT * PADDLE_SPIN <= old(ball).velocity.x <= 2 * COORD_LIMIT * PADDLE_SPIN,
        -2 * COORD_LIMIT * PADDLE_SPIN <= old(ball).velocity.y <= 2 * COORD_LIMIT * PADDLE_SPIN,
    ensures
        *final(ball) == advanced(*old(ball)),
{
    ball.position.x = ball.position.x + ball.velocity.x;
    ball.position.y = ball.position.y + ball.velocity.y;
}

impl GameState {
    /// A new match: paddles `PADDLE_MARGIN` in from each side and vertically
    /// centred, at rest; the ball at the centre heading `toward` the given side
    /// at serving speed; both scores zero.
    pub fn new(paddle1: Size, paddle2: Size, ball: Size, toward: Side) -> (r: GameState)
        requires
            size_ok(paddle1),
            size_ok(paddle2),
            size_ok(ball),
        ensures
            r.wf(),
            r.in_range(),
            r.player1.position == (Vec2 {
                x: PADDLE_MARGIN,
                y: div_toward_zero(WINDOW_HEIGHT - paddle1.height, 2) as i64,
            }),
            r.player2.position == (Vec2 {
                x: (WINDOW_WIDTH - paddle2.width - PADDLE_MARGIN) as i64,
                y: div_toward_zero(WINDOW_HEIGHT - paddle2.height, 2) as i64,
            }),
            r.player1.velocity == Vec2::zero_spec(),
            r.player2.velocity == Vec2::zero_spec(),
            r.player1.width == paddle1.width && r.player1.height == paddle1.height,
            r.player2.width == paddle2.width && r.player2.height == paddle2.height,
            r.ball.width == ball.width && r.ball.height == ball.height,
            r.ball.position == (Vec2 {
                x: (WINDOW_WIDTH / 2 - ball.width / 2) as i64,
                y: (WINDOW_HEIGHT / 2 - ball.height / 2) as i64,
            }),
            r.ball.velocity == (Vec2 { x: serve_speed(toward) as i64, y: 0 }),
            r.score1 == 0,
            r.score2 == 0,
            r.phase == Phase::Playing,
    {
        let p1_position = Vec2::new(PADDLE_MARGIN, div_trunc(WINDOW_HEIGHT - paddle1.height, 2));
        let player1 = Entity::new(p1_position, paddle1.width, paddle1.height);
        let p2_position = Vec2::new(
            WINDOW_WIDTH - paddle2.width - PADDLE_MARGIN,
            div_trunc(WINDOW_HEIGHT - paddle2.height, 2),
        );
        let player2 = Entity::new(p2_position, paddle2.width, paddle2.height);
        let mut ball = Entity::new(Vec2::zero(), ball.width, ball.height);
        serve_ball(&mut ball, toward);
        GameState { player1, player2, ball, score1: 0, score2: 0, phase: Phase::Playing }
    }

    /// Advances the match by one tick: `*final(self)` is `tick` of the old state.
    pub fn update(&mut self, input: Input, toward: Side)
        requires
            old(self).wf(),
            old(self).in_range(),
        ensures
            *final(self) == old(self).tick(input, toward),
            final(self).wf(),
    {
        if self.phase == Phase::MatchOver {
            return;
        }
        move_paddle(&mut self.player1, input.p1_up, input.p1_down);
        move_paddle(&mut self.player2, input.p2_up, input.p2_down);
        let ball_bounds = self.ball.bounds();
        if ball_bounds.intersects(&self.player1.bounds()) {
            deflect(&mut self.ball, &self.player1);
        } else if ball_bounds.intersects(&self.player2.bounds()) {
            deflect(&mut self.ball, &self.player2);
        }
        bounce_off_walls(&mut self.ball);
        if self.ball.position.x < 0 {
            self.score2 = self.score2 + 1;
            serve_ball(&mut self.ball, toward);
            self.phase = if self.score1 == MAX_POINTS || self.score2 == MAX_POINTS {
                Phase::MatchOver
            } else {
                Phase::Playing
            };
        } else if self.ball.position.x > WINDOW_WIDTH {
            self.score1 = self.score1 + 1;
            serve_ball(&mut self.ball, toward);
            self.phase = if self.score1 == MAX_POINTS || self.score2 == MAX_POINTS {
                Phase::MatchOver
            } else {
                Phase::Playing
            };
        } else {
            advance(&mut self.ball);
        }
    }

    /// Whether the state may be handed to `update`: well formed, and with
    /// positions and velocities in the range where a tick cannot overflow.
    pub fn is_valid(&self) -> (r: bool)
        ensures
            r == (self.wf() && self.in_range()),
    {
        let scores = self.score1 <= MAX_POINTS && self.score2 <= MAX_POINTS;
        let reached = self.score1 == MAX_POINTS || self.score2 == MAX_POINTS;
        let phase = if reached {
            self.phase == Phase::MatchOver
        } else {
            self.phase == Phase::Playing
        };
        self.player1.is_wf() && self.player2.is_wf() && self.ball.is_wf() && scores && phase
            && self.player1.is_in_range() && self.player2.is_in_range() && self.ball.is_in_range()
    }

    pub fn is_over(&self) -> (r: bool)
        ensures
            r == (self.phase == Phase::MatchOver),
    {
        self.phase == Phase::MatchOver
    }

    /// The side whose player has reached `MAX_POINTS`, once the match is over.
    pub fn winner(&self) -> (r: Option<Side>)
        requires
            self.wf(),
        ensures
            self.phase == Phase::Playing ==> r.is_none(),
            self.score1 == MAX_POINTS ==> r == Some(Side::Left),
            self.score2 == MAX_POINTS && self.score1 != MAX_POINTS ==> r == Some(Side::Right),
    {
        if self.score1 == MAX_POINTS {
            Some(Side::Left)
        } else if self.score2 == MAX_POINTS {
            Some(Side::Right)
        } else {
            None
        }
    }
}

} // verus!
