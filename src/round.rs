//! The per-frame round logic: input, the opponent, collisions, walls and the
//! round reset, then integration.
use vstd::prelude::*;

use crate::ai::{ai_decide, ai_velocity};
use crate::collision::{overlaps, overlaps_spec};
use crate::entity::Entity;
use crate::random::get_random_vel;
use crate::vector::Vector;
use crate::{
    BALL_SIZE, BALL_SPEED, BAT_SPEED, HEIGHT, PADDLE_HEIGHT, PADDLE_WIDTH, POSITION_SCALE, WIDTH,
};

verus! {

/// Largest coordinate magnitude, in position sub-units, from which a frame
/// can always be run.
pub const POSITION_LIMIT: i64 = 4_000_000_000_000_000_000;

/// Largest velocity component, in velocity sub-units, from which a frame can
/// always be run.
pub const SPEED_LIMIT: i64 = 1_000_000;

/// A direction key of the human player.
#[derive(Clone, Copy, Debug, PartialEq, Eq, Structural)]
pub enum Key {
    Left,
    Right,
}

/// The player's horizontal velocity after `key` was pressed or released.
pub open spec fn key_velocity(key: Key, pressed: bool) -> i64 {
    if !pressed {
        0
    } else {
        match key {
            Key::Left => (-BAT_SPEED) as i64,
            Key::Right => BAT_SPEED,
        }
    }
}

/// The random jitters that one frame may use: two for a hit of the
/// opponent's paddle, two for a hit of the player's paddle, one for a reset.
#[derive(Clone, Copy, Debug, PartialEq, Eq, Structural)]
pub struct Jitters {
    pub cpu_x: i64,
    pub cpu_y: i64,
    pub player_x: i64,
    pub player_y: i64,
    pub reset_x: i64,
}

pub open spec fn jitter_ok(j: i64) -> bool {
    -BALL_SPEED < j < BALL_SPEED
}

impl Jitters {
    pub open spec fn wf(&self) -> bool {
        &&& jitter_ok(self.cpu_x)
        &&& jitter_ok(self.cpu_y)
        &&& jitter_ok(self.player_x)
        &&& jitter_ok(self.player_y)
        &&& jitter_ok(self.reset_x)
    }

    /// Five fresh random jitters.
    pub fn draw() -> (r: Jitters)
        ensures
            r.wf(),
    {
        let cpu_x = get_random_vel();
        let cpu_y = get_random_vel();
        let player_x = get_random_vel();
        let player_y = get_random_vel();
        let reset_x = get_random_vel();
        Jitters { cpu_x, cpu_y, player_x, player_y, reset_x }
    }
}

/// The ball sent off with velocity `(vx, vy)`.
pub open spec fn with_velocity(ball: Entity, vx: int, vy: int) -> Entity {
    Entity { velocity: Vector { x: vx as i64, y: vy as i64 }, ..ball }
}

/// The ball after the paddle checks: a hit of the opponent's paddle drives it
/// down, then a hit of the player's paddle drives it up, each with jitter
/// added to both components.
pub open spec fn bounced(ball: Entity, cpu: Entity, player: Entity, j: Jitters) -> Entity {
    let b1 = if overlaps_spec(ball, cpu) {
        with_velocity(ball, j.cpu_x as int, BALL_SPEED + j.cpu_y)
    } else {
        ball
    };
    if overlaps_spec(b1, player) {
        with_velocity(b1, j.player_x as int, -BALL_SPEED + j.player_y)
    } else {
        b1
    }
}

/// The ball after the side-wall check: past the left wall it heads right,
/// past the right wall it heads left.
pub open spec fn side_walled(ball: Entity) -> Entity {
    if ball.position.x < 0 {
        with_velocity(ball, BALL_SPEED as int, ball.velocity.y as int)
    } else if ball.max_x() > WIDTH * POSITION_SCALE {
        with_velocity(ball, -BALL_SPEED, ball.velocity.y as int)
    } else {
        ball
    }
}

pub open spec fn reset_x_position() -> int {
    (WIDTH / 2) * POSITION_SCALE
}

pub open spec fn reset_y_position(ball: Entity) -> int {
    ((HEIGHT / 2) - ball.height) * POSITION_SCALE
}

/// The ball is above the top edge or below the bottom edge.
pub open spec fn out_of_play(ball: Entity) -> bool {
    ball.position.y < 0 || ball.max_y() > HEIGHT * POSITION_SCALE
}

/// The ball after the top/bottom check: when out of play it goes back to the
/// centre with a new horizontal velocity and its vertical velocity kept.
pub open spec fn top_bottom_checked(ball: Entity, reset_x: i64) -> Entity {
    if out_of_play(ball) {
        Entity {
            position: Vector { x: reset_x_position() as i64, y: reset_y_position(ball) as i64 },
            velocity: Vector { x: reset_x, y: ball.velocity.y },
            ..ball
        }
    } else {
        ball
    }
}

/// Sets the ball's velocity after contact with either paddle.
pub fn bounce_off_paddles(ball: &mut Entity, cpu: &Entity, player: &Entity, j: &Jitters)
    requires
        j.wf(),
    ensures
        *final(ball) == bounced(*old(ball), *cpu, *player, *j),
{
    if overlaps(ball, cpu) {
        ball.velocity.set(j.cpu_x, BALL_SPEED + j.cpu_y);
    }
    if overlaps(ball, player) {
        ball.velocity.set(j.player_x, -BALL_SPEED + j.player_y);
    }
}

/// Reflects the ball's horizontal velocity off the side walls.
pub fn check_side_walls(ball: &mut Entity)
    ensures
        *final(ball) == side_walled(*old(ball)),
{
    let scale = POSITION_SCALE as i128;
    if ball.position.x < 0 {
        ball.velocity.set_x(BALL_SPEED);
    } else if ball.position.x as i128 + ball.width as i128 * scale > WIDTH as i128 * scale {
        ball.velocity.set_x(-BALL_SPEED);
    }
}

/// Puts a ball that left through the top or the bottom back in the centre.
pub fn check_top_bottom(ball: &mut Entity, reset_x: i64)
    ensures
        *final(ball) == top_bottom_checked(*old(ball), reset_x),
{
    let scale = POSITION_SCALE as i128;
    let bottom = ball.position.y as i128 + ball.height as i128 * scale;
    if ball.position.y < 0 || bottom > HEIGHT as i128 * scale {
        let y = ((HEIGHT / 2) as i64 - ball.height as i64) * POSITION_SCALE;
        ball.position.set((WIDTH / 2) as i64 * POSITION_SCALE, y);
        ball.velocity.set_x(reset_x);
    }
}

/// Passing the left wall turns the ball right, whatever its velocity was.
pub proof fn lemma_left_wall_turns_right(ball: Entity)
    requires
        ball.position.x < 0,
    ensures
        side_walled(ball).velocity.x == BALL_SPEED,
        side_walled(ball).velocity.y == ball.velocity.y,
        side_walled(ball).position == ball.position,
{
}

/// A ball above the top edge is put back at the centre, one ball height
/// above the middle line, with the jitter as its horizontal velocity and its
/// vertical velocity unchanged.
pub proof fn lemma_reset_above_top(ball: Entity, reset_x: i64)
    requires
        ball.position.y < 0,
        jitter_ok(reset_x),
    ensures
        top_bottom_checked(ball, reset_x).position.x == (WIDTH / 2) * POSITION_SCALE,
        top_bottom_checked(ball, reset_x).position.y == ((HEIGHT / 2) - ball.height)
            * POSITION_SCALE,
        -BALL_SPEED <= top_bottom_checked(ball, reset_x).velocity.x <= BALL_SPEED,
        top_bottom_checked(ball, reset_x).velocity.y == ball.velocity.y,
{
}

/// Position and velocity are small enough for one frame of any length.
pub open spec fn entity_in_range(e: Entity) -> bool {
    &&& e.wf()
    &&& -POSITION_LIMIT <= e.position.x <= POSITION_LIMIT
    &&& -POSITION_LIMIT <= e.position.y <= POSITION_LIMIT
    &&& -SPEED_LIMIT <= e.velocity.x <= SPEED_LIMIT
    &&& -SPEED_LIMIT <= e.velocity.y <= SPEED_LIMIT
}

proof fn lemma_in_range_integrates(e: Entity, dt: u32)
    requires
        entity_in_range(e),
    ensures
        e.can_integrate(dt as int),
{
    let t = dt as int;
    assert(-SPEED_LIMIT * 0x1_0000_0000 <= e.velocity.x * t <= SPEED_LIMIT * 0x1_0000_0000)
        by (nonlinear_arith)
        requires
            -SPEED_LIMIT <= e.velocity.x <= SPEED_LIMIT,
            0 <= t < 0x1_0000_0000,
    ;
    assert(-SPEED_LIMIT * 0x1_0000_0000 <= e.velocity.y * t <= SPEED_LIMIT * 0x1_0000_0000)
        by (nonlinear_arith)
        requires
            -SPEED_LIMIT <= e.velocity.y <= SPEED_LIMIT,
            0 <= t < 0x1_0000_0000,
    ;
}

fn entity_is_in_range(e: &Entity) -> (r: bool)
    ensures
        r == entity_in_range(*e),
{
    e.half_width == e.width / 2 && e.half_height == e.height / 2 && -POSITION_LIMIT
        <= e.position.x && e.position.x <= POSITION_LIMIT && -POSITION_LIMIT <= e.position.y
        && e.position.y <= POSITION_LIMIT && -SPEED_LIMIT <= e.velocity.x && e.velocity.x
        <= SPEED_LIMIT && -SPEED_LIMIT <= e.velocity.y && e.velocity.y <= SPEED_LIMIT
}

/// The ball and the two paddles.
#[derive(Clone, Copy, Debug, PartialEq, Eq, Structural)]
pub struct Game {
    pub ball: Entity,
    pub cpu: Entity,
    pub player: Entity,
}

impl Game {
    /// Every entity is well formed and small enough for one more frame.
    pub open spec fn in_range(&self) -> bool {
        &&& entity_in_range(self.ball)
        &&& entity_in_range(self.cpu)
        &&& entity_in_range(self.player)
    }

    /// Whether `frame` and `step` may be run on this game.
    pub fn is_in_range(&self) -> (r: bool)
        ensures
            r == self.in_range(),
    {
        entity_is_in_range(&self.ball) && entity_is_in_range(&self.cpu) && entity_is_in_range(
            &self.player,
        )
    }

    /// The opponent's paddle after it has decided.
    pub open spec fn decided_cpu(self) -> Entity {
        Entity {
            velocity: Vector { x: ai_velocity(self.ball, self.cpu), y: self.cpu.velocity.y },
            ..self.cpu
        }
    }

    /// The ball after the paddle, side-wall and top/bottom checks.
    pub open spec fn checked_ball(self, j: Jitters) -> Entity {
        top_bottom_checked(
            side_walled(bounced(self.ball, self.decided_cpu(), self.player, j)),
            j.reset_x,
        )
    }

    /// The game one frame of `dt` milliseconds later, with jitters `j`.
    pub open spec fn stepped(self, dt: int, j: Jitters) -> Game {
        Game {
            ball: self.checked_ball(j).integrated(dt),
            cpu: self.decided_cpu().integrated(dt),
            player: self.player.integrated(dt),
        }
    }

    /// The opening position: paddles at the top and bottom edges, the ball
    /// in the centre heading down toward the player.
    pub fn new() -> (r: Game)
        ensures
            r.in_range(),
            r.ball.width == BALL_SIZE && r.ball.height == BALL_SIZE,
            r.cpu.width == PADDLE_WIDTH && r.cpu.height == PADDLE_HEIGHT,
            r.player.width == PADDLE_WIDTH && r.player.height == PADDLE_HEIGHT,
            r.ball.position == (Vector {
                x: ((WIDTH / 2) * POSITION_SCALE) as i64,
                y: ((HEIGHT / 2) * POSITION_SCALE) as i64,
            }),
            r.ball.velocity == (Vector { x: 0, y: BALL_SPEED }),
            r.cpu.position == (Vector { x: 0, y: 0 }),
            r.cpu.velocity == (Vector { x: 0, y: 0 }),
            r.player.position == (Vector {
                x: 0,
                y: ((HEIGHT - PADDLE_HEIGHT) * POSITION_SCALE) as i64,
            }),
            r.player.velocity == (Vector { x: 0, y: 0 }),
    {
        let mut ball = Entity::new(BALL_SIZE, BALL_SIZE);
        let cpu = Entity::new(PADDLE_WIDTH, PADDLE_HEIGHT);
        let mut player = Entity::new(PADDLE_WIDTH, PADDLE_HEIGHT);
        player.position.set_y((HEIGHT - player.height) as i64 * POSITION_SCALE);
        ball.position.set((WIDTH / 2) as i64 * POSITION_SCALE, (HEIGHT / 2) as i64 * POSITION_SCALE);
        ball.velocity.set_y(BALL_SPEED);
        Game { ball, cpu, player }
    }

    /// Sets the player's horizontal velocity for a key event: full paddle
    /// speed toward the key while pressed, rest when released.
    pub fn apply_key(&mut self, key: Key, pressed: bool)
        ensures
            final(self).player.velocity.x == key_velocity(key, pressed),
            final(self).player.velocity.y == old(self).player.velocity.y,
            final(self).player.position == old(self).player.position,
            final(self).player.width == old(self).player.width,
            final(self).player.height == old(self).player.height,
            final(self).player.half_width == old(self).player.half_width,
            final(self).player.half_height == old(self).player.half_height,
            final(self).ball == old(self).ball,
            final(self).cpu == old(self).cpu,
    {
        if !pressed {
            self.player.velocity.set_x(0);
        } else {
            match key {
                Key::Left => self.player.velocity.set_x(-BAT_SPEED),
                Key::Right => self.player.velocity.set_x(BAT_SPEED),
            }
        }
    }

    /// One frame with the given jitters: the opponent decides, the ball
    /// meets paddles and walls, and everything moves for `dt` milliseconds.
    pub fn step(&mut self, dt: u32, j: &Jitters)
        requires
            old(self).in_range(),
            j.wf(),
        ensures
            *final(self) == old(self).stepped(dt as int, *j),
    {
        let ghost start = *self;
        ai_decide(&self.ball, &mut self.cpu);
        assert(self.cpu == start.decided_cpu());
        bounce_off_paddles(&mut self.ball, &self.cpu, &self.player, j);
        check_side_walls(&mut self.ball);
        check_top_bottom(&mut self.ball, j.reset_x);
        assert(self.ball == start.checked_ball(*j));
        proof {
            lemma_in_range_integrates(self.ball, dt);
            lemma_in_range_integrates(self.cpu, dt);
            lemma_in_range_integrates(self.player, dt);
        }
        self.ball.update(dt);
        self.cpu.update(dt);
        self.player.update(dt);
    }

    /// One frame of `dt` milliseconds with freshly drawn jitters.
    pub fn frame(&mut self, dt: u32)
        requires
            old(self).in_range(),
        ensures
            exists|j: Jitters| j.wf() && *final(self) == old(self).stepped(dt as int, j),
    {
        let j = Jitters::draw();
        self.step(dt, &j);
    }
}

} // verus!
