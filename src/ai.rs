//! The scripted opponent: it steers its paddle toward the ball.
use vstd::prelude::*;

use crate::entity::Entity;
use crate::{BAT_SPEED, POSITION_SCALE};

verus! {

/// The ball lies strictly inside the paddle's dead zone, whose margin on
/// both sides is half of the paddle's half width.
pub open spec fn in_dead_zone(ball: Entity, cpu: Entity) -> bool {
    &&& cpu.position.x + (cpu.half_width / 2) * POSITION_SCALE < ball.position.x
    &&& ball.position.x < cpu.position.x + cpu.width * POSITION_SCALE - (cpu.half_width / 2)
        * POSITION_SCALE
}

/// The ball is right of the paddle's centre.
pub open spec fn right_of_centre(ball: Entity, cpu: Entity) -> bool {
    ball.position.x > cpu.position.x + cpu.half_width * POSITION_SCALE
}

/// The ball's right edge is left of the paddle.
pub open spec fn left_of_paddle(ball: Entity, cpu: Entity) -> bool {
    ball.position.x + ball.width * POSITION_SCALE < cpu.position.x
}

/// The paddle's horizontal velocity after the opponent has decided; when no
/// band applies the previous velocity stays.
pub open spec fn ai_velocity(ball: Entity, cpu: Entity) -> i64 {
    if in_dead_zone(ball, cpu) {
        0
    } else if right_of_centre(ball, cpu) {
        BAT_SPEED
    } else if left_of_paddle(ball, cpu) {
        (-BAT_SPEED) as i64
    } else {
        cpu.velocity.x
    }
}

/// Sets the horizontal velocity of the opponent's paddle from the ball's
/// position; nothing else changes.
pub fn ai_decide(ball: &Entity, cpu: &mut Entity)
    ensures
        final(cpu).velocity.x == ai_velocity(*ball, *old(cpu)),
        final(cpu).velocity.y == old(cpu).velocity.y,
        final(cpu).position == old(cpu).position,
        final(cpu).width == old(cpu).width,
        final(cpu).height == old(cpu).height,
        final(cpu).half_width == old(cpu).half_width,
        final(cpu).half_height == old(cpu).half_height,
{
    let scale = POSITION_SCALE as i128;
    let ball_x = ball.position.x as i128;
    let cpu_x = cpu.position.x as i128;
    let margin = (cpu.half_width / 2) as i128 * scale;
    if cpu_x + margin < ball_x && ball_x < cpu_x + cpu.width as i128 * scale - margin {
        cpu.velocity.set_x(0);
    } else if ball_x > cpu_x + cpu.half_width as i128 * scale {
        cpu.velocity.set_x(BAT_SPEED);
    } else if ball_x + ball.width as i128 * scale < cpu_x {
        cpu.velocity.set_x(-BAT_SPEED);
    }
}

/// A ball one unit right of the paddle's centre makes the paddle chase right,
/// provided that point is outside the dead zone.
pub proof fn lemma_chase_right(ball: Entity, cpu: Entity)
    requires
        ball.position.x == cpu.position.x + (cpu.half_width + 1) * POSITION_SCALE,
        !in_dead_zone(ball, cpu),
    ensures
        ai_velocity(ball, cpu) == BAT_SPEED,
{
}

} // verus!
