//! Random horizontal jitter for the ball.
use vstd::prelude::*;

use rand::Rng;

use crate::BALL_SPEED;

verus! {

/// Relies on rand::random for `bool`: a fair coin from the thread-local
/// generator. Nothing can be said of which side comes up.
#[verifier::external_body]
fn random_bool() -> (r: bool) {
    rand::random::<bool>()
}

/// Relies on rand::Rng::gen_range over `0..bound`: a uniform draw from that
/// half-open range, which panics only when the range is empty.
#[verifier::external_body]
fn random_below(bound: u32) -> (r: u32)
    requires
        bound > 0,
    ensures
        r < bound,
{
    rand::thread_rng().gen_range(0..bound)
}

/// A jitter of size `magnitude`, negated when `negate` holds.
pub fn jitter_from(magnitude: u32, negate: bool) -> (r: i64)
    requires
        magnitude < BALL_SPEED,
    ensures
        r == (if negate { -magnitude } else { magnitude as int }),
        -BALL_SPEED < r < BALL_SPEED,
{
    if negate {
        -(magnitude as i64)
    } else {
        magnitude as i64
    }
}

/// A random horizontal speed: a uniform size below the ball speed, negated
/// with probability one half.
pub fn get_random_vel() -> (r: i64)
    ensures
        -BALL_SPEED < r < BALL_SPEED,
{
    let magnitude = random_below(BALL_SPEED as u32);
    let negate = random_bool();
    jitter_from(magnitude, negate)
}

} // verus!
