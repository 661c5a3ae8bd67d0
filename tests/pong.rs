use pong::ai::ai_decide;
use pong::collision::overlaps;
use pong::entity::{get_rekt, Entity};
use pong::random::{get_random_vel, jitter_from};
use pong::round::{check_side_walls, check_top_bottom, Game, Jitters, Key};
use pong::vector::Vector;
use pong::{BALL_SPEED, BAT_SPEED, HEIGHT, POSITION_SCALE, WIDTH};

const U: i64 = POSITION_SCALE;

fn entity_at(w: u32, h: u32, x: i64, y: i64) -> Entity {
    let mut e = Entity::new(w, h);
    e.position.set(x * U, y * U);
    e
}

#[test]
fn vector_operations() {
    let mut v = Vector::new(1, 2);
    v.set(3, 4);
    assert_eq!(v, Vector::new(3, 4));
    v.set_x(-7);
    assert_eq!(v, Vector::new(-7, 4));
    v.set_y(9);
    assert_eq!(v, Vector::new(-7, 9));
    v.add(&Vector::new(10, -20));
    assert_eq!(v, Vector::new(3, -11));
}

#[test]
fn entity_halves_are_floored() {
    let e = Entity::new(101, 21);
    assert_eq!(e.half_width, 50);
    assert_eq!(e.half_height, 10);
    assert_eq!(e.position, Vector::new(0, 0));
    assert_eq!(e.velocity, Vector::new(0, 0));
}

#[test]
fn rectangle_corners() {
    let r = get_rekt(100, 21);
    assert_eq!(r.len(), 4);
    assert_eq!((r[0].x, r[0].y), (-50, -10));
    assert_eq!((r[1].x, r[1].y), (-50, 10));
    assert_eq!((r[2].x, r[2].y), (50, -10));
    assert_eq!((r[3].x, r[3].y), (50, 10));
}

#[test]
fn overlap_is_symmetric() {
    let a = entity_at(10, 10, 0, 0);
    let b = entity_at(100, 20, 5, 5);
    let c = entity_at(100, 20, 50, 50);
    assert!(overlaps(&a, &b) && overlaps(&b, &a));
    assert!(!overlaps(&a, &c) && !overlaps(&c, &a));
}

#[test]
fn overlap_counts_shared_edges() {
    let a = entity_at(10, 10, 0, 0);
    let right = entity_at(10, 10, 10, 3);
    let below = entity_at(10, 10, 4, 10);
    let corner = entity_at(10, 10, 10, 10);
    assert!(overlaps(&a, &right));
    assert!(overlaps(&a, &below));
    assert!(overlaps(&a, &corner));
}

#[test]
fn overlap_fails_across_a_gap() {
    let a = entity_at(10, 10, 0, 0);
    let mut right = entity_at(10, 10, 10, 0);
    right.position.set_x(10 * U + 1);
    let mut below = entity_at(10, 10, 0, 10);
    below.position.set_y(10 * U + 1);
    assert!(!overlaps(&a, &right));
    assert!(!overlaps(&a, &below));
    assert!(!overlaps(&right, &a));
}

#[test]
fn integrate_zero_elapsed() {
    let mut e = entity_at(10, 10, 12, 34);
    e.velocity.set(123_456, -98_765);
    e.update(0);
    assert_eq!(e.position, Vector::new(12 * U, 34 * U));
    assert_eq!(e.velocity, Vector::new(123_456, -98_765));
}

#[test]
fn integrate_constant_velocity() {
    let mut e = entity_at(10, 10, 100, 100);
    e.velocity.set(300_000, -200_000);
    e.update(250);
    assert_eq!(e.position, Vector::new(175 * U, 50 * U));
    let mut f = entity_at(10, 10, 100, 100);
    f.velocity.set(300_000, -200_000);
    f.update(100);
    f.update(150);
    assert_eq!(f.position, e.position);
}

#[test]
fn ten_frames_from_centre() {
    let mut ball = entity_at(10, 10, 395, 395);
    ball.velocity.set(0, 200_000);
    for _ in 0..10 {
        ball.update(100);
    }
    assert_eq!(ball.position.x, 395 * U);
    assert_eq!(ball.position.y, 595 * U);
    let y = ball.position.y as f64 / U as f64;
    assert!((y - 595.0).abs() < 1e-9);
}

#[test]
fn ai_dead_zone_stops_paddle() {
    let mut cpu = entity_at(100, 20, 0, 0);
    cpu.velocity.set_x(BAT_SPEED);
    let ball = entity_at(10, 10, 30, 400);
    ai_decide(&ball, &mut cpu);
    assert_eq!(cpu.velocity.x, 0);
    assert_eq!(cpu.position, Vector::new(0, 0));
}

#[test]
fn ai_dead_zone_takes_precedence_one_unit_right_of_centre() {
    let mut cpu = entity_at(100, 20, 0, 0);
    cpu.velocity.set_x(-BAT_SPEED);
    let ball = entity_at(10, 10, 51, 400);
    ai_decide(&ball, &mut cpu);
    assert_eq!(cpu.velocity.x, 0);
}

#[test]
fn ai_chases_right() {
    let mut cpu = entity_at(100, 20, 0, 0);
    let ball = entity_at(10, 10, 80, 400);
    ai_decide(&ball, &mut cpu);
    assert_eq!(cpu.velocity.x, BAT_SPEED);
    let mut small = entity_at(4, 20, 0, 0);
    let ball = entity_at(10, 10, 3, 400);
    ai_decide(&ball, &mut small);
    assert_eq!(small.velocity.x, BAT_SPEED);
}

#[test]
fn ai_chases_left() {
    let mut cpu = entity_at(100, 20, 300, 0);
    let ball = entity_at(10, 10, 200, 400);
    ai_decide(&ball, &mut cpu);
    assert_eq!(cpu.velocity.x, -BAT_SPEED);
}

#[test]
fn ai_keeps_velocity_between_bands() {
    let mut cpu = entity_at(100, 20, 300, 0);
    cpu.velocity.set_x(BAT_SPEED);
    let ball = entity_at(10, 10, 295, 400);
    ai_decide(&ball, &mut cpu);
    assert_eq!(cpu.velocity.x, BAT_SPEED);
}

#[test]
fn reset_above_top_keeps_vertical_velocity() {
    let mut ball = entity_at(10, 10, 123, 0);
    ball.position.set_y(-U);
    ball.velocity.set(50_000, -200_000);
    check_top_bottom(&mut ball, -1234);
    assert_eq!(ball.position, Vector::new(400 * U, 390 * U));
    assert_eq!(ball.velocity, Vector::new(-1234, -200_000));
}

#[test]
fn reset_below_bottom() {
    let mut ball = entity_at(10, 10, 7, 791);
    ball.velocity.set(0, 200_000);
    check_top_bottom(&mut ball, 77);
    assert_eq!(ball.position, Vector::new(400 * U, 390 * U));
    assert_eq!(ball.velocity, Vector::new(77, 200_000));
    let mut inside = entity_at(10, 10, 7, 790);
    check_top_bottom(&mut inside, 77);
    assert_eq!(inside.position, Vector::new(7 * U, 790 * U));
    assert_eq!(inside.velocity, Vector::new(0, 0));
}

#[test]
fn left_wall_turns_ball_right() {
    let mut ball = entity_at(10, 10, -5, 300);
    ball.velocity.set(-150_000, 42);
    check_side_walls(&mut ball);
    assert_eq!(ball.velocity, Vector::new(BALL_SPEED, 42));
    let mut fast = entity_at(10, 10, -5, 300);
    fast.velocity.set(180_000, 0);
    check_side_walls(&mut fast);
    assert_eq!(fast.velocity.x, BALL_SPEED);
}

#[test]
fn right_wall_turns_ball_left() {
    let mut ball = entity_at(10, 10, 791, 300);
    ball.velocity.set(100_000, 7);
    check_side_walls(&mut ball);
    assert_eq!(ball.velocity, Vector::new(-BALL_SPEED, 7));
    let mut touching = entity_at(10, 10, 790, 300);
    touching.velocity.set(100_000, 7);
    check_side_walls(&mut touching);
    assert_eq!(touching.velocity, Vector::new(100_000, 7));
}

#[test]
fn jitter_signs() {
    assert_eq!(jitter_from(1234, false), 1234);
    assert_eq!(jitter_from(1234, true), -1234);
    assert_eq!(jitter_from(0, true), 0);
    for _ in 0..1000 {
        let v = get_random_vel();
        assert!(-BALL_SPEED < v && v < BALL_SPEED);
    }
}

#[test]
fn random_jitters_vary_and_stay_in_range() {
    let mut seen_negative = false;
    let mut seen_positive = false;
    for _ in 0..200 {
        let j = Jitters::draw();
        for v in [j.cpu_x, j.cpu_y, j.player_x, j.player_y, j.reset_x] {
            assert!(-BALL_SPEED < v && v < BALL_SPEED);
            seen_negative |= v < 0;
            seen_positive |= v > 0;
        }
    }
    assert!(seen_negative && seen_positive);
}

#[test]
fn new_game_layout() {
    let g = Game::new();
    assert_eq!(g.ball.position, Vector::new(400 * U, 400 * U));
    assert_eq!(g.ball.velocity, Vector::new(0, BALL_SPEED));
    assert_eq!((g.ball.width, g.ball.height), (10, 10));
    assert_eq!(g.cpu.position, Vector::new(0, 0));
    assert_eq!((g.cpu.width, g.cpu.height), (100, 20));
    assert_eq!(g.player.position, Vector::new(0, (HEIGHT as i64 - 20) * U));
    assert_eq!(WIDTH, 800);
}

#[test]
fn keys_drive_player() {
    let mut g = Game::new();
    g.apply_key(Key::Left, true);
    assert_eq!(g.player.velocity.x, -BAT_SPEED);
    g.apply_key(Key::Right, true);
    assert_eq!(g.player.velocity.x, BAT_SPEED);
    g.apply_key(Key::Left, false);
    assert_eq!(g.player.velocity.x, 0);
    g.apply_key(Key::Right, true);
    g.apply_key(Key::Right, false);
    assert_eq!(g.player.velocity.x, 0);
}

fn fixed_jitters() -> Jitters {
    Jitters { cpu_x: 11, cpu_y: 22, player_x: -33, player_y: 44, reset_x: -55 }
}

#[test]
fn step_without_contact() {
    let mut g = Game::new();
    g.step(100, &fixed_jitters());
    assert_eq!(g.ball.position, Vector::new(400 * U, 420 * U));
    assert_eq!(g.ball.velocity, Vector::new(0, BALL_SPEED));
    // The ball is right of the opponent's paddle, which chases it.
    assert_eq!(g.cpu.velocity.x, BAT_SPEED);
    assert_eq!(g.cpu.position, Vector::new(30 * U, 0));
    assert_eq!(g.player.position, Vector::new(0, 780 * U));
}

#[test]
fn step_hit_by_opponent_drives_ball_down() {
    let mut g = Game::new();
    g.ball.position.set(50 * U, 15 * U);
    g.ball.velocity.set(0, -BALL_SPEED);
    g.step(0, &fixed_jitters());
    assert_eq!(g.ball.velocity, Vector::new(11, BALL_SPEED + 22));
    assert_eq!(g.cpu.velocity.x, 0);
}

#[test]
fn step_hit_by_player_drives_ball_up() {
    let mut g = Game::new();
    g.ball.position.set(50 * U, 775 * U);
    g.step(10, &fixed_jitters());
    assert_eq!(g.ball.velocity, Vector::new(-33, -BALL_SPEED + 44));
    assert_eq!(g.ball.position, Vector::new(50 * U - 330, 775 * U - 1_999_560));
}

#[test]
fn step_resets_ball_out_of_play() {
    let mut g = Game::new();
    g.ball.position.set(600 * U, 795 * U);
    g.step(0, &fixed_jitters());
    assert_eq!(g.ball.position, Vector::new(400 * U, 390 * U));
    assert_eq!(g.ball.velocity, Vector::new(-55, BALL_SPEED));
}

#[test]
fn frame_moves_ball() {
    let mut g = Game::new();
    g.frame(100);
    assert_eq!(g.ball.position, Vector::new(400 * U, 420 * U));
    assert_eq!(g.cpu.position, Vector::new(30 * U, 0));
}

#[test]
fn frame_hit_by_opponent_uses_random_jitter() {
    for _ in 0..50 {
        let mut g = Game::new();
        g.ball.position.set(50 * U, 15 * U);
        g.ball.velocity.set(0, -BALL_SPEED);
        assert!(g.is_in_range());
        g.frame(0);
        assert!(-BALL_SPEED < g.ball.velocity.x && g.ball.velocity.x < BALL_SPEED);
        assert!(0 < g.ball.velocity.y && g.ball.velocity.y < 2 * BALL_SPEED);
    }
}

#[test]
fn range_check() {
    let mut g = Game::new();
    assert!(g.is_in_range());
    g.player.velocity.set_x(2_000_000);
    assert!(!g.is_in_range());
    let mut h = Game::new();
    h.cpu.position.set_x(i64::MAX);
    assert!(!h.is_in_range());
    let mut k = Game::new();
    k.ball.half_width = 4;
    assert!(!k.is_in_range());
}
