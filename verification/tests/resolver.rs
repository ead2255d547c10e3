use rayball::color::Color;
use rayball::components::{Ball, Brick, Platform, Status};
use rayball::constants::{BALL_RADIUS, VELOCITY};
use rayball::fixed::{HALF, ONE};
use rayball::game::GameEvent;
use rayball::math::{Rectangle, Vector2};
use rayball::systems::physics::{
    center_x, resolve_ball_collisions, snap_ball_to_platform, transition_ball,
    update_ball_position,
};

const FRAME: i32 = 546;

fn units(n: i32) -> i32 {
    n * ONE
}

fn point(x: i32, y: i32) -> Vector2 {
    Vector2::new(units(x), units(y))
}

fn flying(pos: Vector2, velocity: Vector2) -> Ball {
    Ball { pos, velocity, status: Status::Running, radius: BALL_RADIUS }
}

fn brick_at(x: i32, y: i32) -> Brick {
    Brick::new(point(x, y), Color::raywhite())
}

fn far_paddle() -> Platform {
    Platform { pos: point(0, 585), width: units(100), height: units(15) }
}

fn distance_sq(a: Vector2, b: Vector2) -> i128 {
    let dx = a.x as i128 - b.x as i128;
    let dy = a.y as i128 - b.y as i128;
    dx * dx + dy * dy
}

#[test]
fn a_ball_in_flight_moves_by_velocity_times_time() {
    let mut ball = flying(point(450, 300), point(-300, -900));
    let events = update_ball_position(&mut ball, FRAME);
    assert!(events.is_empty());
    assert_eq!(ball.pos, Vector2::new(units(450) - 300 * FRAME, units(300) - 900 * FRAME));
    assert_eq!(ball.velocity, point(-300, -900));
    assert_eq!(ball.status, Status::Running);
}

#[test]
fn the_method_on_the_ball_does_the_same_as_the_stage() {
    let mut a = flying(point(890, 20), point(900, -900));
    let mut b = a;
    let by_method = a.update(FRAME);
    let by_stage = update_ball_position(&mut b, FRAME);
    assert_eq!(by_method, by_stage);
    assert_eq!(a, b);
}

#[test]
fn only_a_ball_in_flight_moves() {
    for status in [Status::Start, Status::Spawning, Status::Dead] {
        let mut ball = flying(point(450, 595), point(100, 900));
        ball.status = status;
        let before = ball;
        assert!(update_ball_position(&mut ball, FRAME).is_empty());
        assert_eq!(ball, before);
        let mut bricks = vec![brick_at(430, 580)];
        let paddle = Platform::new();
        assert!(resolve_ball_collisions(&mut ball, &paddle, &mut bricks).is_empty());
        assert_eq!(ball, before);
        assert!(bricks[0].active);
    }
}

#[test]
fn the_top_turns_the_ball_back_and_leaves_it_flush() {
    let mut ball = flying(point(450, 18), point(0, -900));
    let events = update_ball_position(&mut ball, FRAME);
    assert_eq!(events, vec![GameEvent::BallHitWall]);
    assert_eq!(ball.pos, point(450, 15));
    assert_eq!(ball.pos.y - ball.radius, 0);
    assert_eq!(ball.velocity, point(0, 900));
    assert_eq!(ball.status, Status::Running);
}

#[test]
fn the_right_wall_turns_the_ball_back_and_leaves_it_flush() {
    let mut ball = flying(point(880, 300), point(900, 0));
    let events = update_ball_position(&mut ball, FRAME);
    assert_eq!(events, vec![GameEvent::BallHitWall]);
    assert_eq!(ball.pos, point(885, 300));
    assert_eq!(ball.pos.x + ball.radius, units(900));
    assert_eq!(ball.velocity, point(-900, 0));
}

#[test]
fn the_left_wall_turns_the_ball_back_and_leaves_it_flush() {
    let mut ball = flying(point(20, 300), point(-900, 100));
    let events = update_ball_position(&mut ball, FRAME);
    assert_eq!(events, vec![GameEvent::BallHitWall]);
    assert_eq!(ball.pos, Vector2::new(units(15), units(300) + 100 * FRAME));
    assert_eq!(ball.pos.x - ball.radius, 0);
    assert_eq!(ball.velocity, point(900, 100));
}

#[test]
fn a_ball_that_only_touches_a_wall_flies_on() {
    // exactly flush with the top and the left wall after the move: no crossing there
    let mut ball = flying(Vector2::new(units(15) + 900 * FRAME, units(15) + 900 * FRAME), point(-900, -900));
    assert!(update_ball_position(&mut ball, FRAME).is_empty());
    assert_eq!(ball.pos, point(15, 15));
    assert_eq!(ball.velocity, point(-900, -900));
    // exactly flush with the right wall after the move: that is a contact
    let mut right = flying(Vector2::new(units(885) - 900 * FRAME, units(300)), point(900, 0));
    assert_eq!(update_ball_position(&mut right, FRAME), vec![GameEvent::BallHitWall]);
    assert_eq!(right.pos, point(885, 300));
    assert_eq!(right.velocity, point(-900, 0));
}

#[test]
fn a_ball_that_moves_away_from_a_wall_is_not_turned() {
    let mut ball = flying(point(5, 5), point(900, 900));
    assert!(update_ball_position(&mut ball, FRAME).is_empty());
    assert_eq!(ball.pos, Vector2::new(units(5) + 900 * FRAME, units(5) + 900 * FRAME));
    assert_eq!(ball.velocity, point(900, 900));
}

#[test]
fn top_and_side_in_one_frame_make_one_event() {
    let mut ball = flying(point(882, 18), point(900, -900));
    let events = update_ball_position(&mut ball, FRAME);
    assert_eq!(events, vec![GameEvent::BallHitWall]);
    assert_eq!(ball.pos, point(885, 15));
    assert_eq!(ball.velocity, point(-900, 900));
    let mut other = flying(point(18, 18), point(-900, -900));
    assert_eq!(update_ball_position(&mut other, FRAME), vec![GameEvent::BallHitWall]);
    assert_eq!(other.pos, point(15, 15));
    assert_eq!(other.velocity, point(900, 900));
}

#[test]
fn the_bottom_takes_the_ball_out_of_play() {
    let mut ball = flying(point(450, 580), point(300, 900));
    let events = update_ball_position(&mut ball, FRAME);
    assert_eq!(events, vec![GameEvent::BallDropped]);
    assert_eq!(ball.status, Status::Dead);
    assert_eq!(ball.velocity, Vector2::zero());
    assert_eq!(ball.pos, Vector2::new(units(450) + 300 * FRAME, units(585)));
}

#[test]
fn a_dead_ball_is_not_dropped_again() {
    let mut ball = flying(point(450, 580), point(0, 900));
    assert_eq!(update_ball_position(&mut ball, FRAME), vec![GameEvent::BallDropped]);
    let dead = ball;
    for _ in 0..5 {
        assert!(update_ball_position(&mut ball, FRAME).is_empty());
        let mut bricks = vec![brick_at(430, 575)];
        assert!(resolve_ball_collisions(&mut ball, &Platform::new(), &mut bricks).is_empty());
        assert_eq!(ball, dead);
    }
}

#[test]
fn the_bottom_outranks_the_side_walls() {
    let mut ball = flying(point(884, 584), point(900, 900));
    let events = update_ball_position(&mut ball, FRAME);
    assert_eq!(events, vec![GameEvent::BallDropped]);
    assert_eq!(ball.status, Status::Dead);
    // the side wall had no say: the ball lies where the move took it
    assert_eq!(ball.pos, Vector2::new(units(884) + 900 * FRAME, units(585)));
}

#[test]
fn a_ball_on_the_bottom_that_moves_up_is_not_lost() {
    let mut ball = flying(point(450, 590), point(0, -900));
    assert!(update_ball_position(&mut ball, FRAME).is_empty());
    assert_eq!(ball.status, Status::Running);
    assert_eq!(ball.pos, Vector2::new(units(450), units(590) - 900 * FRAME));
}

#[test]
fn a_brick_hit_from_below_turns_the_ball_down() {
    let mut ball = flying(point(130, 130), point(0, -900));
    let mut bricks = vec![brick_at(100, 100)];
    let events = resolve_ball_collisions(&mut ball, &far_paddle(), &mut bricks);
    assert_eq!(events, vec![GameEvent::BrickCollision(point(130, 130))]);
    assert!(!bricks[0].active);
    assert_eq!(ball.velocity, point(0, 900));
    assert_eq!(ball.pos, point(130, 130));
}

#[test]
fn a_brick_hit_from_above_turns_the_ball_up() {
    let mut ball = flying(point(130, 90), point(200, 900));
    let mut bricks = vec![brick_at(100, 100)];
    let events = resolve_ball_collisions(&mut ball, &far_paddle(), &mut bricks);
    assert_eq!(events, vec![GameEvent::BrickCollision(point(130, 90))]);
    assert_eq!(ball.velocity, point(200, -900));
}

#[test]
fn a_brick_hit_from_the_side_turns_the_ball_sideways() {
    let mut from_left = flying(point(90, 110), point(300, -900));
    let mut bricks = vec![brick_at(100, 100)];
    resolve_ball_collisions(&mut from_left, &far_paddle(), &mut bricks);
    assert_eq!(from_left.velocity, point(-300, -900));
    assert!(!bricks[0].active);

    let mut from_right = flying(point(170, 110), point(-300, 900));
    let mut bricks = vec![brick_at(100, 100)];
    resolve_ball_collisions(&mut from_right, &far_paddle(), &mut bricks);
    assert_eq!(from_right.velocity, point(300, 900));
}

#[test]
fn a_ball_level_with_the_edge_of_a_brick_is_not_beside_it() {
    // the centre is on the brick's left edge, not strictly left of it
    let mut ball = flying(point(100, 130), point(300, -900));
    let mut bricks = vec![brick_at(100, 100)];
    resolve_ball_collisions(&mut ball, &far_paddle(), &mut bricks);
    assert_eq!(ball.velocity, point(300, 900));
    // beside the brick but moving away from it: the fallback turns it vertically
    let mut leaving = flying(point(95, 110), point(-300, -900));
    let mut bricks = vec![brick_at(100, 100)];
    resolve_ball_collisions(&mut leaving, &far_paddle(), &mut bricks);
    assert_eq!(leaving.velocity, point(-300, 900));
    assert!(!bricks[0].active);
}

#[test]
fn only_the_first_of_two_overlapped_bricks_is_destroyed() {
    let mut ball = flying(point(130, 125), point(0, -900));
    let mut bricks = vec![brick_at(300, 300), brick_at(100, 130), brick_at(100, 100), brick_at(100, 100)];
    let events = resolve_ball_collisions(&mut ball, &far_paddle(), &mut bricks);
    assert_eq!(events, vec![GameEvent::BrickCollision(point(130, 125))]);
    assert_eq!(bricks.iter().filter(|b| !b.active).count(), 1);
    assert!(!bricks[1].active);
    assert!(bricks[0].active && bricks[2].active && bricks[3].active);
    // the next call takes the next one
    let events = resolve_ball_collisions(&mut ball, &far_paddle(), &mut bricks);
    assert_eq!(events.len(), 1);
    assert!(!bricks[2].active);
    assert!(bricks[3].active);
    assert_eq!(bricks.iter().filter(|b| !b.active).count(), 2);
}

#[test]
fn a_destroyed_brick_is_passed_through_and_never_comes_back() {
    let mut dead = brick_at(100, 100);
    dead.die();
    let mut bricks = vec![dead, brick_at(400, 400)];
    let mut ball = flying(point(130, 110), point(0, -900));
    let events = resolve_ball_collisions(&mut ball, &far_paddle(), &mut bricks);
    assert!(events.is_empty());
    assert_eq!(ball.velocity, point(0, -900));
    assert!(!bricks[0].active);
    assert!(bricks[1].active);
    assert_eq!(bricks[0].pos, point(100, 100));
}

#[test]
fn a_ball_out_of_reach_of_every_brick_flies_on() {
    let mut ball = flying(point(130, 136), point(0, -900));
    let mut bricks = vec![brick_at(100, 100)];
    assert!(resolve_ball_collisions(&mut ball, &far_paddle(), &mut bricks).is_empty());
    assert!(bricks[0].active);
    // just touching is a hit
    let mut touching = flying(point(130, 135), point(0, -900));
    assert_eq!(resolve_ball_collisions(&mut touching, &far_paddle(), &mut bricks).len(), 1);
    let mut no_bricks: Vec<Brick> = Vec::new();
    assert!(resolve_ball_collisions(&mut ball, &far_paddle(), &mut no_bricks).is_empty());
}

#[test]
fn the_centre_of_the_paddle_sends_the_ball_straight_up() {
    let paddle = Platform::new();
    let mut ball = flying(point(450, 575), point(411, 900));
    let mut bricks: Vec<Brick> = Vec::new();
    let events = resolve_ball_collisions(&mut ball, &paddle, &mut bricks);
    assert_eq!(events, vec![GameEvent::BallHitPlatform(point(450, 585))]);
    assert_eq!(ball.velocity, point(0, -900));
    assert_eq!(ball.pos, point(450, 570));
}

#[test]
fn the_edges_of_the_paddle_send_the_ball_off_at_full_speed() {
    let paddle = Platform::new();
    let mut bricks: Vec<Brick> = Vec::new();
    let mut left = flying(point(300, 575), point(0, 900));
    resolve_ball_collisions(&mut left, &paddle, &mut bricks);
    assert_eq!(left.velocity, Vector2::new(-VELOCITY, -VELOCITY));
    let mut right = flying(point(600, 575), point(0, 900));
    let events = resolve_ball_collisions(&mut right, &paddle, &mut bricks);
    assert_eq!(right.velocity, Vector2::new(VELOCITY, -VELOCITY));
    assert_eq!(events, vec![GameEvent::BallHitPlatform(point(600, 585))]);
}

#[test]
fn between_centre_and_edge_the_paddle_steers_in_proportion() {
    let paddle = Platform::new();
    let mut bricks: Vec<Brick> = Vec::new();
    let mut ball = flying(point(525, 575), point(-20, 900));
    resolve_ball_collisions(&mut ball, &paddle, &mut bricks);
    assert_eq!(ball.velocity, point(450, -900));
    let mut ball = flying(point(375, 575), point(0, 900));
    resolve_ball_collisions(&mut ball, &paddle, &mut bricks);
    assert_eq!(ball.velocity, point(-450, -900));
    let mut ball = flying(point(451, 575), point(0, 900));
    resolve_ball_collisions(&mut ball, &paddle, &mut bricks);
    assert_eq!(ball.velocity, Vector2::new(392400, units(-900)));
    // beyond the edge, within reach of the corner: more than full speed
    let mut ball = flying(point(610, 580), point(0, 900));
    resolve_ball_collisions(&mut ball, &paddle, &mut bricks);
    assert_eq!(ball.velocity, Vector2::new(62914500, units(-900)));
}

#[test]
fn the_paddle_lets_a_rising_ball_pass() {
    let paddle = Platform::new();
    let mut bricks: Vec<Brick> = Vec::new();
    let mut rising = flying(point(450, 575), point(100, -900));
    assert!(resolve_ball_collisions(&mut rising, &paddle, &mut bricks).is_empty());
    assert_eq!(rising, flying(point(450, 575), point(100, -900)));
    let mut level = flying(point(450, 575), point(100, 0));
    assert!(resolve_ball_collisions(&mut level, &paddle, &mut bricks).is_empty());
    let mut above = flying(point(450, 569), point(0, 900));
    assert!(resolve_ball_collisions(&mut above, &paddle, &mut bricks).is_empty());
    let mut touching = flying(point(450, 570), point(0, 900));
    assert_eq!(resolve_ball_collisions(&mut touching, &paddle, &mut bricks).len(), 1);
}

#[test]
fn a_paddle_without_width_steers_to_the_extreme() {
    let paddle = Platform { pos: point(450, 585), width: 0, height: units(15) };
    let mut bricks: Vec<Brick> = Vec::new();
    let mut right = flying(point(455, 575), point(0, 900));
    resolve_ball_collisions(&mut right, &paddle, &mut bricks);
    assert_eq!(right.velocity, Vector2::new(i32::MAX, units(-900)));
    let mut left = flying(point(445, 575), point(0, 900));
    resolve_ball_collisions(&mut left, &paddle, &mut bricks);
    assert_eq!(left.velocity, Vector2::new(i32::MIN, units(-900)));
    let mut centre = flying(point(450, 575), point(7, 900));
    resolve_ball_collisions(&mut centre, &paddle, &mut bricks);
    assert_eq!(centre.velocity, point(0, -900));
}

#[test]
fn brick_and_paddle_in_one_frame_are_reported_in_that_order() {
    let paddle = Platform::new();
    let mut bricks = vec![brick_at(420, 560)];
    // comes from beside the brick, so the brick turns it sideways and it still falls on the paddle
    let mut ball = flying(point(410, 575), point(300, 900));
    let events = resolve_ball_collisions(&mut ball, &paddle, &mut bricks);
    assert_eq!(
        events,
        vec![
            GameEvent::BrickCollision(point(410, 575)),
            GameEvent::BallHitPlatform(point(410, 585)),
        ]
    );
    assert!(!bricks[0].active);
    assert_eq!(ball.pos, point(410, 570));
    assert_eq!(ball.velocity.y, units(-900));
    // a brick that turns the ball up keeps the paddle out of it
    let mut bricks = vec![brick_at(420, 560)];
    let mut ball = flying(point(450, 575), point(0, 900));
    let events = resolve_ball_collisions(&mut ball, &paddle, &mut bricks);
    assert_eq!(events, vec![GameEvent::BrickCollision(point(450, 575))]);
    assert_eq!(ball.velocity, point(0, -900));
}

#[test]
fn snapping_seats_the_ball_on_the_middle_of_the_paddle() {
    let mut ball = Ball::new();
    let mut paddle = Platform::new();
    snap_ball_to_platform(&mut ball, &paddle);
    assert_eq!(ball.pos, point(450, 570));
    paddle.move_left(ONE);
    snap_ball_to_platform(&mut ball, &paddle);
    assert_eq!(ball.pos, point(150, 570));
    assert_eq!(ball.status, Status::Start);
    assert_eq!(ball.velocity, Vector2::zero());
    assert_eq!(center_x(paddle.bounds()), units(150));
    assert_eq!(center_x(Rectangle::new(1, 0, 5, 0)), 3);
}

#[test]
fn a_glide_step_covers_ten_times_dt_of_the_way() {
    let paddle = Platform::new();
    let mut ball = Ball::new();
    ball.status = Status::Spawning;
    ball.pos = Vector2::new(units(67) + HALF, units(30));
    // dt of a 20th of a second: half the way
    assert!(transition_ball(&mut ball, &paddle, ONE / 20));
    let amount = (ONE / 20) as i64 * 10;
    let dx = (units(450) - (units(67) + HALF)) as i64;
    let dy = (units(570) - units(30)) as i64;
    assert_eq!(
        ball.pos,
        Vector2::new(
            units(67) + HALF + (dx * amount).div_euclid(65536) as i32,
            units(30) + (dy * amount).div_euclid(65536) as i32,
        )
    );
    assert_eq!(ball.status, Status::Spawning);
    assert_eq!(ball.velocity, Vector2::zero());
    // a tenth of a second: all the way
    let mut direct = Ball::new();
    direct.pos = point(100, 100);
    assert!(transition_ball(&mut direct, &paddle, 6554));
    assert!(distance_sq(direct.pos, point(450, 570)) < (HALF as i128) * (HALF as i128));
}

#[test]
fn the_glide_ends_within_half_a_unit_of_the_seat() {
    let paddle = Platform::new();
    let seat = point(450, 570);
    let mut ball = Ball::new();
    ball.pos = Vector2::new(units(450), units(570) - HALF);
    assert!(!transition_ball(&mut ball, &paddle, FRAME));
    assert_eq!(ball.pos, Vector2::new(units(450), units(570) - HALF));
    ball.pos = Vector2::new(units(450), units(570) - HALF - 1);
    assert!(transition_ball(&mut ball, &paddle, FRAME));
    assert!(distance_sq(ball.pos, seat) < (HALF as i128 + 1) * (HALF as i128 + 1));
    ball.pos = seat;
    assert!(!transition_ball(&mut ball, &paddle, FRAME));
    assert_eq!(ball.pos, seat);
    // a step of no time goes nowhere, but the ball is still on its way
    ball.pos = point(0, 0);
    assert!(transition_ball(&mut ball, &paddle, 0));
    assert_eq!(ball.pos, point(0, 0));
}

#[test]
fn every_glide_step_brings_the_ball_nearer() {
    let paddle = Platform::new();
    let seat = point(450, 570);
    for (start, dt) in [
        (Vector2::new(units(67) + HALF, units(30)), FRAME),
        (point(800, 590), FRAME),
        (point(450, 0), 1),
        (point(0, 570), 6553),
        (point(899, 1), 3000),
    ] {
        let mut ball = Ball::new();
        ball.status = Status::Spawning;
        ball.pos = start;
        let mut steps = 0;
        loop {
            let before = ball.pos;
            let moving = transition_ball(&mut ball, &paddle, dt);
            if !moving {
                assert_eq!(ball.pos, before);
                assert!(distance_sq(before, seat) <= (HALF as i128) * (HALF as i128));
                break;
            }
            assert!(distance_sq(before, seat) > (HALF as i128) * (HALF as i128));
            assert!(distance_sq(ball.pos, seat) < distance_sq(before, seat));
            assert!((before.x <= ball.pos.x && ball.pos.x <= seat.x) || (before.x >= ball.pos.x && ball.pos.x >= seat.x));
            assert!((before.y <= ball.pos.y && ball.pos.y <= seat.y) || (before.y >= ball.pos.y && ball.pos.y >= seat.y));
            steps += 1;
            assert!(steps < 2_000_000);
        }
        assert!(steps > 0);
    }
}

#[test]
fn a_glide_step_of_too_much_time_overshoots() {
    let paddle = Platform::new();
    let mut ball = Ball::new();
    ball.pos = point(350, 470);
    // three tenths of a second: three times the way, so twice as far on the other side
    assert!(transition_ball(&mut ball, &paddle, 19661));
    assert!(distance_sq(ball.pos, point(450, 570)) > distance_sq(point(350, 470), point(450, 570)));
}

#[test]
fn a_ball_turned_back_by_a_wall_meets_no_brick_of_the_layout() {
    let paddle = Platform::new();
    for (pos, velocity) in [
        (point(60, 18), point(0, -900)),
        (point(450, 16), point(300, -900)),
        (point(18, 110), point(-900, 0)),
        (point(18, 230), point(-900, 900)),
        (point(882, 110), point(900, -100)),
        (point(883, 235), point(900, 900)),
        (point(17, 17), point(-900, -900)),
    ] {
        let mut ball = flying(pos, velocity);
        let mut bricks = Brick::generate();
        assert_eq!(update_ball_position(&mut ball, FRAME), vec![GameEvent::BallHitWall]);
        assert!(resolve_ball_collisions(&mut ball, &paddle, &mut bricks).is_empty());
        assert!(bricks.iter().all(|b| b.active));
    }
    for brick in Brick::generate() {
        assert!(brick.pos.x > 2 * BALL_RADIUS);
        assert!(brick.pos.x + brick.width < units(900) - 2 * BALL_RADIUS);
        assert!(brick.pos.y > 2 * BALL_RADIUS);
    }
}
