//! The collision resolver: moves the ball for one frame and settles its
//! contacts with the arena's edges, the bricks and the paddle.
//!
//! Each stage is described by a spec function from the state before to the
//! state after and the events of the stage; the executable functions are
//! proved to compute exactly that.
use vstd::prelude::*;
use vstd::arithmetic::div_mod::{lemma_div_is_ordered, lemma_fundamental_div_mod_converse};
use crate::components::{Ball, Brick, Platform, Status};
use crate::constants::{BALL_RADIUS, VELOCITY, WINDOW_H, WINDOW_W};
use crate::fixed::{
    clamped, difference, halved, negated, product, quotient, sum, half, sat_div, sat_mul,
    sat_neg, sat_sub, HALF, ONE,
};
use crate::game::GameEvent;
use crate::math::{Rectangle, Vector2};

verus! {

/// How fast a respawning ball closes in on the paddle: the share of the
/// remaining way that it covers per second.
pub const GLIDE_RATE: i32 = 10 * ONE;

/// The ball's lower edge has reached the bottom of the arena on its way down.
pub open spec fn crosses_floor(b: Ball) -> bool {
    b.pos.y + b.radius >= WINDOW_H && b.velocity.y > 0
}

/// The ball's upper edge is above the top of the arena on its way up.
pub open spec fn crosses_ceiling(b: Ball) -> bool {
    b.pos.y < b.radius && b.velocity.y < 0
}

/// The ball's right edge has reached the right wall on its way right.
pub open spec fn crosses_right_wall(b: Ball) -> bool {
    b.pos.x + b.radius >= WINDOW_W && b.velocity.x > 0
}

/// The ball's left edge is beyond the left wall on its way left.
pub open spec fn crosses_left_wall(b: Ball) -> bool {
    b.pos.x < b.radius && b.velocity.x < 0
}

/// The ball laid on the bottom edge, dead.
pub open spec fn dropped(b: Ball) -> Ball {
    Ball { pos: Vector2 { x: b.pos.x, y: difference(WINDOW_H, b.radius) }, ..b }.died()
}

/// The ball after the top of the arena had its say.
pub open spec fn off_ceiling(b: Ball) -> Ball {
    if crosses_ceiling(b) {
        Ball {
            pos: Vector2 { x: b.pos.x, y: b.radius },
            velocity: Vector2 { x: b.velocity.x, y: negated(b.velocity.y) },
            ..b
        }
    } else {
        b
    }
}

/// The ball after the right wall had its say.
pub open spec fn off_right_wall(b: Ball) -> Ball {
    if crosses_right_wall(b) {
        Ball {
            pos: Vector2 { x: difference(WINDOW_W, b.radius), y: b.pos.y },
            velocity: Vector2 { x: negated(b.velocity.x), y: b.velocity.y },
            ..b
        }
    } else {
        b
    }
}

/// The ball after the left wall had its say.
pub open spec fn off_left_wall(b: Ball) -> Ball {
    if crosses_left_wall(b) {
        Ball {
            pos: Vector2 { x: b.radius, y: b.pos.y },
            velocity: Vector2 { x: negated(b.velocity.x), y: b.velocity.y },
            ..b
        }
    } else {
        b
    }
}

/// Whether the top or a side wall turns the ball back.
pub open spec fn bounces_off_wall(b: Ball) -> bool {
    ||| crosses_ceiling(b)
    ||| crosses_right_wall(off_ceiling(b))
    ||| crosses_left_wall(off_right_wall(off_ceiling(b)))
}

/// Contact with the four edges, for a ball that has already been moved. The
/// bottom edge takes the ball out of play and nothing else is looked at;
/// otherwise the top, the right and the left wall are applied in that order
/// and reported as one event.
pub open spec fn walls_resolved(b: Ball) -> (Ball, Seq<GameEvent>) {
    if crosses_floor(b) {
        (dropped(b), seq![GameEvent::BallDropped])
    } else {
        (
            off_left_wall(off_right_wall(off_ceiling(b))),
            if bounces_off_wall(b) {
                seq![GameEvent::BallHitWall]
            } else {
                Seq::empty()
            },
        )
    }
}

/// The first stage of a frame: a ball in flight moves by `velocity * dt` and
/// meets the edges. A ball in any other state is left alone.
pub open spec fn wall_stage(b: Ball, dt: i32) -> (Ball, Seq<GameEvent>) {
    if b.status is Running {
        walls_resolved(Ball { pos: b.pos.moved(b.velocity, dt), ..b })
    } else {
        (b, Seq::empty())
    }
}

/// The ball reaches an active brick.
pub open spec fn strikes(ball: Ball, brick: Brick) -> bool {
    brick.active && brick.outline().touches_circle(ball.pos, ball.radius)
}

/// The index of the first brick from `from` on that the ball strikes, or the
/// number of bricks if there is none.
pub open spec fn first_struck_from(bricks: Seq<Brick>, ball: Ball, from: int) -> int
    decreases bricks.len() - from,
{
    if from >= bricks.len() {
        bricks.len() as int
    } else if strikes(ball, bricks[from]) {
        from
    } else {
        first_struck_from(bricks, ball, from + 1)
    }
}

/// The index of the first brick that the ball strikes, in the order of the
/// collection, or the number of bricks if it strikes none.
pub open spec fn first_struck(bricks: Seq<Brick>, ball: Ball) -> int {
    first_struck_from(bricks, ball, 0)
}

/// The ball approaches the brick from beside it: its centre is strictly left
/// of the brick while it moves right, or strictly right of it while it moves
/// left.
pub open spec fn strikes_side(ball: Ball, brick: Brick) -> bool {
    ||| ball.velocity.x > 0 && ball.pos.x < brick.pos.x
    ||| ball.velocity.x < 0 && ball.pos.x > brick.pos.x + brick.width
}

/// The ball turned back by a brick: horizontally when it came from the side,
/// vertically in every other case.
pub open spec fn deflected(ball: Ball, brick: Brick) -> Ball {
    if strikes_side(ball, brick) {
        Ball { velocity: Vector2 { x: negated(ball.velocity.x), y: ball.velocity.y }, ..ball }
    } else {
        Ball { velocity: Vector2 { x: ball.velocity.x, y: negated(ball.velocity.y) }, ..ball }
    }
}

/// The second stage: the first brick that the ball strikes is destroyed and
/// turns the ball back. Bricks further on are not looked at.
pub open spec fn brick_stage(bricks: Seq<Brick>, ball: Ball) -> (Seq<Brick>, Ball, Seq<GameEvent>) {
    let i = first_struck(bricks, ball);
    if i < bricks.len() {
        (
            bricks.update(i, bricks[i].destroyed()),
            deflected(ball, bricks[i]),
            seq![GameEvent::BrickCollision(ball.pos)],
        )
    } else {
        (bricks, ball, Seq::empty())
    }
}

/// The ball reaches the paddle on its way down.
pub open spec fn lands_on(ball: Ball, platform: Platform) -> bool {
    platform.frame().touches_circle(ball.pos, ball.radius) && ball.velocity.y > 0
}

/// The horizontal speed that the paddle gives the ball: the offset of the
/// ball from the paddle's centre, as a share of half the paddle's width,
/// times the launch speed.
pub open spec fn steered(ball: Ball, platform: Platform) -> i32 {
    product(
        quotient(difference(ball.pos.x, platform.frame().mid_x()), halved(platform.width)),
        VELOCITY,
    )
}

/// The third stage: a ball that lands on the paddle is set on top of it and
/// sent back up, steered by where it landed.
pub open spec fn paddle_stage(ball: Ball, platform: Platform) -> (Ball, Seq<GameEvent>) {
    if lands_on(ball, platform) {
        (
            Ball {
                pos: Vector2 { x: ball.pos.x, y: difference(platform.pos.y, ball.radius) },
                velocity: Vector2 { x: steered(ball, platform), y: negated(ball.velocity.y) },
                ..ball
            },
            seq![GameEvent::BallHitPlatform(Vector2 { x: ball.pos.x, y: platform.pos.y })],
        )
    } else {
        (ball, Seq::empty())
    }
}

/// The second and third stage together, for a ball in flight: bricks first,
/// then the paddle, the events in that order. A ball in any other state
/// touches nothing.
pub open spec fn collision_stage(ball: Ball, platform: Platform, bricks: Seq<Brick>) -> (
    Ball,
    Seq<Brick>,
    Seq<GameEvent>,
) {
    if ball.status is Running {
        let (bricks1, ball1, hit) = brick_stage(bricks, ball);
        let (ball2, bounce) = paddle_stage(ball1, platform);
        (ball2, bricks1, hit + bounce)
    } else {
        (ball, bricks, Seq::empty())
    }
}

/// Where a ball rests on the paddle: above the middle of its top edge.
pub open spec fn seat(ball: Ball, platform: Platform) -> Vector2 {
    Vector2 { x: platform.frame().mid_x(), y: difference(platform.pos.y, ball.radius) }
}

/// The ball placed on its seat.
pub open spec fn seated(ball: Ball, platform: Platform) -> Ball {
    Ball { pos: seat(ball, platform), ..ball }
}

/// The ball is more than half a unit away from its seat.
pub open spec fn still_gliding(ball: Ball, platform: Platform) -> bool {
    ball.pos.distance_sq(seat(ball, platform)) > HALF * HALF
}

/// One step of the respawn glide: while the ball is more than half a unit
/// from its seat it covers the share `dt * 10` of the remaining way.
pub open spec fn glided(ball: Ball, platform: Platform, dt: i32) -> Ball {
    if still_gliding(ball, platform) {
        Ball { pos: ball.pos.mixed(seat(ball, platform), product(dt, GLIDE_RATE)), ..ball }
    } else {
        ball
    }
}

/// Settles the ball's contacts with the bricks and the paddle.
pub fn resolve_ball_collisions(
    ball: &mut Ball,
    platform: &Platform,
    bricks: &mut [Brick],
) -> (events: Vec<GameEvent>)
    ensures
        *final(ball) == collision_stage(*old(ball), *platform, old(bricks)@).0,
        final(bricks)@ == collision_stage(*old(ball), *platform, old(bricks)@).1,
        events@ == collision_stage(*old(ball), *platform, old(bricks)@).2,
{
    let mut events: Vec<GameEvent> = Vec::new();
    match ball.status {
        Status::Running => {
            if let Some(event) = handle_brick_collisions(bricks, ball) {
                events.push(event);
            }
            if let Some(event) = handle_platform_collisions(ball, platform) {
                events.push(event);
            }
        },
        _ => {},
    }
    events
}

/// Moves the ball for one frame and settles its contact with the edges.
pub fn update_ball_position(ball: &mut Ball, dt: i32) -> (events: Vec<GameEvent>)
    ensures
        *final(ball) == wall_stage(*old(ball), dt).0,
        events@ == wall_stage(*old(ball), dt).1,
{
    let mut events: Vec<GameEvent> = Vec::new();
    match ball.status {
        Status::Running => {
            ball.pos = ball.pos.advance(ball.velocity, dt);
            if let Some(event) = handle_wall_collisions(ball) {
                events.push(event);
            }
        },
        _ => {},
    }
    events
}

pub fn snap_ball_to_platform(ball: &mut Ball, platform: &Platform)
    ensures
        *final(ball) == seated(*old(ball), *platform),
{
    ball.pos.x = center_x(platform.bounds());
    ball.pos.y = sat_sub(platform.pos.y, ball.radius);
}

fn handle_platform_collisions(ball: &mut Ball, platform: &Platform) -> (event: Option<GameEvent>)
    ensures
        *final(ball) == paddle_stage(*old(ball), *platform).0,
        match event {
            Some(e) => paddle_stage(*old(ball), *platform).1 == seq![e],
            None => paddle_stage(*old(ball), *platform).1 == Seq::<GameEvent>::empty(),
        },
{
    let p_bound = platform.bounds();
    let touching = p_bound.check_collision_circle_rec(ball.pos, ball.radius);
    if touching && ball.velocity.y > 0 {
        ball.velocity.y = sat_neg(ball.velocity.y);
        ball.pos.y = sat_sub(platform.pos.y, ball.radius);

        // The bounce angle follows from where the ball landed.
        let diff: i32 = sat_sub(ball.pos.x, center_x(p_bound));
        ball.velocity.x = sat_mul(sat_div(diff, half(p_bound.width)), VELOCITY);
        let hit_point = Vector2::new(ball.pos.x, platform.pos.y);

        return Some(GameEvent::BallHitPlatform(hit_point));
    }
    None
}

fn handle_brick_collisions(bricks: &mut [Brick], ball: &mut Ball) -> (event: Option<GameEvent>)
    ensures
        final(bricks)@ == brick_stage(old(bricks)@, *old(ball)).0,
        *final(ball) == brick_stage(old(bricks)@, *old(ball)).1,
        match event {
            Some(e) => brick_stage(old(bricks)@, *old(ball)).2 == seq![e],
            None => brick_stage(old(bricks)@, *old(ball)).2 == Seq::<GameEvent>::empty(),
        },
{
    let mut i: usize = 0;
    while i < bricks.len()
        invariant
            i <= bricks@.len(),
            bricks@ == old(bricks)@,
            *ball == *old(ball),
            first_struck(bricks@, *ball) == first_struck_from(bricks@, *ball, i as int),
        decreases bricks@.len() - i,
    {
        if bricks[i].active {
            let bound = bricks[i].bound();
            if bound.check_collision_circle_rec(ball.pos, ball.radius) {
                let hitting_from_left = ball.velocity.x > 0 && ball.pos.x < bound.x;
                let hitting_from_right = ball.velocity.x < 0
                    && ball.pos.x as i64 > bound.x as i64 + bound.width as i64;

                if hitting_from_left || hitting_from_right {
                    ball.velocity.x = sat_neg(ball.velocity.x);
                } else {
                    // From above, from below, or from no clear side: the
                    // ball always turns back.
                    ball.velocity.y = sat_neg(ball.velocity.y);
                }

                bricks[i].die();
                return Some(GameEvent::BrickCollision(ball.pos));
            }
        }
        i = i + 1;
    }
    None
}

fn handle_wall_collisions(ball: &mut Ball) -> (event: Option<GameEvent>)
    requires
        old(ball).status is Running,
    ensures
        *final(ball) == walls_resolved(*old(ball)).0,
        match event {
            Some(e) => walls_resolved(*old(ball)).1 == seq![e],
            None => walls_resolved(*old(ball)).1 == Seq::<GameEvent>::empty(),
        },
{
    let touched_down = ball.pos.y as i64 + ball.radius as i64 >= WINDOW_H as i64
        && ball.velocity.y > 0;
    if touched_down {
        ball.pos.y = sat_sub(WINDOW_H, ball.radius);
        ball.die();
        return Some(GameEvent::BallDropped);
    }
    let touched_up = ball.pos.y < ball.radius && ball.velocity.y < 0;
    if touched_up {
        ball.pos.y = ball.radius;
        ball.velocity.y = sat_neg(ball.velocity.y);
    }
    let touched_right = ball.pos.x as i64 + ball.radius as i64 >= WINDOW_W as i64
        && ball.velocity.x > 0;
    if touched_right {
        ball.pos.x = sat_sub(WINDOW_W, ball.radius);
        ball.velocity.x = sat_neg(ball.velocity.x);
    }
    let touched_left = ball.pos.x < ball.radius && ball.velocity.x < 0;
    if touched_left {
        ball.pos.x = ball.radius;
        ball.velocity.x = sat_neg(ball.velocity.x);
    }

    if touched_up || touched_left || touched_right {
        return Some(GameEvent::BallHitWall);
    }
    None
}

pub fn center_x(rect: Rectangle) -> (c: i32)
    ensures
        c == rect.mid_x(),
{
    rect.center_x()
}

/// One step of the respawn glide towards the paddle. Returns `false` once
/// the ball has arrived, that is, when it is within half a unit of its seat;
/// it is then left where it is.
pub fn transition_ball(ball: &mut Ball, platform: &Platform, dt: i32) -> (moving: bool)
    ensures
        moving == still_gliding(*old(ball), *platform),
        *final(ball) == glided(*old(ball), *platform, dt),
{
    let destination = Vector2 {
        x: center_x(platform.bounds()),
        y: sat_sub(platform.pos.y, ball.radius),
    };
    if !ball.pos.within(destination, HALF) {
        ball.pos = ball.pos.lerp(destination, sat_mul(dt, GLIDE_RATE));
        return true;
    }
    false
}

/// A ball that fits between the side walls and crosses the top or a side
/// wall, but not the bottom, ends up with its edge exactly on that wall and
/// moving away from it, and the contact is reported as one event.
pub proof fn lemma_wall_turns_ball_back(b: Ball)
    requires
        0 <= 2 * b.radius <= WINDOW_W,
        !crosses_floor(b),
    ensures
        ({
            let (after, events) = walls_resolved(b);
            &&& crosses_ceiling(b) ==> after.pos.y - after.radius == 0 && after.velocity.y > 0
            &&& crosses_right_wall(b) ==> after.pos.x + after.radius == WINDOW_W
                && after.velocity.x < 0
            &&& crosses_left_wall(b) ==> after.pos.x - after.radius == 0 && after.velocity.x > 0
            &&& crosses_ceiling(b) || crosses_right_wall(b) || crosses_left_wall(b) ==> events
                == seq![GameEvent::BallHitWall]
            &&& after.status == b.status
            &&& after.radius == b.radius
        }),
{
}

/// A ball in flight whose move takes it across the bottom edge is dead and
/// at rest afterwards, and exactly one `BallDropped` is reported. Running
/// the stages again on the dead ball reports nothing and changes nothing.
pub proof fn lemma_drop_is_reported_once(
    b: Ball,
    dt: i32,
    later: i32,
    platform: Platform,
    bricks: Seq<Brick>,
)
    requires
        b.status is Running,
        crosses_floor(Ball { pos: b.pos.moved(b.velocity, dt), ..b }),
    ensures
        ({
            let (after, events) = wall_stage(b, dt);
            &&& after.status is Dead
            &&& after.velocity == Vector2::origin()
            &&& events == seq![GameEvent::BallDropped]
            &&& wall_stage(after, later) == (after, Seq::<GameEvent>::empty())
            &&& collision_stage(after, platform, bricks) == (after, bricks, Seq::<GameEvent>::empty())
        }),
{
}

/// A frame reports little. The wall stage reports at most one event, the
/// loss of the ball or a bounce off a wall, also when the top and a side
/// wall both turn the ball back. The collision stage reports at most one
/// brick and one contact with the paddle, the brick first.
pub proof fn lemma_stages_report_in_order(
    b: Ball,
    dt: i32,
    platform: Platform,
    bricks: Seq<Brick>,
)
    ensures
        ({
            let edge = wall_stage(b, dt).1;
            let contact = collision_stage(b, platform, bricks).2;
            &&& edge.len() <= 1
            &&& edge.len() == 1 ==> edge[0] is BallDropped || edge[0] is BallHitWall
            &&& contact.len() <= 2
            &&& contact.len() >= 1 ==> contact[0] is BrickCollision || (contact.len() == 1
                && contact[0] is BallHitPlatform)
            &&& contact.len() == 2 ==> contact[1] is BallHitPlatform
        }),
{
}

/// The stages never report that a ball was dropped unless it was in flight,
/// and they leave a ball that is not in flight untouched.
pub proof fn lemma_only_a_running_ball_moves(
    b: Ball,
    dt: i32,
    platform: Platform,
    bricks: Seq<Brick>,
)
    requires
        !(b.status is Running),
    ensures
        wall_stage(b, dt) == (b, Seq::<GameEvent>::empty()),
        collision_stage(b, platform, bricks) == (b, bricks, Seq::<GameEvent>::empty()),
{
}

/// The stages keep a ball at rest unless it is in flight, and never change
/// its radius.
pub proof fn lemma_stages_keep_idle_ball_at_rest(
    b: Ball,
    dt: i32,
    platform: Platform,
    bricks: Seq<Brick>,
)
    requires
        b.rests_unless_running(),
    ensures
        wall_stage(b, dt).0.rests_unless_running(),
        wall_stage(b, dt).0.radius == b.radius,
        collision_stage(b, platform, bricks).0.rests_unless_running(),
        collision_stage(b, platform, bricks).0.radius == b.radius,
        collision_stage(b, platform, bricks).0.status == b.status,
{
}

/// `first_struck_from` is the least index from `from` on of a brick that
/// the ball strikes.
pub proof fn lemma_first_struck_from_is_least(bricks: Seq<Brick>, ball: Ball, from: int)
    requires
        0 <= from <= bricks.len(),
    ensures
        from <= first_struck_from(bricks, ball, from) <= bricks.len(),
        first_struck_from(bricks, ball, from) < bricks.len() ==> strikes(
            ball,
            bricks[first_struck_from(bricks, ball, from)],
        ),
        forall|j: int|
            from <= j < first_struck_from(bricks, ball, from) ==> !strikes(ball, #[trigger] bricks[j]),
    decreases bricks.len() - from,
{
    if from < bricks.len() && !strikes(ball, bricks[from]) {
        lemma_first_struck_from_is_least(bricks, ball, from + 1);
    }
}

/// One call of the brick stage destroys exactly one brick, the first in
/// the order of the collection that the ball strikes, however many it
/// overlaps, and a ball that moves up or down leaves in a new direction;
/// if it strikes none, nothing changes. Every other brick is as it was: in
/// particular, no destroyed brick comes back.
pub proof fn lemma_one_brick_per_call(bricks: Seq<Brick>, ball: Ball)
    ensures
        ({
            let (after, turned, events) = brick_stage(bricks, ball);
            let hit = first_struck(bricks, ball);
            &&& 0 <= hit <= bricks.len()
            &&& after.len() == bricks.len()
            &&& forall|j: int| 0 <= j < hit ==> !strikes(ball, #[trigger] bricks[j])
            &&& forall|j: int| 0 <= j < bricks.len() && j != hit ==> #[trigger] after[j] == bricks[j]
            &&& forall|j: int|
                0 <= j < bricks.len() && !bricks[j].active ==> !(#[trigger] after[j]).active
            &&& hit < bricks.len() ==> {
                &&& strikes(ball, bricks[hit])
                &&& after[hit] == bricks[hit].destroyed()
                &&& events == seq![GameEvent::BrickCollision(ball.pos)]
                &&& ball.velocity.y != 0 ==> turned.velocity != ball.velocity
            }
            &&& hit == bricks.len() ==> after == bricks && turned == ball && events
                == Seq::<GameEvent>::empty()
            &&& turned.pos == ball.pos
            &&& turned.status == ball.status
        }),
{
    lemma_first_struck_from_is_least(bricks, ball, 0);
}

/// Walls and bricks do not meet. A ball of the standard radius that the top
/// or a side wall has just turned back strikes no brick that is clear of the
/// walls, so the two stages never report a bounce off a wall and a brick in
/// the same frame.
pub proof fn lemma_wall_and_brick_do_not_meet(b: Ball, bricks: Seq<Brick>)
    requires
        b.radius == BALL_RADIUS,
        !crosses_floor(b),
        bounces_off_wall(b),
        forall|i: int| 0 <= i < bricks.len() ==> (#[trigger] bricks[i]).clear_of_walls(),
    ensures
        first_struck(bricks, walls_resolved(b).0) == bricks.len(),
        brick_stage(bricks, walls_resolved(b).0).2 == Seq::<GameEvent>::empty(),
{
    let after = walls_resolved(b).0;
    let r = BALL_RADIUS as int;
    lemma_first_struck_from_is_least(bricks, after, 0);
    let hit = first_struck(bricks, after);
    if hit < bricks.len() {
        let brick = bricks[hit];
        assert(brick.clear_of_walls());
        let nx = clamped(after.pos.x as int, brick.pos.x as int, brick.pos.x + brick.width);
        let ny = clamped(after.pos.y as int, brick.pos.y as int, brick.pos.y + brick.height);
        let dx = after.pos.x - nx;
        let dy = after.pos.y - ny;
        let ax = if dx >= 0 { dx } else { -dx };
        let ay = if dy >= 0 { dy } else { -dy };
        // Flush with a wall, the ball's centre is more than a radius away
        // from the brick in the direction of that wall.
        assert(ax > r || ay > r);
        if ax > r {
            lemma_square_grows(r, ax);
        } else {
            lemma_square_grows(r, ay);
        }
        assert(ax * ax == dx * dx && ay * ay == dy * dy && dx * dx >= 0 && dy * dy >= 0)
            by (nonlinear_arith)
            requires
                ax == dx || ax == -dx,
                ay == dy || ay == -dy,
        ;
        assert(false);
    }
}

/// Where the ball lands decides where it goes. On a paddle between the side
/// walls and at least two raw units wide, a ball that lands on the exact
/// centre leaves straight up; one that lands on the left edge leaves with
/// the full launch speed to the left; one that lands half a width right of
/// the centre, which is the right edge when the width is even, with the
/// full launch speed to the right; and between those two the horizontal
/// speed never exceeds the launch speed. The ball always leaves upwards.
pub proof fn lemma_paddle_steers(ball: Ball, platform: Platform)
    requires
        lands_on(ball, platform),
        platform.within_arena(),
        platform.width >= 2,
    ensures
        ({
            let (after, events) = paddle_stage(ball, platform);
            let centre = platform.pos.x + platform.width / 2;
            let reach = platform.width / 2;
            &&& platform.frame().mid_x() == centre
            &&& after.velocity.y < 0
            &&& ball.pos.x == centre ==> after.velocity.x == 0
            &&& ball.pos.x == platform.pos.x ==> after.velocity.x == -VELOCITY
            &&& ball.pos.x == centre + reach ==> after.velocity.x == VELOCITY
            &&& centre - reach <= ball.pos.x <= centre + reach ==> -VELOCITY <= after.velocity.x
                <= VELOCITY
            &&& events == seq![GameEvent::BallHitPlatform(Vector2 { x: ball.pos.x, y: platform.pos.y })]
        }),
{
    let centre = platform.pos.x + platform.width / 2;
    let reach = platform.width / 2;
    let offset = ball.pos.x - centre;
    assert(platform.frame().mid_x() == centre);
    assert(halved(platform.width) == reach);
    if -reach <= offset <= reach {
        assert(difference(ball.pos.x, platform.frame().mid_x()) == offset);
        let share = (offset * ONE) / reach;
        lemma_share_of_reach(offset, reach);
        assert(quotient(offset as i32, reach as i32) == share);
        assert(steered(ball, platform) == product(share as i32, VELOCITY));
    }
}

/// The fixed-point quotient of an offset by the reach it lies within is
/// between minus one and one, and exact at the ends and in the middle.
proof fn lemma_share_of_reach(offset: int, reach: int)
    requires
        reach > 0,
        -reach <= offset <= reach,
    ensures
        -(ONE as int) <= (offset * ONE) / reach <= ONE,
        offset == 0 ==> (offset * ONE) / reach == 0,
        offset == reach ==> (offset * ONE) / reach == ONE,
        offset == -reach ==> (offset * ONE) / reach == -(ONE as int),
{
    let one = ONE as int;
    lemma_fundamental_div_mod_converse(reach * one, reach, one, 0);
    lemma_fundamental_div_mod_converse((-reach) * one, reach, -one, 0);
    lemma_div_is_ordered(-reach * one, offset * one, reach);
    lemma_div_is_ordered(offset * one, reach * one, reach);
}

/// A share `amount` of a `gap`, for an amount between nothing and all of it,
/// rounded down: it never leads past the far end of the gap, it leads
/// somewhere whenever the gap opens downwards, and it leads somewhere
/// whenever the exact share is at least one raw unit.
proof fn lemma_share_of_gap(gap: int, amount: int)
    requires
        0 < amount <= ONE,
    ensures
        gap >= 0 ==> 0 <= (gap * amount) / (ONE as int) <= gap,
        gap < 0 ==> gap <= (gap * amount) / (ONE as int) <= -1,
        gap * amount >= ONE ==> (gap * amount) / (ONE as int) >= 1,
{
    let one = ONE as int;
    if gap >= 0 {
        assert(0 <= gap * amount <= gap * one) by (nonlinear_arith)
            requires
                gap >= 0,
                0 < amount <= one,
        ;
    } else {
        assert(gap * one <= gap * amount <= gap) by (nonlinear_arith)
            requires
                gap < 0,
                0 < amount <= one,
        ;
    }
}

/// One coordinate of a glide step, for an amount between nothing and all of
/// the way: the new coordinate lies between the old one and the goal, and
/// is nearer to the goal whenever the goal lies below, or lies above by so
/// much that the exact step is at least one raw unit.
proof fn lemma_glide_along_axis(from: i32, to: i32, amount: i32)
    requires
        0 < amount <= ONE,
    ensures
        ({
            let next = sum(from, product(difference(to, from), amount));
            &&& to >= from ==> from <= next <= to
            &&& to < from ==> to <= next < from
            &&& (to - from) * amount >= ONE ==> from < next
        }),
{
    let gap = difference(to, from) as int;
    lemma_share_of_gap(gap, amount as int);
    if (to - from) * amount >= ONE {
        assert(to - from > 0) by (nonlinear_arith)
            requires
                (to - from) * amount >= 65536,
                amount > 0,
        ;
        assert(gap * amount >= ONE) by (nonlinear_arith)
            requires
                (to - from) * amount >= ONE,
                0 < amount <= ONE,
                gap == to - from || (gap == i32::MAX && to - from > gap),
                ONE == 65536,
        ;
    }
}

/// The square of a number grows with its magnitude.
proof fn lemma_square_grows(small: int, large: int)
    by (nonlinear_arith)
    requires
        0 <= small <= large,
    ensures
        small * small <= large * large,
        small < large ==> small * small < large * large,
{
}

/// The respawn glide converges: for a time step that is positive and at most
/// a tenth of a second, each step of a ball that has not yet arrived leaves
/// it strictly nearer to its seat than it was, and never past it in either
/// coordinate.
pub proof fn lemma_glide_converges(ball: Ball, platform: Platform, dt: i32)
    requires
        0 < dt,
        10 * dt <= ONE,
        still_gliding(ball, platform),
    ensures
        ({
            let goal = seat(ball, platform);
            let after = glided(ball, platform, dt);
            &&& seat(after, platform) == goal
            &&& after.pos.distance_sq(goal) < ball.pos.distance_sq(goal)
            &&& ball.pos.x <= goal.x ==> ball.pos.x <= after.pos.x <= goal.x
            &&& ball.pos.x >= goal.x ==> ball.pos.x >= after.pos.x >= goal.x
            &&& ball.pos.y <= goal.y ==> ball.pos.y <= after.pos.y <= goal.y
            &&& ball.pos.y >= goal.y ==> ball.pos.y >= after.pos.y >= goal.y
        }),
{
    let goal = seat(ball, platform);
    let after = glided(ball, platform, dt);
    let amount = product(dt, GLIDE_RATE);
    assert(amount == 10 * dt) by {
        assert(GLIDE_RATE == 655360);
        assert(dt * GLIDE_RATE == (10 * dt) * 65536) by (nonlinear_arith)
            requires
                GLIDE_RATE == 655360,
        ;
    }
    lemma_glide_along_axis(ball.pos.x, goal.x, amount);
    lemma_glide_along_axis(ball.pos.y, goal.y, amount);
    let dx = ball.pos.x - goal.x;
    let dy = ball.pos.y - goal.y;
    let ex = after.pos.x - goal.x;
    let ey = after.pos.y - goal.y;
    let ax = if dx >= 0 { dx } else { -dx };
    let ay = if dy >= 0 { dy } else { -dy };
    let bx = if ex >= 0 { ex } else { -ex };
    let by = if ey >= 0 { ey } else { -ey };
    lemma_square_grows(bx, ax);
    lemma_square_grows(by, ay);
    assert(ax * ax == dx * dx && ay * ay == dy * dy && bx * bx == ex * ex && by * by == ey * ey)
        by (nonlinear_arith)
        requires
            ax == dx || ax == -dx,
            ay == dy || ay == -dy,
            bx == ex || bx == -ex,
            by == ey || by == -ey,
    ;
    if bx == ax && by == ay {
        // Neither coordinate moved: both gaps open upwards and are too
        // small for a step, so the ball would already have arrived.
        assert(ax * amount < ONE && ay * amount < ONE);
        assert(ax <= 6553 && ay <= 6553) by (nonlinear_arith)
            requires
                ax * amount < 65536,
                ay * amount < 65536,
                amount >= 10,
                ax >= 0,
                ay >= 0,
        ;
        lemma_square_grows(ax, 6553);
        lemma_square_grows(ay, 6553);
        assert(false);
    }
}

} // verus!
