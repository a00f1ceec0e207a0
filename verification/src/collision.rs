use crate::entity::{spec_point_inside, Entity};
use crate::vector::Vector;
use vstd::prelude::*;

verus! {

/// How far (in cells) the rebound aim can push the ball sideways.
pub const REBOUND_CLAMP: i32 = 3;

/// Clamping into a closed interval.
pub open spec fn spec_clamp(v: int, lo: int, hi: int) -> int {
    if v < lo {
        lo
    } else if v > hi {
        hi
    } else {
        v
    }
}

/// The magnitude of an offset.
pub open spec fn spec_abs(v: int) -> int {
    if v < 0 {
        -v
    } else {
        v
    }
}

/// Two axis-aligned boxes overlap: each starts before the other ends,
/// on both axes (half-open on the size).
pub open spec fn spec_aabb_overlap(a: Entity, b: Entity) -> bool {
    &&& a.position.x < b.position.x + b.size.x
    &&& b.position.x < a.position.x + a.size.x
    &&& a.position.y < b.position.y + b.size.y
    &&& b.position.y < a.position.y + a.size.y
}

/// The signed aim offset of a rebound: how far the ball sits from the
/// paddle's center, clamped to the rebound range. Steep near the
/// paddle's edges, near-vertical at its center.
pub open spec fn spec_rebound_offset(ball: Entity, paddle: Entity) -> int {
    spec_clamp(
        ball.position.x - (paddle.position.x + paddle.size.x / 2),
        -REBOUND_CLAMP as int,
        REBOUND_CLAMP as int,
    )
}

/// The ball after a paddle rebound: seated one row above the paddle,
/// vertical velocity inverted, horizontal velocity set from the aim
/// offset. A ball outside the paddle's box is left untouched.
pub open spec fn spec_paddle_response(ball: Entity, paddle: Entity) -> Entity {
    if spec_point_inside(paddle, ball.position) {
        Entity {
            position: Vector { x: ball.position.x, y: (paddle.position.y - 1) as i32 },
            velocity: Vector {
                x: spec_rebound_offset(ball, paddle) as i32,
                y: (-ball.velocity.y) as i32,
            },
            ..ball
        }
    } else {
        ball
    }
}

/// The ball after striking a brick. The side of impact is judged from
/// the ball's pre-move position: a previous x outside the brick's
/// x-span is a side hit (horizontal velocity inverted, ball pushed to
/// that edge); a previous y outside the brick's y-span reseats the
/// ball above or below. The vertical velocity always inverts.
pub open spec fn spec_brick_bounced_ball(ball: Entity, brick: Entity) -> Entity {
    let prev_x = ball.position.x - ball.velocity.x;
    let prev_y = ball.position.y - ball.velocity.y;
    let bx = if prev_x < brick.position.x {
        Entity {
            position: Vector { x: (brick.position.x - 1) as i32, y: ball.position.y },
            velocity: Vector { x: (-ball.velocity.x) as i32, y: ball.velocity.y },
            ..ball
        }
    } else if prev_x > brick.position.x + brick.size.x - 1 {
        Entity {
            position: Vector { x: (brick.position.x + brick.size.x) as i32, y: ball.position.y },
            velocity: Vector { x: (-ball.velocity.x) as i32, y: ball.velocity.y },
            ..ball
        }
    } else {
        ball
    };
    let by = if prev_y < brick.position.y {
        Entity {
            position: Vector { x: bx.position.x, y: (brick.position.y - 1) as i32 },
            ..bx
        }
    } else if prev_y > brick.position.y + brick.size.y - 1 {
        Entity {
            position: Vector { x: bx.position.x, y: (brick.position.y + brick.size.y) as i32 },
            ..bx
        }
    } else {
        bx
    };
    Entity { velocity: Vector { x: by.velocity.x, y: (-by.velocity.y) as i32 }, ..by }
}

/// Relies on rand::random_range over `low..high`: a draw from the
/// half-open range using the thread-local generator; it panics only
/// on an empty range, which the precondition rules out.
#[verifier::external_body]
fn random_in_range(low: i32, high: i32) -> (r: i32)
    requires
        low < high,
    ensures
        low <= r < high,
{
    rand::random_range(low..high)
}

/// Both boxes intersect, by the standard four-inequality test.
pub fn aabb_overlap(a: &Entity, b: &Entity) -> (overlap: bool)
    requires
        i32::MIN <= a.position.x + a.size.x <= i32::MAX,
        i32::MIN <= a.position.y + a.size.y <= i32::MAX,
        i32::MIN <= b.position.x + b.size.x <= i32::MAX,
        i32::MIN <= b.position.y + b.size.y <= i32::MAX,
    ensures
        overlap == spec_aabb_overlap(*a, *b),
{
    a.position.x < b.position.x + b.size.x && b.position.x < a.position.x + a.size.x && a.position.y
        < b.position.y + b.size.y && b.position.y < a.position.y + a.size.y
}

fn clamp_i32(v: i32, lo: i32, hi: i32) -> (r: i32)
    requires
        lo <= hi,
    ensures
        r == spec_clamp(v as int, lo as int, hi as int),
{
    if v < lo {
        lo
    } else if v > hi {
        hi
    } else {
        v
    }
}

/// Rebound the ball off the paddle when the ball's position lies in the
/// paddle's box; a ball outside it is left exactly as it was. In
/// autoplay the aim is drawn at random from the cell at or just left of
/// the deterministic aim, so automated play is not pixel-perfect.
pub fn resolve_paddle_collision(ball: &mut Entity, paddle: &Entity, automation: bool)
    requires
        i32::MIN <= paddle.position.x + paddle.size.x <= i32::MAX,
        i32::MIN <= paddle.position.y + paddle.size.y <= i32::MAX,
        paddle.size.x >= 0,
        paddle.position.y > i32::MIN,
        old(ball).velocity.y > i32::MIN,
        i32::MIN <= old(ball).position.x - (paddle.position.x + paddle.size.x / 2) <= i32::MAX,
    ensures
        !spec_point_inside(*paddle, old(ball).position) ==> *final(ball) == *old(ball),
        spec_point_inside(*paddle, old(ball).position) && !automation ==> *final(ball)
            == spec_paddle_response(*old(ball), *paddle),
        spec_point_inside(*paddle, old(ball).position) && automation ==> ({
            let aimed = spec_paddle_response(*old(ball), *paddle);
            &&& *final(ball) == (Entity {
                velocity: Vector { x: final(ball).velocity.x, y: aimed.velocity.y },
                ..aimed
            })
            &&& aimed.velocity.x - 1 <= final(ball).velocity.x <= aimed.velocity.x
        }),
{
    if paddle.is_point_inside(&ball.position) {
        ball.position.y = paddle.position.y - 1;
        ball.velocity.y = -ball.velocity.y;
        let center = paddle.position.x + paddle.size.x / 2;
        let mut shifted_ball = clamp_i32(ball.position.x - center, -REBOUND_CLAMP, REBOUND_CLAMP);
        if automation {
            shifted_ball = random_in_range(shifted_ball - 1, shifted_ball + 1);
        }
        ball.velocity.x = shifted_ball;
    }
}

/// Strike a brick with the ball when the ball's position lies in the
/// brick's box: the brick loses one health point and the ball bounces
/// by the side-of-impact rule. With no overlap both entities are left
/// exactly as they were.
pub fn resolve_brick_collision(ball: &mut Entity, brick: &mut Entity) -> (hit: bool)
    requires
        i32::MIN <= old(brick).position.x + old(brick).size.x <= i32::MAX,
        i32::MIN <= old(brick).position.y + old(brick).size.y <= i32::MAX,
        old(brick).position.x > i32::MIN,
        old(brick).position.y > i32::MIN,
        i32::MIN <= old(ball).position.x - old(ball).velocity.x <= i32::MAX,
        i32::MIN <= old(ball).position.y - old(ball).velocity.y <= i32::MAX,
        old(ball).velocity.x > i32::MIN,
        old(ball).velocity.y > i32::MIN,
    ensures
        hit == spec_point_inside(*old(brick), old(ball).position),
        !hit ==> *final(ball) == *old(ball) && *final(brick) == *old(brick),
        hit ==> *final(ball) == spec_brick_bounced_ball(*old(ball), *old(brick)),
        hit ==> *final(brick) == (Entity {
            health: if old(brick).health == 0 {
                0u32
            } else {
                (old(brick).health - 1) as u32
            },
            ..*old(brick)
        }),
        final(brick).health <= old(brick).health,
        hit && old(brick).health > 0 ==> final(brick).health == old(brick).health - 1,
{
    if brick.is_point_inside(&ball.position) {
        let previous_ball_position = ball.previous_location();

        brick.lose_health();

        if previous_ball_position.x < brick.position.x {
            ball.velocity.x = -ball.velocity.x;
            ball.position.x = brick.position.x - 1;
        } else if previous_ball_position.x > brick.position.x + brick.size.x - 1 {
            ball.velocity.x = -ball.velocity.x;
            ball.position.x = brick.position.x + brick.size.x;
        }

        if previous_ball_position.y < brick.position.y {
            ball.position.y = brick.position.y - 1;
        } else if previous_ball_position.y > brick.position.y + brick.size.y - 1 {
            ball.position.y = brick.position.y + brick.size.y;
        }

        ball.velocity.y = -ball.velocity.y;
        true
    } else {
        false
    }
}

/// Law: the rebound angle is monotone in the aim offset. A ball that
/// sits farther from the paddle's center (in magnitude) leaves with at
/// least as large a horizontal speed, and the rebound never flips to
/// the opposite side of the paddle's center.
pub proof fn lemma_rebound_monotonic(ball1: Entity, ball2: Entity, paddle: Entity)
    requires
        spec_abs(ball1.position.x - (paddle.position.x + paddle.size.x / 2)) <= spec_abs(
            ball2.position.x - (paddle.position.x + paddle.size.x / 2),
        ),
    ensures
        spec_abs(spec_rebound_offset(ball1, paddle)) <= spec_abs(spec_rebound_offset(ball2, paddle)),
        spec_abs(ball1.position.x - (paddle.position.x + paddle.size.x / 2)) < spec_abs(
            ball2.position.x - (paddle.position.x + paddle.size.x / 2),
        ) && spec_abs(ball2.position.x - (paddle.position.x + paddle.size.x / 2)) <= REBOUND_CLAMP
            ==> spec_abs(spec_rebound_offset(ball1, paddle)) < spec_abs(
            spec_rebound_offset(ball2, paddle),
        ),
        ball1.position.x >= paddle.position.x + paddle.size.x / 2 ==> spec_rebound_offset(
            ball1,
            paddle,
        ) >= 0,
        ball1.position.x <= paddle.position.x + paddle.size.x / 2 ==> spec_rebound_offset(
            ball1,
            paddle,
        ) <= 0,
{
}

} // verus!
