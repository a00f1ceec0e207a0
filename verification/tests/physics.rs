use anathema_breakout::collision::{
    aabb_overlap, resolve_brick_collision, resolve_paddle_collision,
};
use anathema_breakout::entity::{Cell, Color, Entity};
use anathema_breakout::vector::Vector;

fn body(position: Vector, size: Vector, health: u32) -> Entity {
    Entity::new(position, size, '*', Color::Reset, health)
}

#[test]
fn vector_constructors() {
    let z = Vector::zero();
    assert_eq!((z.x, z.y), (0, 0));
    let v = Vector::new(3, -7);
    assert_eq!((v.x, v.y), (3, -7));
}

#[test]
fn vector_arithmetic() {
    let a = Vector::new(2, 3);
    let b = Vector::new(-5, 10);
    assert_eq!(a.add(b), Vector::new(-3, 13));
    assert_eq!(a.sub(b), Vector::new(7, -7));
    let mut c = a;
    c.add_assign(b);
    assert_eq!(c, Vector::new(-3, 13));
}

#[test]
fn vector_from_pair_truncates() {
    let v = Vector::from((5i64, -3i64));
    assert_eq!(v, Vector::new(5, -3));
    let wide = Vector::from(((1i64 << 40) + 9, 2i64));
    assert_eq!(wide, Vector::new(9, 2));
}

#[test]
fn entity_new_starts_at_rest_and_alive() {
    let e = body(Vector::new(4, 5), Vector::new(2, 1), 3);
    assert_eq!(e.position, Vector::new(4, 5));
    assert_eq!(e.size, Vector::new(2, 1));
    assert_eq!(e.velocity, Vector::zero());
    assert!(e.is_alive);
    assert_eq!(e.health, 3);
    assert_eq!(e.original_health, 3);
    assert_eq!(e.value, 3);
}

#[test]
fn apply_force_and_velocity() {
    let mut e = body(Vector::new(10, 10), Vector::new(1, 1), 1);
    e.apply_force(Vector::new(2, -1));
    assert_eq!(e.velocity, Vector::new(2, -1));
    e.apply_velocity();
    assert_eq!(e.position, Vector::new(12, 9));
}

#[test]
fn bounce_clamps_left_wall_and_reflects() {
    let mut e = body(Vector::new(-5, 3), Vector::new(1, 1), 1);
    e.apply_force(Vector::new(-2, 1));
    e.bounce_off_walls(&Vector::new(40, 20));
    assert_eq!(e.position, Vector::new(0, 3));
    assert_eq!(e.velocity, Vector::new(2, 1));
}

#[test]
fn bounce_clamps_right_wall_and_reflects() {
    let mut e = body(Vector::new(45, 5), Vector::new(1, 1), 1);
    e.apply_force(Vector::new(3, 1));
    e.bounce_off_walls(&Vector::new(40, 20));
    assert_eq!(e.position, Vector::new(39, 5));
    assert_eq!(e.velocity, Vector::new(-3, 1));
}

#[test]
fn bounce_clamps_top_and_reflects() {
    let mut e = body(Vector::new(7, -2), Vector::new(1, 1), 1);
    e.apply_force(Vector::new(0, -1));
    e.bounce_off_walls(&Vector::new(40, 20));
    assert_eq!(e.position, Vector::new(7, 0));
    assert_eq!(e.velocity, Vector::new(0, 1));
}

#[test]
fn bounce_leaves_bottom_edge_open() {
    // Falling past the bottom must not bounce: that is how a life is lost.
    let mut e = body(Vector::new(7, 25), Vector::new(1, 1), 1);
    e.apply_force(Vector::new(0, 1));
    e.bounce_off_walls(&Vector::new(40, 20));
    assert_eq!(e.position, Vector::new(7, 25));
    assert_eq!(e.velocity, Vector::new(0, 1));
}

#[test]
fn bounce_keeps_entity_inside_walls() {
    // Positions all over the place end up with 0 <= x <= 39 and y >= 0.
    let bounds = Vector::new(40, 20);
    let starts = [-100, -1, 0, 1, 20, 38, 39, 40, 100];
    for &x in starts.iter() {
        for &y in starts.iter() {
            let mut e = body(Vector::new(x, y), Vector::new(1, 1), 1);
            e.apply_force(Vector::new(1, 1));
            e.bounce_off_walls(&bounds);
            assert!(0 <= e.position.x && e.position.x <= 39);
            assert!(e.position.y >= 0);
        }
    }
}

#[test]
fn update_integrates_then_bounces() {
    let mut e = body(Vector::new(1, 5), Vector::new(1, 1), 1);
    e.apply_force(Vector::new(-2, 1));
    e.update(Vector::new(40, 20));
    assert_eq!(e.position, Vector::new(0, 6));
    assert_eq!(e.velocity, Vector::new(2, 1));
}

#[test]
fn mark_off_screen_kills_below_bottom() {
    let bounds = Vector::new(40, 20);
    let mut on_field = body(Vector::new(5, 20), Vector::new(1, 1), 1);
    on_field.mark_off_screen(&bounds);
    assert!(on_field.is_alive);

    let mut fallen = body(Vector::new(5, 21), Vector::new(1, 1), 1);
    fallen.mark_off_screen(&bounds);
    assert!(!fallen.is_alive);
}

#[test]
fn lose_health_floors_at_zero() {
    let mut e = body(Vector::new(0, 0), Vector::new(1, 1), 2);
    e.lose_health();
    assert_eq!(e.health, 1);
    e.lose_health();
    assert_eq!(e.health, 0);
    e.lose_health();
    assert_eq!(e.health, 0);
}

#[test]
fn point_inside_is_half_open() {
    let e = body(Vector::new(10, 5), Vector::new(4, 2), 1);
    assert!(e.is_point_inside(&Vector::new(10, 5)));
    assert!(e.is_point_inside(&Vector::new(13, 6)));
    assert!(!e.is_point_inside(&Vector::new(14, 5)));
    assert!(!e.is_point_inside(&Vector::new(10, 7)));
    assert!(!e.is_point_inside(&Vector::new(9, 5)));
}

#[test]
fn previous_location_steps_back_one_tick() {
    let mut e = body(Vector::new(10, 5), Vector::new(1, 1), 1);
    e.apply_force(Vector::new(2, -3));
    assert_eq!(e.previous_location(), Vector::new(8, 8));
}

#[test]
fn damage_glyph_tiers() {
    let mut e = Entity::new(Vector::new(0, 0), Vector::new(1, 1), 'o', Color::Cyan, 3);
    assert_eq!(e.damage_glyph(), 'o');
    e.lose_health();
    assert_eq!(e.damage_glyph(), '/');
    e.lose_health();
    assert_eq!(e.damage_glyph(), '\\');
    e.lose_health();
    assert_eq!(e.damage_glyph(), '#');
}

#[test]
fn draw_covers_the_box_column_by_column() {
    let e = Entity::new(Vector::new(2, 3), Vector::new(2, 2), '=', Color::Red, 1);
    let cells = e.draw();
    let expected: Vec<Cell> = vec![
        Cell { x: 2, y: 3, glyph: '=', fg_black: false, bg_color: Color::Red },
        Cell { x: 2, y: 4, glyph: '=', fg_black: false, bg_color: Color::Red },
        Cell { x: 3, y: 3, glyph: '=', fg_black: false, bg_color: Color::Red },
        Cell { x: 3, y: 4, glyph: '=', fg_black: false, bg_color: Color::Red },
    ];
    assert_eq!(cells, expected);
}

#[test]
fn draw_marks_damage_with_black_foreground() {
    let mut e = Entity::new(Vector::new(0, 0), Vector::new(1, 1), ' ', Color::Cyan, 2);
    e.lose_health();
    let cells = e.draw();
    assert_eq!(cells.len(), 1);
    assert_eq!(cells[0].glyph, '/');
    assert!(cells[0].fg_black);
    assert_eq!(cells[0].bg_color, Color::Cyan);
}

#[test]
fn aabb_overlap_detects_intersection() {
    let a = body(Vector::new(0, 0), Vector::new(4, 4), 1);
    let b = body(Vector::new(3, 3), Vector::new(4, 4), 1);
    assert!(aabb_overlap(&a, &b));
}

#[test]
fn aabb_overlap_is_half_open_on_edges() {
    // Boxes that only touch along an edge do not overlap.
    let a = body(Vector::new(0, 0), Vector::new(4, 4), 1);
    let b = body(Vector::new(4, 0), Vector::new(4, 4), 1);
    assert!(!aabb_overlap(&a, &b));
}

#[test]
fn paddle_rebound_seats_ball_and_aims_by_offset() {
    let paddle = body(Vector::new(10, 18), Vector::new(20, 2), 1);
    // Paddle center is x = 20; the ball two cells right of it.
    let mut ball = body(Vector::new(22, 18), Vector::new(1, 1), 1);
    ball.apply_force(Vector::new(0, 1));
    resolve_paddle_collision(&mut ball, &paddle, false);
    assert_eq!(ball.position, Vector::new(22, 17));
    assert_eq!(ball.velocity, Vector::new(2, -1));
}

#[test]
fn paddle_rebound_clamps_steep_angles() {
    let paddle = body(Vector::new(10, 18), Vector::new(20, 2), 1);
    let mut right_edge = body(Vector::new(29, 18), Vector::new(1, 1), 1);
    right_edge.apply_force(Vector::new(0, 1));
    resolve_paddle_collision(&mut right_edge, &paddle, false);
    assert_eq!(right_edge.velocity.x, 3);

    let mut left_edge = body(Vector::new(10, 18), Vector::new(1, 1), 1);
    left_edge.apply_force(Vector::new(0, 1));
    resolve_paddle_collision(&mut left_edge, &paddle, false);
    assert_eq!(left_edge.velocity.x, -3);
}

#[test]
fn paddle_rebound_is_monotonic_in_offset() {
    // Farther from the paddle's center (up to the clamp) means a larger
    // sideways speed, and never the opposite sign.
    let paddle = body(Vector::new(10, 18), Vector::new(20, 2), 1);
    let mut previous_magnitude = 0;
    for offset in 0..4 {
        let mut ball = body(Vector::new(20 + offset, 18), Vector::new(1, 1), 1);
        ball.apply_force(Vector::new(0, 1));
        resolve_paddle_collision(&mut ball, &paddle, false);
        assert!(ball.velocity.x >= 0);
        assert!(ball.velocity.x >= previous_magnitude);
        previous_magnitude = ball.velocity.x;
    }
}

#[test]
fn paddle_response_without_overlap_changes_nothing() {
    let paddle = body(Vector::new(10, 18), Vector::new(20, 2), 1);
    let mut ball = body(Vector::new(5, 4), Vector::new(1, 1), 1);
    ball.apply_force(Vector::new(1, 1));
    let before = ball;
    resolve_paddle_collision(&mut ball, &paddle, false);
    assert_eq!(ball, before);
}

#[test]
fn brick_response_without_overlap_changes_nothing() {
    let mut brick = body(Vector::new(0, 0), Vector::new(10, 1), 3);
    let mut ball = body(Vector::new(20, 10), Vector::new(1, 1), 1);
    ball.apply_force(Vector::new(1, 1));
    let ball_before = ball;
    let brick_before = brick;
    let hit = resolve_brick_collision(&mut ball, &mut brick);
    assert!(!hit);
    assert_eq!(ball, ball_before);
    assert_eq!(brick, brick_before);
}

#[test]
fn brick_hit_from_below_damages_and_reflects() {
    let mut brick = body(Vector::new(10, 2), Vector::new(10, 1), 3);
    let mut ball = body(Vector::new(15, 2), Vector::new(1, 1), 1);
    ball.apply_force(Vector::new(0, -1));
    let hit = resolve_brick_collision(&mut ball, &mut brick);
    assert!(hit);
    assert_eq!(brick.health, 2);
    // The previous position (15, 3) was below the brick's span, so the
    // ball is reseated under it; the vertical velocity flips.
    assert_eq!(ball.position, Vector::new(15, 3));
    assert_eq!(ball.velocity, Vector::new(0, 1));
}

#[test]
fn brick_side_hit_reflects_horizontally() {
    let mut brick = body(Vector::new(10, 2), Vector::new(10, 1), 3);
    let mut ball = body(Vector::new(10, 2), Vector::new(1, 1), 1);
    ball.apply_force(Vector::new(1, 1));
    let hit = resolve_brick_collision(&mut ball, &mut brick);
    assert!(hit);
    // The previous position (9, 1) was left of the brick's x-span and
    // above its y-span: a side hit pushes the ball to the left edge and
    // flips both components.
    assert_eq!(ball.position, Vector::new(9, 1));
    assert_eq!(ball.velocity, Vector::new(-1, -1));
}

#[test]
fn brick_health_is_strictly_decreasing_per_overlap() {
    let mut brick = body(Vector::new(0, 0), Vector::new(10, 1), 3);
    let mut recorded: Vec<u32> = Vec::new();
    for _ in 0..3 {
        let mut ball = body(Vector::new(5, 0), Vector::new(1, 1), 1);
        ball.apply_force(Vector::new(0, -1));
        let hit = resolve_brick_collision(&mut ball, &mut brick);
        assert!(hit);
        recorded.push(brick.health);
    }
    assert_eq!(recorded, vec![2, 1, 0]);
}
