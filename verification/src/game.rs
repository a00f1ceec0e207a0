use crate::app::GameEvent;
use crate::collision::{spec_abs, spec_brick_bounced_ball, spec_paddle_response, spec_rebound_offset};
use crate::entity::{spec_cells, spec_mark_off_screen, spec_point_inside, spec_update, Cell, Color, Entity};
use crate::vector::Vector;
use vstd::arithmetic::div_mod::lemma_fundamental_div_mod;
use vstd::prelude::*;

verus! {

/// The widest brick the grid builder will try.
pub const MAX_BRICK_WIDTH: i32 = 12;

/// The largest viewport dimension the simulation accepts: terminal
/// viewports are measured in 16-bit cells.
pub const MAX_DIMENSION: i32 = 0xFFFF;

/// A cap on how fast the paddle may ever go, far beyond anything
/// reachable in play; it keeps every velocity sum inside `i32`.
pub const VELOCITY_LIMIT: i32 = 0x100000;

/// A key the round simulation reacts to.
#[derive(Clone, Copy, Debug, PartialEq, Eq, Structural)]
pub enum Key {
    Left,
    Right,
}

/// The entities one round owns: the ball and the paddle while they are
/// on the field, and the bricks in creation order.
#[derive(Debug)]
pub struct GameEntities {
    pub ball: Option<Entity>,
    pub paddle: Option<Entity>,
    pub bricks: Vec<Entity>,
}

impl Default for GameEntities {
    /// An empty field: no ball, no paddle, no bricks.
    fn default() -> (entities: GameEntities)
        ensures
            entities.ball is None,
            entities.paddle is None,
            entities.bricks@ == Seq::<Entity>::empty(),
    {
        GameEntities { ball: None, paddle: None, bricks: Vec::new() }
    }
}

/// The round simulation: it owns its entities for the round's lifetime.
#[derive(Debug)]
pub struct Game(pub GameEntities);

impl Default for Game {
    /// A simulation with an empty field.
    fn default() -> (game: Game)
        ensures
            game.0.ball is None,
            game.0.paddle is None,
            game.0.bricks@ == Seq::<Entity>::empty(),
    {
        Game(GameEntities::default())
    }
}

/// The round's shared state: the playfield dimensions measured at
/// mount time and whether a round is underway.
#[derive(Clone, Copy, Debug, PartialEq, Eq, Structural)]
pub struct GameState {
    pub game_width: i32,
    pub game_height: i32,
    pub playing: bool,
}

impl Default for GameState {
    /// No viewport measured yet, and no round underway.
    fn default() -> (state: GameState)
        ensures
            state == (GameState { game_width: 0, game_height: 0, playing: false }),
    {
        GameState { game_width: 0, game_height: 0, playing: false }
    }
}

/// The playfield dimensions are positive and fit a terminal viewport.
pub open spec fn spec_wf_dims(state: GameState) -> bool {
    &&& 1 <= state.game_width <= MAX_DIMENSION
    &&& 1 <= state.game_height <= MAX_DIMENSION
}

/// A stored ball is alive, sits within reach of a terminal-sized
/// playfield, and moves at most four cells sideways and exactly one
/// cell vertically per tick.
pub open spec fn spec_wf_ball(ball: Entity) -> bool {
    &&& ball.is_alive
    &&& -0x11000 <= ball.position.x <= 0x11000
    &&& -0x11000 <= ball.position.y <= 0x11000
    &&& -4 <= ball.velocity.x <= 4
    &&& (ball.velocity.y == 1 || ball.velocity.y == -1)
    &&& ball.health == ball.original_health
    &&& 1 <= ball.size.x <= MAX_DIMENSION
    &&& 1 <= ball.size.y <= MAX_DIMENSION
}

/// A stored paddle moves only sideways, within the speed cap, and sits
/// within reach of a terminal-sized playfield.
pub open spec fn spec_wf_paddle(paddle: Entity) -> bool {
    &&& -40000 <= paddle.position.x <= 70000
    &&& -2 <= paddle.position.y <= MAX_DIMENSION
    &&& -VELOCITY_LIMIT <= paddle.velocity.x <= VELOCITY_LIMIT
    &&& paddle.velocity.y == 0
    &&& paddle.health == paddle.original_health
    &&& 1 <= paddle.size.x <= MAX_DIMENSION
    &&& 1 <= paddle.size.y <= MAX_DIMENSION
}

/// A brick has a positive box inside the viewport and at most three
/// health points, so its damage tier always has a glyph.
pub open spec fn spec_wf_brick(brick: Entity) -> bool {
    &&& 0 <= brick.position.x
    &&& brick.position.x + brick.size.x <= MAX_DIMENSION
    &&& 0 <= brick.position.y
    &&& brick.position.y + brick.size.y <= MAX_DIMENSION
    &&& 1 <= brick.size.x
    &&& 1 <= brick.size.y
    &&& brick.health <= brick.original_health <= 3
}

/// Everything the per-tick update relies on: sane dimensions, sane
/// entities, and — while a round is underway — a ball and a paddle on
/// the field. Established at mount/reset and preserved by every tick.
pub open spec fn spec_wf_game(entities: GameEntities, state: GameState) -> bool {
    &&& spec_wf_dims(state)
    &&& (entities.ball matches Some(ball) ==> spec_wf_ball(ball))
    &&& (entities.paddle matches Some(paddle) ==> spec_wf_paddle(paddle))
    &&& (state.playing ==> entities.ball is Some && entities.paddle is Some)
    &&& forall|i: int|
        0 <= i < entities.bricks@.len() ==> spec_wf_brick(#[trigger] entities.bricks@[i])
}

/// The brick width the builder settles on: the first candidate, from
/// `candidate` downward, that divides the playfield width exactly.
pub open spec fn spec_brick_width(game_width: int, candidate: int) -> int
    decreases candidate,
{
    if candidate <= 1 {
        1
    } else if game_width % candidate == 0 {
        candidate
    } else {
        spec_brick_width(game_width, candidate - 1)
    }
}

/// Choose the brick width for a playfield: the widest width, at most
/// [`MAX_BRICK_WIDTH`], that divides the playfield width with no
/// remainder, so brick rows cover the playfield exactly.
pub fn calculate_brick_size(game_width: i32) -> (brick_width: i32)
    requires
        game_width >= 1,
    ensures
        brick_width == spec_brick_width(game_width as int, MAX_BRICK_WIDTH as int),
        1 <= brick_width <= MAX_BRICK_WIDTH,
        game_width % brick_width == 0,
        forall|w: int|
            brick_width < w <= MAX_BRICK_WIDTH ==> #[trigger] (game_width as int % w) != 0,
{
    let mut brick_width: i32 = MAX_BRICK_WIDTH;

    while game_width % brick_width != 0
        invariant
            1 <= brick_width <= MAX_BRICK_WIDTH,
            game_width >= 1,
            spec_brick_width(game_width as int, MAX_BRICK_WIDTH as int) == spec_brick_width(
                game_width as int,
                brick_width as int,
            ),
            forall|w: int|
                brick_width < w <= MAX_BRICK_WIDTH ==> #[trigger] (game_width as int % w) != 0,
        decreases brick_width,
    {
        brick_width = brick_width - 1;
    }
    brick_width
}

/// The brick a grid row holds at index `i`.
pub open spec fn spec_grid_brick(
    i: int,
    brick_width: int,
    row_y: int,
    health: u32,
    color: Color,
) -> Entity {
    Entity {
        position: Vector { x: (i * brick_width) as i32, y: row_y as i32 },
        size: Vector { x: brick_width as i32, y: 1 },
        character: ' ',
        velocity: Vector { x: 0, y: 0 },
        is_alive: true,
        bg_color: color,
        health,
        original_health: health,
        value: health,
    }
}

/// One full-width row of bricks, laid edge to edge.
pub open spec fn spec_brick_row(
    bricks_per_row: int,
    brick_width: int,
    row_y: int,
    health: u32,
    color: Color,
) -> Seq<Entity> {
    Seq::new(
        if bricks_per_row >= 0 {
            bricks_per_row as nat
        } else {
            0
        },
        |i: int| spec_grid_brick(i, brick_width, row_y, health, color),
    )
}

/// The full starting grid: a red and a magenta row of single-health
/// bricks, then a cyan row of three-health bricks.
pub open spec fn spec_brick_grid(game_width: int) -> Seq<Entity> {
    let brick_width = spec_brick_width(game_width, MAX_BRICK_WIDTH as int);
    let bricks_per_row = game_width / brick_width;
    spec_brick_row(bricks_per_row, brick_width, 0, 1u32, Color::Red) + spec_brick_row(
        bricks_per_row,
        brick_width,
        1,
        1u32,
        Color::Magenta,
    ) + spec_brick_row(bricks_per_row, brick_width, 2, 3u32, Color::Cyan)
}

/// The ball a round starts with: a single cell at the playfield's
/// center, falling straight down.
pub open spec fn spec_initial_ball(state: GameState) -> Entity {
    Entity {
        position: Vector {
            x: (state.game_width / 2) as i32,
            y: (state.game_height / 2) as i32,
        },
        size: Vector { x: 1, y: 1 },
        character: '*',
        velocity: Vector { x: 0, y: 1 },
        is_alive: true,
        bg_color: Color::Reset,
        health: 1u32,
        original_health: 1u32,
        value: 1u32,
    }
}

/// The paddle a round starts with: twenty cells wide, two tall,
/// centered at the bottom of the playfield, at rest.
pub open spec fn spec_initial_paddle(state: GameState) -> Entity {
    Entity {
        position: Vector {
            x: (state.game_width / 2 - 10) as i32,
            y: (state.game_height - 2) as i32,
        },
        size: Vector { x: 20, y: 2 },
        character: '=',
        velocity: Vector { x: 0, y: 0 },
        is_alive: true,
        bg_color: Color::Reset,
        health: 1u32,
        original_health: 1u32,
        value: 1u32,
    }
}

/// What a reset leaves on the field: a fresh ball and paddle, and the
/// brick grid rebuilt only when no brick is left.
pub open spec fn spec_reset_bricks(bricks: Seq<Entity>, state: GameState) -> Seq<Entity> {
    if bricks.len() == 0 {
        spec_brick_grid(state.game_width as int)
    } else {
        bricks
    }
}

fn push_brick_row(
    bricks: &mut Vec<Entity>,
    bricks_per_row: i32,
    brick_size: Vector,
    row_y: i32,
    health: u32,
    color: Color,
)
    requires
        1 <= brick_size.x,
        brick_size.y == 1,
        0 <= row_y <= 2,
        1 <= health <= 3,
        0 <= bricks_per_row,
        bricks_per_row * brick_size.x <= MAX_DIMENSION,
    ensures
        final(bricks)@ == old(bricks)@ + spec_brick_row(
            bricks_per_row as int,
            brick_size.x as int,
            row_y as int,
            health,
            color,
        ),
        forall|i: int|
            old(bricks)@.len() <= i < final(bricks)@.len() ==> spec_wf_brick(
                #[trigger] final(bricks)@[i],
            ),
{
    let ghost initial = bricks@;
    let ghost row = spec_brick_row(
        bricks_per_row as int,
        brick_size.x as int,
        row_y as int,
        health,
        color,
    );
    assert(initial + row.take(0) =~= initial);
    let mut count: i32 = 0;
    while count < bricks_per_row
        invariant
            0 <= count <= bricks_per_row,
            1 <= brick_size.x,
            brick_size.y == 1,
            0 <= row_y <= 2,
            1 <= health <= 3,
            bricks_per_row * brick_size.x <= MAX_DIMENSION,
            row == spec_brick_row(
                bricks_per_row as int,
                brick_size.x as int,
                row_y as int,
                health,
                color,
            ),
            bricks@ == initial + row.take(count as int),
            forall|i: int|
                initial.len() <= i < bricks@.len() ==> spec_wf_brick(#[trigger] bricks@[i]),
        decreases bricks_per_row - count,
    {
        assert(0 <= count * brick_size.x && count * brick_size.x + brick_size.x <= bricks_per_row
            * brick_size.x) by (nonlinear_arith)
            requires
                0 <= count < bricks_per_row,
                1 <= brick_size.x,
        ;
        let position = Vector::new(count * brick_size.x, row_y);
        let brick = Entity::new(position, brick_size, ' ', color, health);
        bricks.push(brick);
        proof {
            assert(brick == spec_grid_brick(
                count as int,
                brick_size.x as int,
                row_y as int,
                health,
                color,
            ));
            assert(row.take(count + 1) =~= row.take(count as int).push(brick));
            assert(bricks@ =~= initial + row.take(count + 1));
        }
        count = count + 1;
    }
    assert(row.take(count as int) =~= row);
}

/// Set a round up: spawn the ball and the paddle at their starting
/// spots, rebuild the brick grid if no brick is left from the previous
/// round, and mark the round as underway.
pub fn reset_game(game_entities: &mut GameEntities, state: &mut GameState)
    requires
        spec_wf_dims(*old(state)),
        forall|i: int|
            0 <= i < old(game_entities).bricks@.len() ==> spec_wf_brick(
                #[trigger] old(game_entities).bricks@[i],
            ),
    ensures
        final(game_entities).ball == Some(spec_initial_ball(*old(state))),
        final(game_entities).paddle == Some(spec_initial_paddle(*old(state))),
        final(game_entities).bricks@ == spec_reset_bricks(old(game_entities).bricks@, *old(state)),
        *final(state) == (GameState { playing: true, ..*old(state) }),
        spec_wf_game(*final(game_entities), *final(state)),
{
    let game_width = state.game_width;
    let game_height = state.game_height;
    let ball_position = Vector::new(game_width / 2, game_height / 2);
    let ball_velocity = Vector::new(0, 1);
    let ball_size = Vector::new(1, 1);
    let mut ball = Entity::new(ball_position, ball_size, '*', Color::Reset, 1);
    ball.apply_force(ball_velocity);
    game_entities.ball = Some(ball);

    let paddle_size = Vector::new(20, 2);
    let paddle_position = Vector::new(
        game_width / 2 - paddle_size.x / 2,
        game_height - paddle_size.y,
    );
    let paddle = Entity::new(paddle_position, paddle_size, '=', Color::Reset, 1);
    game_entities.paddle = Some(paddle);

    if game_entities.bricks.len() == 0 {
        let brick_width = calculate_brick_size(game_width);
        let brick_size = Vector::new(brick_width, 1);
        let bricks_per_row = game_width / brick_size.x;
        proof {
            lemma_fundamental_div_mod(game_width as int, brick_width as int);
            vstd::arithmetic::div_mod::lemma_div_pos_is_pos(game_width as int, brick_width as int);
            assert(bricks_per_row == game_width as int / brick_width as int);
            assert(game_width as int == brick_width as int * (game_width as int / brick_width
                as int));
            assert(bricks_per_row * brick_size.x == game_width) by (nonlinear_arith)
                requires
                    game_width as int == brick_width as int * (bricks_per_row as int),
                    brick_size.x == brick_width,
            ;
        }
        push_brick_row(&mut game_entities.bricks, bricks_per_row, brick_size, 0, 1, Color::Red);
        push_brick_row(
            &mut game_entities.bricks,
            bricks_per_row,
            brick_size,
            brick_size.y,
            1,
            Color::Magenta,
        );
        push_brick_row(
            &mut game_entities.bricks,
            bricks_per_row,
            brick_size,
            brick_size.y + 1,
            3,
            Color::Cyan,
        );
        proof {
            assert(game_entities.bricks@ =~= spec_brick_grid(game_width as int));
        }
    }

    state.playing = true;
}

/// Where a clone of the ball, integrated tick by tick with the same
/// wall-bounce rules and no collisions, first reaches the paddle's row;
/// `None` once the step budget is spent.
pub open spec fn spec_predict_landing(
    ball: Entity,
    game_size: Vector,
    paddle_y: int,
    fuel: nat,
) -> Option<Entity>
    decreases fuel,
{
    if ball.position.y >= paddle_y {
        Some(ball)
    } else if fuel == 0 {
        None
    } else {
        spec_predict_landing(spec_update(ball, game_size), game_size, paddle_y, (fuel - 1) as nat)
    }
}

/// The forward-simulation step budget for a playfield: generous enough
/// for any landing the simulation can reach, yet a hard bound that
/// keeps the prediction loop finite.
pub open spec fn spec_predict_fuel(game_size: Vector) -> int {
    4 * game_size.y + 16
}

/// One autoplay steering step. With a predicted landing spot, the
/// paddle moves two cells toward it when misaligned; once the landing
/// spot is over the paddle, a paddle centered exactly under it drifts
/// one cell to stay imperfect. With no prediction the paddle holds.
pub open spec fn spec_autoplay_steer(paddle: Entity, ball: Entity, game_size: Vector) -> Entity {
    let prediction = spec_predict_landing(
        ball,
        game_size,
        paddle.position.y as int,
        spec_predict_fuel(game_size) as nat,
    );
    match prediction {
        None => paddle,
        Some(landed) => {
            let landing_x = landed.position.x;
            if paddle.position.x > landing_x {
                Entity {
                    position: Vector { x: (paddle.position.x - 2) as i32, y: paddle.position.y },
                    ..paddle
                }
            } else if paddle.position.x + paddle.size.x <= landing_x {
                Entity {
                    position: Vector { x: (paddle.position.x + 2) as i32, y: paddle.position.y },
                    ..paddle
                }
            } else {
                let offset = landing_x - (paddle.position.x + paddle.size.x / 2);
                if -1 < offset < 1 {
                    Entity {
                        position: Vector {
                            x: (paddle.position.x + 1) as i32,
                            y: paddle.position.y,
                        },
                        ..paddle
                    }
                } else {
                    paddle
                }
            }
        },
    }
}

/// Steer the paddle one step toward where the ball will land, by
/// forward-simulating the ball (ignoring paddle and bricks) until it
/// reaches the paddle's row or the step budget runs out.
pub fn autoplay_steer(paddle: &mut Entity, ball: &Entity, game_size: Vector)
    requires
        1 <= game_size.x <= MAX_DIMENSION,
        1 <= game_size.y <= MAX_DIMENSION,
        spec_wf_ball(*ball),
        spec_wf_paddle(*old(paddle)),
    ensures
        *final(paddle) == spec_autoplay_steer(*old(paddle), *ball, game_size),
        final(paddle).position.x == old(paddle).position.x || spec_abs(
            final(paddle).position.x - old(paddle).position.x,
        ) <= 2,
        final(paddle).position.y == old(paddle).position.y,
        final(paddle).velocity == old(paddle).velocity,
        final(paddle).size == old(paddle).size,
{
    let ghost fuel0 = spec_predict_fuel(game_size) as nat;
    let mut simulated_ball = *ball;
    let mut remaining: i32 = 4 * game_size.y + 16;

    while simulated_ball.position.y < paddle.position.y && remaining > 0
        invariant
            0 <= remaining,
            1 <= game_size.x <= MAX_DIMENSION,
            1 <= game_size.y <= MAX_DIMENSION,
            spec_wf_paddle(*paddle),
            *paddle == *old(paddle),
            -4 <= simulated_ball.velocity.x <= 4,
            simulated_ball.velocity.y == 1 || simulated_ball.velocity.y == -1,
            -0x11000 <= simulated_ball.position.x <= 0x11000,
            -0x11000 <= simulated_ball.position.y <= 0x11000,
            spec_predict_landing(*ball, game_size, paddle.position.y as int, fuel0)
                == spec_predict_landing(
                simulated_ball,
                game_size,
                paddle.position.y as int,
                remaining as nat,
            ),
        decreases remaining,
    {
        simulated_ball.update(game_size);
        remaining = remaining - 1;
    }

    let ghost prediction = spec_predict_landing(
        *ball,
        game_size,
        paddle.position.y as int,
        fuel0,
    );
    if simulated_ball.position.y >= paddle.position.y {
        proof {
            assert(prediction == Some(simulated_ball));
        }
        if paddle.position.x > simulated_ball.position.x {
            paddle.position.x = paddle.position.x - 2;
        } else if paddle.position.x + paddle.size.x <= simulated_ball.position.x {
            paddle.position.x = paddle.position.x + 2;
        } else {
            let simulated_ball_offset = simulated_ball.position.x - (paddle.position.x
                + paddle.size.x / 2);
            if -1 < simulated_ball_offset && simulated_ball_offset < 1 {
                paddle.position.x = paddle.position.x + 1;
            }
        }
    } else {
        proof {
            assert(prediction is None);
        }
    }
}

/// The ball, the bricks and the points scored after the ball has been
/// played against the first `upto` bricks in creation order: each brick
/// whose box holds the ball loses one health point and bounces the
/// ball, and a brick left with no health scores its point value.
pub open spec fn spec_brick_pass(ball: Entity, bricks: Seq<Entity>, upto: int) -> (
    Entity,
    Seq<Entity>,
    Seq<u32>,
)
    decreases upto,
{
    if upto <= 0 {
        (ball, bricks, Seq::empty())
    } else {
        let (ball_prev, bricks_prev, scored_prev) = spec_brick_pass(ball, bricks, upto - 1);
        let brick = bricks_prev[upto - 1];
        if spec_point_inside(brick, ball_prev.position) {
            let struck = Entity {
                health: if brick.health == 0 {
                    0u32
                } else {
                    (brick.health - 1) as u32
                },
                ..brick
            };
            (
                spec_brick_bounced_ball(ball_prev, brick),
                bricks_prev.update(upto - 1, struck),
                if struck.health == 0 {
                    scored_prev.push(brick.value)
                } else {
                    scored_prev
                },
            )
        } else {
            (ball_prev, bricks_prev, scored_prev)
        }
    }
}

/// Play the ball against every brick in creation order: each brick the
/// ball sits in loses one health point and bounces the ball by the
/// side-of-impact rule; every simultaneous overlap is resolved
/// independently, in sequence. The returned point values belong to the
/// bricks destroyed by this pass, in order; in autoplay, scoring is
/// suppressed and the list stays empty.
pub fn resolve_brick_collisions(
    ball: &mut Entity,
    bricks: &mut Vec<Entity>,
    automation: bool,
) -> (scored: Vec<u32>)
    requires
        -0x20000 <= old(ball).position.x <= 0x20000,
        -0x20000 <= old(ball).position.y <= 0x20000,
        -0x20000 <= old(ball).velocity.x <= 0x20000,
        -0x20000 <= old(ball).velocity.y <= 0x20000,
        forall|i: int|
            0 <= i < old(bricks)@.len() ==> spec_wf_brick(#[trigger] old(bricks)@[i]),
    ensures
        ({
            let pass = spec_brick_pass(*old(ball), old(bricks)@, old(bricks)@.len() as int);
            &&& *final(ball) == pass.0
            &&& final(bricks)@ == pass.1
            &&& scored@ == if automation {
                Seq::<u32>::empty()
            } else {
                pass.2
            }
        }),
        forall|i: int|
            0 <= i < final(bricks)@.len() ==> spec_wf_brick(#[trigger] final(bricks)@[i]),
        final(bricks)@.len() == old(bricks)@.len(),
        spec_abs(final(ball).velocity.x as int) == spec_abs(old(ball).velocity.x as int),
        spec_abs(final(ball).velocity.y as int) == spec_abs(old(ball).velocity.y as int),
        final(ball).position.x == old(ball).position.x || -1 <= final(ball).position.x <= 0x10000,
        final(ball).position.y == old(ball).position.y || -1 <= final(ball).position.y <= 0x10000,
        *final(ball) == (Entity {
            position: final(ball).position,
            velocity: final(ball).velocity,
            ..*old(ball)
        }),
{
    let mut scored: Vec<u32> = Vec::new();
    let brick_count = bricks.len();
    let mut index: usize = 0;

    while index < brick_count
        invariant
            0 <= index <= brick_count,
            brick_count == bricks@.len(),
            bricks@.len() == old(bricks)@.len(),
            forall|i: int|
                0 <= i < old(bricks)@.len() ==> spec_wf_brick(#[trigger] old(bricks)@[i]),
            forall|i: int| 0 <= i < bricks@.len() ==> spec_wf_brick(#[trigger] bricks@[i]),
            ({
                let pass = spec_brick_pass(*old(ball), old(bricks)@, index as int);
                &&& *ball == pass.0
                &&& bricks@ == pass.1
                &&& scored@ == if automation {
                    Seq::<u32>::empty()
                } else {
                    pass.2
                }
            }),
            spec_abs(ball.velocity.x as int) == spec_abs(old(ball).velocity.x as int),
            spec_abs(ball.velocity.y as int) == spec_abs(old(ball).velocity.y as int),
            ball.position.x == old(ball).position.x || -1 <= ball.position.x <= 0x10000,
            ball.position.y == old(ball).position.y || -1 <= ball.position.y <= 0x10000,
            -0x20000 <= old(ball).position.x <= 0x20000,
            -0x20000 <= old(ball).position.y <= 0x20000,
            -0x20000 <= old(ball).velocity.x <= 0x20000,
            -0x20000 <= old(ball).velocity.y <= 0x20000,
            *ball == (Entity {
                position: ball.position,
                velocity: ball.velocity,
                ..*old(ball)
            }),
        decreases brick_count - index,
    {
        let mut brick = bricks[index];
        let hit = crate::collision::resolve_brick_collision(ball, &mut brick);
        bricks.set(index, brick);
        if hit && !automation {
            if brick.health == 0 {
                scored.push(brick.value);
            }
        }
        proof {
            let pass_next = spec_brick_pass(*old(ball), old(bricks)@, index + 1);
            assert(bricks@ =~= pass_next.1);
            if !automation {
                assert(scored@ =~= pass_next.2);
            }
        }
        index = index + 1;
    }
    scored
}

/// The bricks that survive a pass: those with health left, in order.
pub open spec fn spec_keep_live(bricks: Seq<Entity>, upto: int) -> Seq<Entity>
    decreases upto,
{
    if upto <= 0 {
        Seq::empty()
    } else {
        let prefix = spec_keep_live(bricks, upto - 1);
        if bricks[upto - 1].health > 0 {
            prefix.push(bricks[upto - 1])
        } else {
            prefix
        }
    }
}

/// Drop every destroyed brick from the active set, keeping creation
/// order, so no destroyed brick reaches the next tick's collision pass.
fn retain_live_bricks(bricks: &mut Vec<Entity>)
    ensures
        final(bricks)@ == spec_keep_live(old(bricks)@, old(bricks)@.len() as int),
        forall|j: int| 0 <= j < final(bricks)@.len() ==> final(bricks)@[j].health > 0,
        forall|j: int|
            0 <= j < final(bricks)@.len() ==> exists|i: int|
                0 <= i < old(bricks)@.len() && #[trigger] final(bricks)@[j] == #[trigger] old(
                    bricks,
                )@[i],
{
    let mut kept: Vec<Entity> = Vec::new();
    let brick_count = bricks.len();
    let mut index: usize = 0;

    while index < brick_count
        invariant
            0 <= index <= brick_count,
            brick_count == bricks@.len(),
            kept@ == spec_keep_live(bricks@, index as int),
            forall|j: int| 0 <= j < kept@.len() ==> kept@[j].health > 0,
            forall|j: int|
                0 <= j < kept@.len() ==> exists|i: int|
                    0 <= i < bricks@.len() && #[trigger] kept@[j] == #[trigger] bricks@[i],
        decreases brick_count - index,
    {
        let brick = bricks[index];
        if brick.health > 0 {
            kept.push(brick);
        }
        index = index + 1;
    }
    *bricks = kept;
}

/// The scored events a pass's point values turn into, in order.
pub open spec fn spec_scored_events(scored: Seq<u32>) -> Seq<GameEvent> {
    scored.map_values(|v: u32| GameEvent::Scored(v))
}

/// What one tick settles on, stated over mathematical sequences.
pub struct TickSpec {
    pub ball: Option<Entity>,
    pub paddle: Option<Entity>,
    pub bricks: Seq<Entity>,
    pub playing: bool,
    pub events: Seq<GameEvent>,
}

/// The ball and the paddle after a tick's motion phase: the autoplay
/// steering step (in autoplay only), then integration and wall bounce
/// for both.
pub open spec fn spec_tick_motion(
    entities: GameEntities,
    state: GameState,
    automation: bool,
) -> (Entity, Entity)
    recommends
        entities.ball is Some,
        entities.paddle is Some,
{
    let size = Vector { x: state.game_width, y: state.game_height };
    let ball0 = entities.ball->0;
    let paddle0 = entities.paddle->0;
    let steered = if automation {
        spec_autoplay_steer(paddle0, ball0, size)
    } else {
        paddle0
    };
    (spec_update(ball0, size), spec_update(steered, size))
}

/// The values the autoplay jitter may set the rebound velocity to: on
/// a paddle rebound in autoplay, one of the two cells at or just left
/// of the aimed offset; everywhere else the tick draws nothing and the
/// jitter is fixed at zero.
pub open spec fn spec_tick_jitter_ok(
    entities: GameEntities,
    state: GameState,
    automation: bool,
    jitter_vx: int,
) -> bool {
    if entities.ball is Some && entities.paddle is Some && automation {
        let (ball1, paddle2) = spec_tick_motion(entities, state, automation);
        if spec_point_inside(paddle2, ball1.position) {
            spec_rebound_offset(ball1, paddle2) - 1 <= jitter_vx <= spec_rebound_offset(
                ball1,
                paddle2,
            )
        } else {
            jitter_vx == 0
        }
    } else {
        jitter_vx == 0
    }
}

/// One full tick. With the ball or the paddle absent nothing happens.
/// Otherwise: motion, the paddle rebound (with the drawn jitter in
/// autoplay), the brick pass, loss of the ball past the bottom edge,
/// removal of destroyed bricks, and the round-end check. Clearing the
/// bricks ends the round silently; losing the ball ends it with a
/// life-lost event; in autoplay the round is set up again at once and
/// scoring is suppressed.
pub open spec fn spec_on_tick(
    entities: GameEntities,
    state: GameState,
    automation: bool,
    jitter_vx: int,
) -> TickSpec {
    let size = Vector { x: state.game_width, y: state.game_height };
    if entities.ball is None || entities.paddle is None {
        TickSpec {
            ball: entities.ball,
            paddle: entities.paddle,
            bricks: entities.bricks@,
            playing: state.playing,
            events: Seq::empty(),
        }
    } else {
        let (ball1, paddle2) = spec_tick_motion(entities, state, automation);
        let aimed = spec_paddle_response(ball1, paddle2);
        let ball2 = if !spec_point_inside(paddle2, ball1.position) {
            ball1
        } else if automation {
            Entity { velocity: Vector { x: jitter_vx as i32, y: aimed.velocity.y }, ..aimed }
        } else {
            aimed
        };
        let pass = spec_brick_pass(ball2, entities.bricks@, entities.bricks@.len() as int);
        let ball3 = spec_mark_off_screen(pass.0, size);
        let kept = spec_keep_live(pass.1, pass.1.len() as int);
        let scored = if automation {
            Seq::<u32>::empty()
        } else {
            pass.2
        };
        let events = spec_scored_events(scored) + if !ball3.is_alive {
            seq![GameEvent::LostLife]
        } else {
            Seq::<GameEvent>::empty()
        };
        let round_over = (kept.len() == 0 && ball3.is_alive) || !ball3.is_alive;
        if round_over && automation {
            TickSpec {
                ball: Some(spec_initial_ball(state)),
                paddle: Some(spec_initial_paddle(state)),
                bricks: spec_reset_bricks(kept, state),
                playing: true,
                events,
            }
        } else if round_over {
            TickSpec { ball: None, paddle: Some(paddle2), bricks: kept, playing: false, events }
        } else {
            TickSpec {
                ball: Some(ball3),
                paddle: Some(paddle2),
                bricks: kept,
                playing: state.playing,
                events,
            }
        }
    }
}

impl Game {
    /// Record the viewport the shell measured at mount time.
    pub fn on_mount(&mut self, state: &mut GameState, width: i32, height: i32)
        requires
            1 <= width <= MAX_DIMENSION,
            1 <= height <= MAX_DIMENSION,
        ensures
            *final(state) == (GameState {
                game_width: width,
                game_height: height,
                ..*old(state)
            }),
            final(self).0.ball == old(self).0.ball,
            final(self).0.paddle == old(self).0.paddle,
            final(self).0.bricks@ == old(self).0.bricks@,
    {
        state.game_width = width;
        state.game_height = height;
    }

    /// Set a round up when told to begin; every other event is ignored.
    pub fn on_event(&mut self, state: &mut GameState, event: &GameEvent)
        requires
            *event is Begin ==> spec_wf_dims(*old(state)),
            *event is Begin ==> forall|i: int|
                0 <= i < old(self).0.bricks@.len() ==> spec_wf_brick(
                    #[trigger] old(self).0.bricks@[i],
                ),
        ensures
            *event is Begin ==> {
                &&& final(self).0.ball == Some(spec_initial_ball(*old(state)))
                &&& final(self).0.paddle == Some(spec_initial_paddle(*old(state)))
                &&& final(self).0.bricks@ == spec_reset_bricks(old(self).0.bricks@, *old(state))
                &&& *final(state) == (GameState { playing: true, ..*old(state) })
                &&& spec_wf_game(final(self).0, *final(state))
            },
            !(*event is Begin) ==> {
                &&& final(self).0.ball == old(self).0.ball
                &&& final(self).0.paddle == old(self).0.paddle
                &&& final(self).0.bricks@ == old(self).0.bricks@
                &&& *final(state) == *old(state)
            },
    {
        match event {
            GameEvent::Begin => {
                reset_game(&mut self.0, state);
            },
            _ => {},
        }
    }

    /// Nudge the paddle left or right. Keys steer only the human game:
    /// in autoplay, or with no paddle on the field, nothing happens.
    pub fn on_key(&mut self, key: Key, automation: bool)
        requires
            old(self).0.paddle matches Some(paddle) ==> -VELOCITY_LIMIT < paddle.velocity.x
                < VELOCITY_LIMIT,
        ensures
            automation || old(self).0.paddle is None ==> final(self).0.paddle == old(
                self,
            ).0.paddle,
            !automation ==> (old(self).0.paddle matches Some(paddle) ==> final(self).0.paddle
                == Some(
                Entity {
                    velocity: Vector {
                        x: (paddle.velocity.x + if key is Left {
                            -1int
                        } else {
                            1int
                        }) as i32,
                        y: paddle.velocity.y,
                    },
                    ..paddle
                },
            )),
            final(self).0.ball == old(self).0.ball,
            final(self).0.bricks@ == old(self).0.bricks@,
    {
        if automation {
            return;
        }

        let move_speed: i32 = 1;
        match &mut self.0.paddle {
            Some(paddle) => {
                if matches!(key, Key::Left) {
                    let force = Vector::new(-move_speed, 0);
                    paddle.apply_force(force);
                } else {
                    let force = Vector::new(move_speed, 0);
                    paddle.apply_force(force);
                }
            },
            None => {},
        }
    }

    /// Seat the paddle under the pointer and stop its drift. The mouse
    /// steers only the human game: in autoplay, or with no paddle on
    /// the field, nothing happens.
    pub fn on_mouse(&mut self, mouse_position: Vector, automation: bool)
        requires
            0 <= mouse_position.x <= MAX_DIMENSION,
            old(self).0.paddle matches Some(paddle) ==> 1 <= paddle.size.x <= MAX_DIMENSION,
        ensures
            automation || old(self).0.paddle is None ==> final(self).0.paddle == old(
                self,
            ).0.paddle,
            !automation ==> (old(self).0.paddle matches Some(paddle) ==> final(self).0.paddle
                == Some(
                Entity {
                    position: Vector {
                        x: (mouse_position.x - paddle.size.x / 2) as i32,
                        y: paddle.position.y,
                    },
                    velocity: Vector { x: 0, y: paddle.velocity.y },
                    ..paddle
                },
            )),
            final(self).0.ball == old(self).0.ball,
            final(self).0.bricks@ == old(self).0.bricks@,
    {
        if automation {
            return;
        }

        match &mut self.0.paddle {
            Some(paddle) => {
                paddle.velocity.x = 0;
                paddle.position.x = mouse_position.x - paddle.size.x / 2;
            },
            None => {},
        }
    }


    /// The frame to paint for the current state: cleared of the last
    /// frame by the shell, then these cells in order.
    pub fn render_frame(&self, state: &GameState) -> (cells: Vec<Cell>)
        requires
            spec_wf_game(self.0, *state),
        ensures
            cells@ == spec_render_frame(self.0),
    {
        let mut cells: Vec<Cell> = Vec::new();

        match &self.0.ball {
            Some(ball) => {
                let mut drawn = ball.draw();
                cells.append(&mut drawn);
            },
            None => {},
        }
        let ghost ball_cells = cells@;

        match &self.0.paddle {
            Some(paddle) => {
                let mut drawn = paddle.draw();
                cells.append(&mut drawn);
            },
            None => {},
        }
        let ghost body_cells = cells@;

        let brick_count = self.0.bricks.len();
        let mut index: usize = 0;
        while index < brick_count
            invariant
                0 <= index <= brick_count,
                brick_count == self.0.bricks@.len(),
                spec_wf_game(self.0, *state),
                cells@ == body_cells + spec_brick_frame(self.0.bricks@, index as int),
            decreases brick_count - index,
        {
            let brick = self.0.bricks[index];
            if brick.health > 0 {
                let mut drawn = brick.draw();
                cells.append(&mut drawn);
            }
            index = index + 1;
        }
        cells
    }

    /// Run one tick of the round.
    #[verifier::rlimit(100)]
    pub fn on_tick(&mut self, state: &mut GameState, automation: bool) -> (events: Vec<GameEvent>)
        requires
            spec_wf_game(old(self).0, *old(state)),
        ensures
            spec_wf_game(final(self).0, *final(state)),
            final(state).game_width == old(state).game_width,
            final(state).game_height == old(state).game_height,
            exists|jitter_vx: int|
                #[trigger] spec_tick_jitter_ok(old(self).0, *old(state), automation, jitter_vx)
                    && ({
                    let t = spec_on_tick(old(self).0, *old(state), automation, jitter_vx);
                    &&& final(self).0.ball == t.ball
                    &&& final(self).0.paddle == t.paddle
                    &&& final(self).0.bricks@ == t.bricks
                    &&& final(state).playing == t.playing
                    &&& events@ == t.events
                }),
            !automation ==> ({
                let t = spec_on_tick(old(self).0, *old(state), false, 0);
                &&& final(self).0.ball == t.ball
                &&& final(self).0.paddle == t.paddle
                &&& final(self).0.bricks@ == t.bricks
                &&& final(state).playing == t.playing
                &&& events@ == t.events
            }),
    {
        let game_size = Vector::new(state.game_width, state.game_height);
        let mut events: Vec<GameEvent> = Vec::new();

        if self.0.ball.is_none() || self.0.paddle.is_none() {
            proof {
                assert(spec_tick_jitter_ok(old(self).0, *old(state), automation, 0));
            }
            return events;
        }

        let mut ball = self.0.ball.unwrap();
        let mut paddle = self.0.paddle.unwrap();

        if automation {
            autoplay_steer(&mut paddle, &ball, game_size);
        }

        ball.update(game_size);
        paddle.update(game_size);

        let ghost ball1 = ball;
        let ghost paddle2 = paddle;
        proof {
            assert((ball1, paddle2) == spec_tick_motion(old(self).0, *old(state), automation));
        }

        crate::collision::resolve_paddle_collision(&mut ball, &paddle, automation);
        let ghost jitter_vx: int = if automation && spec_point_inside(paddle2, ball1.position) {
            ball.velocity.x as int
        } else {
            0
        };

        let scored = resolve_brick_collisions(&mut ball, &mut self.0.bricks, automation);

        let mut k: usize = 0;
        while k < scored.len()
            invariant
                0 <= k <= scored@.len(),
                events@ == spec_scored_events(scored@.take(k as int)),
            decreases scored@.len() - k,
        {
            events.push(GameEvent::Scored(scored[k]));
            proof {
                assert(events@ =~= spec_scored_events(scored@.take(k + 1)));
            }
            k = k + 1;
        }
        proof {
            assert(scored@.take(scored@.len() as int) =~= scored@);
            assert(events@ == spec_scored_events(scored@));
        }

        ball.mark_off_screen(&game_size);

        retain_live_bricks(&mut self.0.bricks);
        self.0.paddle = Some(paddle);

        if self.0.bricks.len() == 0 && ball.is_alive {
            state.playing = false;
            self.0.ball = None;
            if automation {
                reset_game(&mut self.0, state);
            }
        } else if !ball.is_alive {
            self.0.ball = None;
            events.push(GameEvent::LostLife);
            state.playing = false;
            if automation {
                reset_game(&mut self.0, state);
            }
        } else {
            self.0.ball = Some(ball);
        }

        proof {
            let t = spec_on_tick(old(self).0, *old(state), automation, jitter_vx);
            assert(spec_tick_jitter_ok(old(self).0, *old(state), automation, jitter_vx));
            assert(events@ =~= t.events);
        }
        events
    }
}

/// The cells the bricks among the first `upto` paint: every brick with
/// health left, in creation order; destroyed bricks paint nothing.
pub open spec fn spec_brick_frame(bricks: Seq<Entity>, upto: int) -> Seq<Cell>
    decreases upto,
{
    if upto <= 0 {
        Seq::empty()
    } else {
        spec_brick_frame(bricks, upto - 1) + if bricks[upto - 1].health > 0 {
            spec_cells(bricks[upto - 1])
        } else {
            Seq::<Cell>::empty()
        }
    }
}

/// The frame a round paints: the ball's cells, the paddle's, then each
/// surviving brick's, in creation order. Entities off the field and
/// destroyed bricks paint nothing.
pub open spec fn spec_render_frame(entities: GameEntities) -> Seq<Cell> {
    (match entities.ball {
        Some(ball) => spec_cells(ball),
        None => Seq::<Cell>::empty(),
    }) + (match entities.paddle {
        Some(paddle) => spec_cells(paddle),
        None => Seq::<Cell>::empty(),
    }) + spec_brick_frame(entities.bricks@, entities.bricks@.len() as int)
}

/// Law: a round stops playing exactly when the ball leaves the field.
/// In manual play, a tick of a running round either keeps both the
/// ball and the `playing` flag, or — on losing the ball past the
/// bottom edge or destroying the last brick — drops both together.
pub proof fn lemma_round_ends_with_the_ball(
    entities: GameEntities,
    state: GameState,
)
    requires
        entities.ball is Some,
        entities.paddle is Some,
        state.playing,
    ensures
        ({
            let t = spec_on_tick(entities, state, false, 0);
            t.playing == (t.ball is Some)
        }),
{
}

/// Law: no destroyed brick survives the removal step, so none reaches
/// the next tick's collision pass or its frame.
pub proof fn lemma_surviving_bricks_healthy(bricks: Seq<Entity>, upto: int)
    ensures
        forall|j: int|
            0 <= j < spec_keep_live(bricks, upto).len() ==> #[trigger] spec_keep_live(
                bricks,
                upto,
            )[j].health > 0,
    decreases upto,
{
    if upto > 0 {
        lemma_surviving_bricks_healthy(bricks, upto - 1);
    }
}

} // verus!
