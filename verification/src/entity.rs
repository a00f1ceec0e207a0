use crate::vector::Vector;
use vstd::prelude::*;

verus! {

/// The colors the simulation assigns to entities; the shell maps them
/// onto whatever palette the terminal offers.
#[derive(Clone, Copy, Debug, PartialEq, Eq, Structural)]
pub enum Color {
    Reset,
    Black,
    Red,
    Magenta,
    Cyan,
}

/// A physics body shared by the ball, the paddle and the bricks.
///
/// `health == 0` means the entity is destroyed; `is_alive == false`
/// marks an entity (the ball) that has left the playfield.
#[derive(Clone, Copy, Debug, PartialEq, Eq, Structural)]
pub struct Entity {
    pub position: Vector,
    pub size: Vector,
    pub character: char,
    pub velocity: Vector,
    pub is_alive: bool,
    pub bg_color: Color,
    pub health: u32,
    pub original_health: u32,
    pub value: u32,
}

/// One tick of motion: position advances by the velocity.
/// The casts never truncate when the sums fit in `i32`, which every
/// executable caller has to guarantee.
pub open spec fn spec_integrate(e: Entity) -> Entity {
    Entity {
        position: Vector {
            x: (e.position.x + e.velocity.x) as i32,
            y: (e.position.y + e.velocity.y) as i32,
        },
        ..e
    }
}

/// Reflection at the left, right and top walls. The bottom edge is
/// deliberately open: falling past it is how the ball is lost.
pub open spec fn spec_bounce(e: Entity, game_size: Vector) -> Entity {
    let ex = if e.position.x <= 0 {
        Entity {
            position: Vector { x: 0, y: e.position.y },
            velocity: Vector { x: (-e.velocity.x) as i32, y: e.velocity.y },
            ..e
        }
    } else if e.position.x >= game_size.x - 1 {
        Entity {
            position: Vector { x: (game_size.x - 1) as i32, y: e.position.y },
            velocity: Vector { x: (-e.velocity.x) as i32, y: e.velocity.y },
            ..e
        }
    } else {
        e
    };
    if ex.position.y <= 0 {
        Entity {
            position: Vector { x: ex.position.x, y: 0 },
            velocity: Vector { x: ex.velocity.x, y: (-ex.velocity.y) as i32 },
            ..ex
        }
    } else {
        ex
    }
}

/// Integration followed by the wall bounce: one full motion step.
pub open spec fn spec_update(e: Entity, game_size: Vector) -> Entity {
    spec_bounce(spec_integrate(e), game_size)
}

/// The half-open rectangle test: `point` lies within the entity's box.
pub open spec fn spec_point_inside(e: Entity, point: Vector) -> bool {
    &&& point.x >= e.position.x
    &&& point.x < e.position.x + e.size.x
    &&& point.y >= e.position.y
    &&& point.y < e.position.y + e.size.y
}

/// An entity below the bottom edge of the playfield is no longer alive.
pub open spec fn spec_mark_off_screen(e: Entity, bounds: Vector) -> Entity {
    if e.position.y > bounds.y {
        Entity { is_alive: false, ..e }
    } else {
        e
    }
}

/// The glyph that shows an entity's damage tier: its own character
/// while unharmed, then `/`, `\` and finally `#`.
pub open spec fn spec_damage_glyph(e: Entity) -> char {
    let damage = e.original_health - e.health;
    if damage == 0 {
        e.character
    } else if damage == 1 {
        '/'
    } else if damage == 2 {
        '\\'
    } else {
        '#'
    }
}

/// One terminal cell of a rendered entity: where to paint, which glyph,
/// and with which colors.
#[derive(Clone, Copy, Debug, PartialEq, Eq, Structural)]
pub struct Cell {
    pub x: i32,
    pub y: i32,
    pub glyph: char,
    pub fg_black: bool,
    pub bg_color: Color,
}

/// The cell an entity paints at offset `(row, col)` within its box.
pub open spec fn spec_cell(e: Entity, row: int, col: int) -> Cell {
    Cell {
        x: (e.position.x + row) as i32,
        y: (e.position.y + col) as i32,
        glyph: spec_damage_glyph(e),
        fg_black: e.health < e.original_health,
        bg_color: e.bg_color,
    }
}

/// The column of cells an entity paints at horizontal offset `row`.
pub open spec fn spec_cell_column(e: Entity, row: int) -> Seq<Cell> {
    Seq::new(
        if e.size.y > 0 {
            e.size.y as nat
        } else {
            0
        },
        |col: int| spec_cell(e, row, col),
    )
}

/// The first `rows` columns of an entity's cells, in paint order.
pub open spec fn spec_cells_upto(e: Entity, rows: int) -> Seq<Cell>
    decreases rows,
{
    if rows <= 0 {
        Seq::empty()
    } else {
        spec_cells_upto(e, rows - 1) + spec_cell_column(e, rows - 1)
    }
}

/// Every cell an entity paints, column by column from its position.
pub open spec fn spec_cells(e: Entity) -> Seq<Cell> {
    spec_cells_upto(e, e.size.x as int)
}

impl Entity {
    /// A fresh entity at rest: full health, alive, and its starting
    /// health remembered both as the damage baseline and as the point
    /// value it is worth when destroyed.
    pub fn new(position: Vector, size: Vector, character: char, bg_color: Color, health: u32) -> (e:
        Entity)
        ensures
            e == (Entity {
                position,
                size,
                character,
                velocity: Vector { x: 0, y: 0 },
                is_alive: true,
                bg_color,
                health,
                original_health: health,
                value: health,
            }),
    {
        Entity {
            position,
            size,
            character,
            velocity: Vector::zero(),
            is_alive: true,
            bg_color,
            health,
            original_health: health,
            value: health,
        }
    }

    /// A one-shot impulse: the force is added to the velocity.
    pub fn apply_force(&mut self, force: Vector)
        requires
            i32::MIN <= old(self).velocity.x + force.x <= i32::MAX,
            i32::MIN <= old(self).velocity.y + force.y <= i32::MAX,
        ensures
            *final(self) == (Entity {
                velocity: Vector {
                    x: (old(self).velocity.x + force.x) as i32,
                    y: (old(self).velocity.y + force.y) as i32,
                },
                ..*old(self)
            }),
    {
        self.velocity.add_assign(force);
    }

    /// Advance the position by the velocity.
    pub fn apply_velocity(&mut self)
        requires
            i32::MIN <= old(self).position.x + old(self).velocity.x <= i32::MAX,
            i32::MIN <= old(self).position.y + old(self).velocity.y <= i32::MAX,
        ensures
            *final(self) == spec_integrate(*old(self)),
    {
        let v = self.velocity;
        self.position.add_assign(v);
    }

    /// One motion step: integrate, then bounce off the walls.
    pub fn update(&mut self, game_size: Vector)
        requires
            i32::MIN <= old(self).position.x + old(self).velocity.x <= i32::MAX,
            i32::MIN <= old(self).position.y + old(self).velocity.y <= i32::MAX,
            old(self).velocity.x > i32::MIN,
            old(self).velocity.y > i32::MIN,
            game_size.x > i32::MIN,
        ensures
            *final(self) == spec_update(*old(self), game_size),
            final(self).position.y >= 0,
            game_size.x >= 1 ==> 0 <= final(self).position.x <= game_size.x - 1,
    {
        self.apply_velocity();
        self.bounce_off_walls(&game_size);
    }

    /// Clamp to the left, right and top walls, reflecting the velocity
    /// component that drove into them. The bottom edge never bounces:
    /// that is where the ball is lost.
    pub fn bounce_off_walls(&mut self, game_size: &Vector)
        requires
            old(self).velocity.x > i32::MIN,
            old(self).velocity.y > i32::MIN,
            game_size.x > i32::MIN,
        ensures
            *final(self) == spec_bounce(*old(self), *game_size),
            final(self).position.y >= 0,
            game_size.x >= 1 ==> 0 <= final(self).position.x <= game_size.x - 1,
    {
        if self.position.x <= 0 {
            self.position.x = 0;
            self.velocity.x = -self.velocity.x;
        } else if self.position.x >= game_size.x - 1 {
            self.position.x = game_size.x - 1;
            self.velocity.x = -self.velocity.x;
        }

        if self.position.y <= 0 {
            self.position.y = 0;
            self.velocity.y = -self.velocity.y;
        }
    }

    /// The half-open rectangle test for a single point.
    pub fn is_point_inside(&self, point: &Vector) -> (inside: bool)
        requires
            i32::MIN <= self.position.x + self.size.x <= i32::MAX,
            i32::MIN <= self.position.y + self.size.y <= i32::MAX,
        ensures
            inside == spec_point_inside(*self, *point),
    {
        point.x >= self.position.x && point.x < self.position.x + self.size.x && point.y
            >= self.position.y && point.y < self.position.y + self.size.y
    }

    /// Where the entity stood before its last integration step.
    pub fn previous_location(&self) -> (loc: Vector)
        requires
            i32::MIN <= self.position.x - self.velocity.x <= i32::MAX,
            i32::MIN <= self.position.y - self.velocity.y <= i32::MAX,
        ensures
            loc.x == self.position.x - self.velocity.x,
            loc.y == self.position.y - self.velocity.y,
    {
        self.position.sub(self.velocity)
    }

    /// Lose one point of health, floored at zero: the count never
    /// wraps below empty.
    pub fn lose_health(&mut self)
        ensures
            *final(self) == (Entity {
                health: if old(self).health == 0 {
                    0u32
                } else {
                    (old(self).health - 1) as u32
                },
                ..*old(self)
            }),
    {
        if self.health > 0 {
            self.health = self.health - 1;
        }
    }

    /// Mark the entity as gone once it has fallen past the bottom edge.
    pub fn mark_off_screen(&mut self, bounds: &Vector)
        ensures
            *final(self) == spec_mark_off_screen(*old(self), *bounds),
            final(self).is_alive == (old(self).is_alive && old(self).position.y <= bounds.y),
    {
        if self.position.y > bounds.y {
            self.is_alive = false;
        }
    }

    /// The damage-tier glyph this entity currently shows.
    pub fn damage_glyph(&self) -> (glyph: char)
        requires
            self.health <= self.original_health,
            self.original_health - self.health <= 3,
        ensures
            glyph == spec_damage_glyph(*self),
    {
        let damage = self.original_health - self.health;
        if damage == 0 {
            self.character
        } else if damage == 1 {
            '/'
        } else if damage == 2 {
            '\\'
        } else {
            '#'
        }
    }

    /// The cells this entity paints, column by column: one cell per
    /// coordinate of its rectangle, all showing the damage-tier glyph,
    /// with a black foreground once the entity has taken damage.
    pub fn draw(&self) -> (cells: Vec<Cell>)
        requires
            self.health <= self.original_health,
            self.original_health - self.health <= 3,
            self.position.x + self.size.x <= i32::MAX,
            self.position.y + self.size.y <= i32::MAX,
        ensures
            cells@ == spec_cells(*self),
    {
        let mut cells: Vec<Cell> = Vec::new();
        let glyph = self.damage_glyph();
        let fg_black = self.health < self.original_health;
        let mut row: i32 = 0;
        assert(spec_cells_upto(*self, 0) =~= Seq::<Cell>::empty());
        if self.size.x <= 0 {
            return cells;
        }
        while row < self.size.x
            invariant
                0 <= row <= self.size.x,
                self.position.x + self.size.x <= i32::MAX,
                self.position.y + self.size.y <= i32::MAX,
                self.health <= self.original_health,
                self.original_health - self.health <= 3,
                glyph == spec_damage_glyph(*self),
                fg_black == (self.health < self.original_health),
                cells@ == spec_cells_upto(*self, row as int),
            decreases self.size.x - row,
        {
            let mut col: i32 = 0;
            assert(spec_cell_column(*self, row as int).take(0) =~= Seq::<Cell>::empty());
            while col < self.size.y
                invariant
                    0 <= row < self.size.x,
                    0 <= col,
                    self.size.y > 0 ==> col <= self.size.y,
                    self.size.y <= 0 ==> col == 0,
                    self.position.x + self.size.x <= i32::MAX,
                    self.position.y + self.size.y <= i32::MAX,
                    glyph == spec_damage_glyph(*self),
                    fg_black == (self.health < self.original_health),
                    cells@ == spec_cells_upto(*self, row as int) + spec_cell_column(
                        *self,
                        row as int,
                    ).take(col as int),
                decreases self.size.y - col,
            {
                cells.push(
                    Cell {
                        x: self.position.x + row,
                        y: self.position.y + col,
                        glyph,
                        fg_black,
                        bg_color: self.bg_color,
                    },
                );
                proof {
                    assert(spec_cell_column(*self, row as int).take(col + 1)
                        =~= spec_cell_column(*self, row as int).take(col as int).push(
                        spec_cell(*self, row as int, col as int)));
                }
                col = col + 1;
            }
            proof {
                assert(spec_cell_column(*self, row as int).take(col as int) =~= spec_cell_column(
                    *self,
                    row as int,
                ));
            }
            row = row + 1;
        }
        cells
    }
}

} // verus!
