//! The destructible targets and their layout.
use vstd::prelude::*;
use vstd::arithmetic::div_mod::lemma_fundamental_div_mod_converse;
use crate::color::Color;
use crate::constants::{BALL_RADIUS, WINDOW_W};
use crate::fixed::{HALF, ONE};
use crate::math::{Rectangle, Vector2};

verus! {

/// Width of a brick.
pub const WIDTH: i32 = 60 * ONE;

/// Height of a brick.
pub const HEIGHT: i32 = 20 * ONE;

/// Gap between neighbouring bricks, in both directions.
pub const SPACING: i32 = 20 * ONE;

/// Distance of the first row from the top of the arena.
pub const START_Y: i32 = 100 * ONE;

/// A rectangular target. A brick that was hit stays in its collection with
/// `active` cleared, so that the indices of the others do not move.
#[derive(Clone, Copy, Debug, PartialEq, Eq, Structural)]
pub struct Brick {
    /// Top-left corner.
    pub pos: Vector2,
    pub width: i32,
    pub height: i32,
    pub active: bool,
    pub color: Color,
}

impl Brick {
    /// An intact brick of the standard size at `pos`.
    pub open spec fn intact(pos: Vector2, color: Color) -> Brick {
        Brick { pos, width: WIDTH, height: HEIGHT, active: true, color }
    }

    /// This brick, destroyed.
    pub open spec fn destroyed(self) -> Brick {
        Brick { active: false, ..self }
    }

    /// This brick, active again.
    pub open spec fn restored(self) -> Brick {
        Brick { active: true, ..self }
    }

    /// The rectangle that the brick covers.
    pub open spec fn outline(self) -> Rectangle {
        Rectangle { x: self.pos.x, y: self.pos.y, width: self.width, height: self.height }
    }

    /// The brick has a size and lies more than a ball's width away from the
    /// top and from both side walls, so that a ball of the standard radius
    /// that touches one of them cannot reach the brick.
    pub open spec fn clear_of_walls(self) -> bool {
        &&& self.width >= 0
        &&& self.height >= 0
        &&& self.pos.x > 2 * BALL_RADIUS
        &&& self.pos.x + self.width < WINDOW_W - 2 * BALL_RADIUS
        &&& self.pos.y > 2 * BALL_RADIUS
    }

    /// The colour of the bricks of a generated layout.
    pub open spec fn tint() -> Color {
        Color::off_white().faded(HALF)
    }

    /// The x coordinate of the first column of a layout of `cols` columns:
    /// the columns, each followed by its gap, are centred in the arena.
    pub open spec fn start_x(cols: u8) -> int {
        (WINDOW_W - cols * (WIDTH + SPACING)) / 2
    }

    /// The corner of the brick in row `row` and column `col` of a layout of
    /// `cols` columns.
    pub open spec fn slot(cols: u8, row: int, col: int) -> Vector2 {
        Vector2 {
            x: (Brick::start_x(cols) + col * (WIDTH + SPACING)) as i32,
            y: (START_Y + row * (HEIGHT + SPACING)) as i32,
        }
    }

    /// The layout of `rows` rows and `cols` columns, row by row from the top,
    /// each row from the left.
    pub open spec fn layout(rows: u8, cols: u8) -> Seq<Brick> {
        Seq::new(
            (rows * cols) as nat,
            |i: int| Brick::intact(Brick::slot(cols, i / (cols as int), i % (cols as int)), Brick::tint()),
        )
    }

    pub fn new(pos: Vector2, color: Color) -> (b: Brick)
        ensures
            b == Brick::intact(pos, color),
    {
        Brick { pos, width: WIDTH, height: HEIGHT, active: true, color }
    }

    pub fn die(&mut self)
        ensures
            *final(self) == old(self).destroyed(),
    {
        self.active = false;
    }

    pub fn bound(&self) -> (r: Rectangle)
        ensures
            r == self.outline(),
    {
        Rectangle::new(self.pos.x, self.pos.y, self.width, self.height)
    }

    /// The layout of a session: four rows of ten bricks.
    pub fn generate() -> (bricks: Vec<Brick>)
        ensures
            bricks@ == Brick::layout(4, 10),
    {
        Brick::generate_simple(4, 10)
    }

    /// A grid of `rows` by `cols` intact bricks.
    pub fn generate_simple(rows: u8, cols: u8) -> (bricks: Vec<Brick>)
        ensures
            bricks@ == Brick::layout(rows, cols),
    {
        let mut bricks: Vec<Brick> = Vec::new();
        let pitch_x: i32 = WIDTH + SPACING;
        let pitch_y: i32 = HEIGHT + SPACING;
        let start_x: i32 = (WINDOW_W - (cols as i32) * pitch_x) / 2;
        let color = Color::raywhite().alpha(HALF);
        let ghost target = Brick::layout(rows, cols);
        let mut r: u8 = 0;
        while r < rows
            invariant
                r <= rows,
                pitch_x == 80 * 65536,
                pitch_y == 40 * 65536,
                start_x == Brick::start_x(cols),
                color == Brick::tint(),
                target == Brick::layout(rows, cols),
                bricks@.len() == r * cols,
                bricks@.len() <= target.len(),
                forall|i: int| 0 <= i < bricks@.len() ==> bricks@[i] == target[i],
            decreases rows - r,
        {
            let mut c: u8 = 0;
            while c < cols
                invariant
                    r < rows,
                    c <= cols,
                    pitch_x == 80 * 65536,
                    pitch_y == 40 * 65536,
                    start_x == Brick::start_x(cols),
                    color == Brick::tint(),
                    target == Brick::layout(rows, cols),
                    bricks@.len() == r * cols + c,
                    bricks@.len() <= target.len(),
                    forall|i: int| 0 <= i < bricks@.len() ==> bricks@[i] == target[i],
                decreases cols - c,
            {
                proof {
                    let i: int = r * cols + c;
                    lemma_fundamental_div_mod_converse(i, cols as int, r as int, c as int);
                    lemma_grid_index(r as int, c as int, rows as int, cols as int);
                }
                let pos = Vector2 {
                    x: start_x + (c as i32) * pitch_x,
                    y: START_Y + (r as i32) * pitch_y,
                };
                bricks.push(Brick::new(pos, color));
                c = c + 1;
            }
            proof {
                assert((r + 1) * cols == r * cols + cols) by (nonlinear_arith);
            }
            r = r + 1;
        }
        bricks
    }
}

/// Every brick of the standard layout is intact, of the standard size, in
/// its place in the grid, and clear of the walls.
pub proof fn lemma_standard_layout(i: int)
    requires
        0 <= i < 40,
    ensures
        Brick::layout(4, 10).len() == 40,
        Brick::layout(4, 10)[i] == Brick::intact(
            Vector2 { x: (50 * ONE + (i % 10) * 80 * ONE) as i32, y: (100 * ONE + (i / 10) * 40 * ONE) as i32 },
            Brick::tint(),
        ),
        Brick::layout(4, 10)[i].active,
        Brick::layout(4, 10)[i].clear_of_walls(),
{
}

/// The index of a cell of a grid lies below the number of its cells.
pub proof fn lemma_grid_index(r: int, c: int, rows: int, cols: int)
    by (nonlinear_arith)
    requires
        0 <= r < rows,
        0 <= c < cols,
    ensures
        0 <= r * cols + c < rows * cols,
{
}

} // verus!
