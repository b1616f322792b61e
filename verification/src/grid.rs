use vstd::prelude::*;

use crate::direction::Direction;

verus! {

/// One grid position: `x` counts columns from the left, `y` counts rows from
/// the top. Equality is structural.
#[derive(Clone, Copy, Debug, PartialEq, Eq, Structural)]
pub struct Cell {
    pub x: u32,
    pub y: u32,
}

/// `c` lies on a `width` by `height` board.
pub open spec fn cell_in_grid(c: Cell, width: u32, height: u32) -> bool {
    c.x < width && c.y < height
}

/// The cell one step from `c` in direction `d` on a toroidal `width` by
/// `height` board: stepping past an edge re-enters from the opposite edge.
pub open spec fn step_cell(c: Cell, d: Direction, width: u32, height: u32) -> Cell {
    match d {
        Direction::Up => Cell {
            x: c.x,
            y: if c.y == 0 { (height - 1) as u32 } else { (c.y - 1) as u32 },
        },
        Direction::Down => Cell {
            x: c.x,
            y: if c.y + 1 == height { 0u32 } else { (c.y + 1) as u32 },
        },
        Direction::Left => Cell {
            x: if c.x == 0 { (width - 1) as u32 } else { (c.x - 1) as u32 },
            y: c.y,
        },
        Direction::Right => Cell {
            x: if c.x + 1 == width { 0u32 } else { (c.x + 1) as u32 },
            y: c.y,
        },
    }
}

/// Move one cell from `c` in direction `d`, wrapping around both axes.
pub fn step(c: Cell, d: Direction, width: u32, height: u32) -> (r: Cell)
    requires
        1 <= width,
        1 <= height,
        cell_in_grid(c, width, height),
    ensures
        r == step_cell(c, d, width, height),
        cell_in_grid(r, width, height),
{
    match d {
        Direction::Up => Cell { x: c.x, y: if c.y == 0 { height - 1 } else { c.y - 1 } },
        Direction::Down => Cell { x: c.x, y: if c.y + 1 == height { 0 } else { c.y + 1 } },
        Direction::Left => Cell { x: if c.x == 0 { width - 1 } else { c.x - 1 }, y: c.y },
        Direction::Right => Cell { x: if c.x + 1 == width { 0 } else { c.x + 1 }, y: c.y },
    }
}

/// Wrap-around law: a step off an edge of the board re-enters from the
/// opposite edge, and a step from anywhere else moves by one cell.
pub proof fn lemma_wrap_around(c: Cell, width: u32, height: u32)
    requires
        1 <= width,
        1 <= height,
        cell_in_grid(c, width, height),
    ensures
        c.x == 0 ==> step_cell(c, Direction::Left, width, height).x == width - 1,
        c.x != 0 ==> step_cell(c, Direction::Left, width, height).x == c.x - 1,
        c.y == 0 ==> step_cell(c, Direction::Up, width, height).y == height - 1,
        c.y != 0 ==> step_cell(c, Direction::Up, width, height).y == c.y - 1,
        c.x == width - 1 ==> step_cell(c, Direction::Right, width, height).x == 0,
        c.x != width - 1 ==> step_cell(c, Direction::Right, width, height).x == c.x + 1,
        c.y == height - 1 ==> step_cell(c, Direction::Down, width, height).y == 0,
        c.y != height - 1 ==> step_cell(c, Direction::Down, width, height).y == c.y + 1,
{
}

} // verus!
