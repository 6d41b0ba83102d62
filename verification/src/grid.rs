//! The mathematical model shared by frames and the playfield: a grid of
//! occupancy bits, held as a sequence of rows from top to bottom.

use vstd::prelude::*;

verus! {

/// Rows from top to bottom; each row holds its cells from left to right.
pub type Grid = Seq<Seq<bool>>;

/// `g` has `height` rows of `width` cells each.
pub open spec fn is_grid(g: Grid, width: int, height: int) -> bool {
    &&& g.len() == height
    &&& forall|y: int| 0 <= y < height ==> (#[trigger] g[y]).len() == width
}

/// Whether cell `(x, y)` is filled; a cell outside the grid counts as empty.
pub open spec fn cell(g: Grid, x: int, y: int) -> bool {
    0 <= y < g.len() && 0 <= x < g[y].len() && g[y][x]
}

/// A row without a filled cell.
pub open spec fn blank_row(width: int) -> Seq<bool> {
    Seq::new(width as nat, |x: int| false)
}

/// A grid without a filled cell.
pub open spec fn blank(width: int, height: int) -> Grid {
    Seq::new(height as nat, |y: int| blank_row(width))
}

/// Every cell of the row is filled.
pub open spec fn row_full(row: Seq<bool>) -> bool {
    forall|x: int| 0 <= x < row.len() ==> row[x]
}

} // verus!
