//! The playfield: a fixed grid of cells that landed pieces fill, with the
//! collision test that gates every move and the compaction that removes
//! completed lines.

use vstd::prelude::*;

use crate::geometry::Point;
use crate::grid::{blank, cell, is_grid, row_full, Grid};
use crate::tetromino::{Frame, FRAME_SIDE};
use crate::Number;

verus! {

/// Number of columns of the playfield.
pub const FIELD_WIDTH: usize = 10;

/// Number of rows of the playfield.
pub const FIELD_HEIGHT: usize = 18;

/// Row `y` lies in the grid and every cell of it is filled.
pub open spec fn line_filled(g: Grid, y: int) -> bool {
    0 <= y < g.len() && row_full(g[y])
}

/// Some row of the grid is completely filled.
pub open spec fn any_line_filled(g: Grid) -> bool {
    exists|y: int| line_filled(g, y)
}

/// The frame's cell `(i, j)`, with the frame anchored at `p`, is filled and
/// comes to lie left of the field, right of it, below it, or on a filled cell.
/// A cell above the top edge blocks nothing.
pub open spec fn blocked(g: Grid, frame: Grid, p: Point, i: int, j: int) -> bool {
    &&& cell(frame, i, j)
    &&& (p.x + i < 0 || p.x + i >= FIELD_WIDTH || p.y + j >= FIELD_HEIGHT || cell(
        g,
        p.x + i,
        p.y + j,
    ))
}

/// Placing the frame with its top-left corner at `p` is illegal: its bounding
/// box is wholly left of the field, starts at or right of the right edge or at
/// or below the bottom edge, or one of its filled cells is blocked.
pub open spec fn collides(g: Grid, frame: Grid, p: Point) -> bool {
    ||| p.x + FRAME_SIDE <= 0
    ||| p.x >= FIELD_WIDTH
    ||| p.y >= FIELD_HEIGHT
    ||| exists|i: int, j: int|
        0 <= i < FRAME_SIDE && 0 <= j < FRAME_SIDE && blocked(g, frame, p, i, j)
}

/// The grid with the filled cells of the frame, anchored at `p`, added to it.
/// Frame cells that fall outside the grid are dropped.
pub open spec fn merged(g: Grid, frame: Grid, p: Point) -> Grid {
    Seq::new(
        g.len(),
        |y: int| Seq::new(g[y].len(), |x: int| g[y][x] || cell(frame, x - p.x, y - p.y)),
    )
}

/// The rows that are not completely filled, in their order from top to bottom.
pub open spec fn kept_rows(g: Grid) -> Grid {
    g.filter(|row: Seq<bool>| !row_full(row))
}

/// The number of completely filled rows.
pub open spec fn full_lines(g: Grid) -> nat {
    g.filter(|row: Seq<bool>| row_full(row)).len()
}

/// The grid after its completed lines are removed: the remaining rows, in
/// their order, stacked at the bottom, under as many empty rows as lines
/// were removed.
pub open spec fn compacted(g: Grid) -> Grid {
    blank(FIELD_WIDTH as int, full_lines(g) as int) + kept_rows(g)
}

/// Putting one more row on top of a stack adds it to the kept rows or to the
/// count of completed lines, as the row is partly or completely filled.
proof fn lemma_row_on_top(row: Seq<bool>, below: Grid)
    ensures
        kept_rows(seq![row] + below) == if row_full(row) {
            kept_rows(below)
        } else {
            seq![row] + kept_rows(below)
        },
        full_lines(seq![row] + below) == if row_full(row) {
            full_lines(below) + 1
        } else {
            full_lines(below)
        },
{
    let keep = |r: Seq<bool>| !row_full(r);
    let full = |r: Seq<bool>| row_full(r);
    let one = seq![row];
    Seq::filter_distributes_over_add(one, below, keep);
    Seq::filter_distributes_over_add(one, below, full);
    reveal_with_fuel(Seq::filter, 2);
}

/// Filtering keeps a sequence whose items all pass and empties one whose items all fail.
proof fn lemma_filter_uniform<A>(s: Seq<A>, pred: spec_fn(A) -> bool)
    ensures
        (forall|i: int| 0 <= i < s.len() ==> pred(#[trigger] s[i])) ==> s.filter(pred) == s,
        (forall|i: int| 0 <= i < s.len() ==> !pred(#[trigger] s[i])) ==> s.filter(pred)
            == Seq::<A>::empty(),
    decreases s.len(),
{
    reveal(Seq::filter);
    if s.len() > 0 {
        lemma_filter_uniform(s.drop_last(), pred);
    }
}

/// Compaction of a stack of rows without a completed line under a stack of
/// completed lines: the first stack sinks to the bottom unchanged.
proof fn lemma_compact_split(top: Grid, bottom: Grid)
    requires
        forall|y: int| 0 <= y < top.len() ==> !row_full(#[trigger] top[y]),
        forall|y: int| 0 <= y < bottom.len() ==> row_full(#[trigger] bottom[y]),
    ensures
        kept_rows(top + bottom) == top,
        full_lines(top + bottom) == bottom.len(),
{
    let keep = |r: Seq<bool>| !row_full(r);
    let full = |r: Seq<bool>| row_full(r);
    Seq::filter_distributes_over_add(top, bottom, keep);
    Seq::filter_distributes_over_add(top, bottom, full);
    lemma_filter_uniform(top, keep);
    lemma_filter_uniform(top, full);
    lemma_filter_uniform(bottom, keep);
    lemma_filter_uniform(bottom, full);
}

/// A field without a completed line is left as it is, and nothing is counted.
/// The empty field is such a field.
pub proof fn lemma_compact_without_lines(g: Grid)
    requires
        is_grid(g, FIELD_WIDTH as int, FIELD_HEIGHT as int),
        forall|y: int| 0 <= y < FIELD_HEIGHT ==> !line_filled(g, y),
    ensures
        full_lines(g) == 0,
        compacted(g) == g,
        !row_full(crate::grid::blank_row(FIELD_WIDTH as int)),
{
    assert forall|y: int| 0 <= y < g.len() implies !row_full(#[trigger] g[y]) by {
        assert(!line_filled(g, y));
    }
    lemma_compact_split(g, Seq::<Seq<bool>>::empty());
    assert(!crate::grid::blank_row(FIELD_WIDTH as int)[0]);
}

/// When exactly the `k` bottom rows are completed lines, all `k` are counted
/// and removed and the rows above sink to the bottom. If those rows were
/// empty, the whole field is empty afterwards; with `k` the height of the
/// field this is the field filled in every cell.
pub proof fn lemma_compact_bottom_lines(g: Grid, k: int)
    requires
        is_grid(g, FIELD_WIDTH as int, FIELD_HEIGHT as int),
        0 <= k <= FIELD_HEIGHT,
        forall|y: int| 0 <= y < FIELD_HEIGHT - k ==> !line_filled(g, y),
        forall|y: int| FIELD_HEIGHT - k <= y < FIELD_HEIGHT ==> line_filled(g, y),
    ensures
        full_lines(g) == k,
        compacted(g) == blank(FIELD_WIDTH as int, k) + g.subrange(0, FIELD_HEIGHT - k),
        (forall|y: int| 0 <= y < FIELD_HEIGHT - k ==> g[y] == crate::grid::blank_row(
            FIELD_WIDTH as int,
        )) ==> compacted(g) == blank(FIELD_WIDTH as int, FIELD_HEIGHT as int),
{
    let top = g.subrange(0, FIELD_HEIGHT - k);
    let bottom = g.subrange(FIELD_HEIGHT - k, FIELD_HEIGHT as int);
    assert(g =~= top + bottom);
    assert forall|y: int| 0 <= y < top.len() implies !row_full(#[trigger] top[y]) by {
        assert(!line_filled(g, y));
    }
    assert forall|y: int| 0 <= y < bottom.len() implies row_full(#[trigger] bottom[y]) by {
        assert(line_filled(g, y + FIELD_HEIGHT - k));
    }
    lemma_compact_split(top, bottom);
}

/// What is kept and counted when row `r` is the only completed line.
proof fn lemma_single_line_parts(g: Grid, r: int)
    requires
        g.len() == FIELD_HEIGHT,
        0 <= r < FIELD_HEIGHT,
        forall|y: int| 0 <= y < FIELD_HEIGHT ==> (row_full(#[trigger] g[y]) <==> y == r),
    ensures
        kept_rows(g) == g.subrange(0, r) + g.subrange(r + 1, FIELD_HEIGHT as int),
        full_lines(g) == 1,
{
    let keep = |row: Seq<bool>| !row_full(row);
    let full = |row: Seq<bool>| row_full(row);
    let top = g.subrange(0, r);
    let below = g.subrange(r + 1, FIELD_HEIGHT as int);
    let rest = seq![g[r]] + below;
    assert(g =~= top + rest);
    lemma_row_on_top(g[r], below);
    lemma_filter_uniform(top, keep);
    lemma_filter_uniform(top, full);
    lemma_filter_uniform(below, keep);
    lemma_filter_uniform(below, full);
    Seq::filter_distributes_over_add(top, rest, keep);
    Seq::filter_distributes_over_add(top, rest, full);
}

/// When row `r` is the only completed line, one line is counted, the top row
/// becomes empty, every row above `r` moves down by one with its content and
/// order kept, and the rows below `r` stay where they are.
pub proof fn lemma_compact_single_line(g: Grid, r: int)
    requires
        is_grid(g, FIELD_WIDTH as int, FIELD_HEIGHT as int),
        0 <= r < FIELD_HEIGHT,
        forall|y: int| 0 <= y < FIELD_HEIGHT ==> (line_filled(g, y) <==> y == r),
    ensures
        full_lines(g) == 1,
        is_grid(compacted(g), FIELD_WIDTH as int, FIELD_HEIGHT as int),
        compacted(g)[0] == crate::grid::blank_row(FIELD_WIDTH as int),
        forall|y: int| 1 <= y <= r ==> compacted(g)[y] == g[y - 1],
        forall|y: int| r < y < FIELD_HEIGHT ==> compacted(g)[y] == g[y],
{
    assert forall|y: int| 0 <= y < FIELD_HEIGHT implies (row_full(#[trigger] g[y]) <==> y == r) by {
        assert(line_filled(g, y) <==> y == r);
    }
    lemma_single_line_parts(g, r);
}

/// Every row is either kept or counted as a completed line.
proof fn lemma_rows_partition(g: Grid)
    ensures
        kept_rows(g).len() + full_lines(g) == g.len(),
    decreases g.len(),
{
    let keep = |row: Seq<bool>| !row_full(row);
    let full = |row: Seq<bool>| row_full(row);
    if g.len() > 0 {
        lemma_rows_partition(g.drop_last());
        assert(g =~= g.drop_last().push(g.last()));
        g.drop_last().lemma_filter_push(g.last(), keep);
        g.drop_last().lemma_filter_push(g.last(), full);
    } else {
        lemma_filter_uniform(g, keep);
        lemma_filter_uniform(g, full);
    }
}

/// Compaction keeps the size of the field and leaves no completed line
/// behind: as many rows at the top as lines were removed are empty, and
/// every row below them is one of the rows that were not completed.
pub proof fn lemma_compacted_has_no_line(g: Grid)
    requires
        is_grid(g, FIELD_WIDTH as int, FIELD_HEIGHT as int),
    ensures
        is_grid(compacted(g), FIELD_WIDTH as int, FIELD_HEIGHT as int),
        0 <= full_lines(g) <= FIELD_HEIGHT,
        forall|y: int| 0 <= y < full_lines(g) ==> compacted(g)[y] == crate::grid::blank_row(
            FIELD_WIDTH as int,
        ),
        !any_line_filled(compacted(g)),
{
    let keep = |row: Seq<bool>| !row_full(row);
    let packed = compacted(g);
    let lines = full_lines(g) as int;
    lemma_rows_partition(g);
    assert forall|y: int| 0 <= y < FIELD_HEIGHT implies (#[trigger] packed[y]).len() == FIELD_WIDTH
        && !row_full(packed[y]) by {
        if y < lines {
            assert(!packed[y][0]);
        } else {
            g.lemma_filter_pred(keep, y - lines);
            g.lemma_filter_contains_rev(keep, kept_rows(g)[y - lines]);
        }
    }
}

/// The two extremes. Cleaning a field without a filled cell removes nothing
/// and leaves it as it is; cleaning a field filled in every cell removes as
/// many lines as the field is high and leaves it empty.
pub proof fn lemma_compact_extremes(g: Grid)
    requires
        is_grid(g, FIELD_WIDTH as int, FIELD_HEIGHT as int),
    ensures
        (forall|x: int, y: int| 0 <= x < FIELD_WIDTH && 0 <= y < FIELD_HEIGHT ==> !g[y][x])
            ==> full_lines(g) == 0 && compacted(g) == g,
        (forall|x: int, y: int| 0 <= x < FIELD_WIDTH && 0 <= y < FIELD_HEIGHT ==> g[y][x])
            ==> full_lines(g) == FIELD_HEIGHT && compacted(g) == blank(
            FIELD_WIDTH as int,
            FIELD_HEIGHT as int,
        ),
{
    if forall|x: int, y: int| 0 <= x < FIELD_WIDTH && 0 <= y < FIELD_HEIGHT ==> !g[y][x] {
        assert forall|y: int| 0 <= y < FIELD_HEIGHT implies !line_filled(g, y) by {
            assert(!g[y][0]);
        }
        lemma_compact_without_lines(g);
    }
    if forall|x: int, y: int| 0 <= x < FIELD_WIDTH && 0 <= y < FIELD_HEIGHT ==> g[y][x] {
        lemma_compact_bottom_lines(g, FIELD_HEIGHT as int);
    }
}

/// A frame whose bounding box lies wholly left of the field, or begins at or
/// beyond its right edge or at or below its bottom edge, collides whatever
/// the frame and the field hold.
pub proof fn lemma_collides_outside(g: Grid, frame: Grid, p: Point)
    requires
        p.x <= -FRAME_SIDE || p.x >= FIELD_WIDTH || p.y >= FIELD_HEIGHT,
    ensures
        collides(g, frame, p),
{
}

/// A frame anchored two rows above the field is in a legal position whenever
/// its filled cells stay within the columns of the field and the two top rows
/// of the field are empty under them: the cells above the top edge never
/// collide.
pub proof fn lemma_legal_above_top(g: Grid, frame: Grid, x: Number)
    requires
        is_grid(g, FIELD_WIDTH as int, FIELD_HEIGHT as int),
        is_grid(frame, FRAME_SIDE as int, FRAME_SIDE as int),
        -FRAME_SIDE < x < FIELD_WIDTH,
        forall|i: int, j: int|
            0 <= i < FRAME_SIDE && 0 <= j < FRAME_SIDE && #[trigger] cell(frame, i, j) ==> 0 <= x
                + i < FIELD_WIDTH,
        forall|i: int, j: int|
            0 <= i < FRAME_SIDE && 2 <= j < FRAME_SIDE && #[trigger] cell(frame, i, j) ==> !g[j
                - 2][x + i],
    ensures
        !collides(g, frame, Point { x, y: -2i32 }),
{
}

/// The playfield. A cell is either empty or filled for good by a fragment of
/// a landed piece; the falling piece is never part of it.
pub struct Field {
    squares: [bool; 180],
}

impl View for Field {
    type V = Grid;

    closed spec fn view(&self) -> Grid {
        Seq::new(18, |y: int| Seq::new(10, |x: int| self.squares[x + 10 * y]))
    }
}

impl Field {
    /// The playfield always has its fixed dimensions.
    pub proof fn lemma_shape(&self)
        ensures
            is_grid(self@, FIELD_WIDTH as int, FIELD_HEIGHT as int),
    {
    }

    /// An empty playfield.
    pub fn new() -> (field: Field)
        ensures
            field@ == blank(FIELD_WIDTH as int, FIELD_HEIGHT as int),
    {
        let field = Field { squares: [false; 180] };
        assert(field@ =~~= blank(FIELD_WIDTH as int, FIELD_HEIGHT as int));
        field
    }

    /// Reads the cell in column `x` of row `y`.
    fn get(&self, x: usize, y: usize) -> (b: bool)
        requires
            x < FIELD_WIDTH,
            y < FIELD_HEIGHT,
        ensures
            b == self@[y as int][x as int],
    {
        self.squares[crate::index(x, y, FIELD_WIDTH)]
    }

    /// Writes the cell in column `x` of row `y`; no other cell changes.
    fn set(&mut self, x: usize, y: usize, value: bool)
        requires
            x < FIELD_WIDTH,
            y < FIELD_HEIGHT,
        ensures
            final(self)@ == old(self)@.update(y as int, old(self)@[y as int].update(x as int, value)),
    {
        self.squares[crate::index(x, y, FIELD_WIDTH)] = value;
        assert forall|cy: int| 0 <= cy < 18 implies self@[cy] == old(self)@.update(
            y as int,
            old(self)@[y as int].update(x as int, value),
        )[cy] by {}
    }

    pub fn width() -> (w: Number)
        ensures
            w == FIELD_WIDTH,
    {
        10
    }

    pub fn height() -> (h: Number)
        ensures
            h == FIELD_HEIGHT,
    {
        18
    }

    /// Whether the cell at `p` is filled; a point outside the field is empty.
    pub fn is_filled(&self, p: Point) -> (b: bool)
        ensures
            b == cell(self@, p.x as int, p.y as int),
    {
        if 0 <= p.x && p.x < 10 && 0 <= p.y && p.y < 18 {
            self.get(p.x as usize, p.y as usize)
        } else {
            false
        }
    }

    /// Whether every cell of row `y` is filled; a row outside the field is not.
    pub fn is_line_filled(&self, y: Number) -> (b: bool)
        ensures
            b == line_filled(self@, y as int),
    {
        if 0 <= y && y < 18 {
            let row: usize = y as usize;
            let mut x: usize = 0;
            while x < 10
                invariant
                    row == y,
                    row < 18,
                    x <= 10,
                    forall|k: int| 0 <= k < x ==> self@[row as int][k],
                decreases 10 - x,
            {
                if !self.get(x, row) {
                    return false;
                }
                x += 1;
            }
            true
        } else {
            false
        }
    }

    /// Whether any row is completely filled.
    pub fn is_any_line_filled(&self) -> (b: bool)
        ensures
            b == any_line_filled(self@),
    {
        let mut y: Number = 0;
        while y < 18
            invariant
                0 <= y <= 18,
                forall|k: int| 0 <= k < y ==> !line_filled(self@, k),
            decreases 18 - y,
        {
            if self.is_line_filled(y) {
                return true;
            }
            y += 1;
        }
        false
    }

    /// Removes every completed line, lets the rows above drop into the gaps
    /// in their order, empties the rows vacated at the top, and returns the
    /// number of lines removed.
    pub fn clean_filled_lines(&mut self) -> (filled_lines: Number)
        ensures
            final(self)@ == compacted(old(self)@),
            filled_lines == full_lines(old(self)@),
    {
        let ghost before = self@;
        let mut filled_lines: Number = 0;
        let mut read_line: usize = FIELD_HEIGHT;
        let mut write_line: usize = FIELD_HEIGHT;
        while read_line > 0
            invariant
                read_line <= write_line <= 18,
                before.len() == 18,
                filled_lines == write_line - read_line,
                filled_lines == full_lines(before.subrange(read_line as int, 18)),
                forall|y: int| 0 <= y < read_line ==> self@[y] == before[y],
                self@.subrange(write_line as int, 18) == kept_rows(
                    before.subrange(read_line as int, 18),
                ),
            decreases read_line,
        {
            read_line -= 1;
            proof {
                lemma_row_on_top(before[read_line as int], before.subrange(read_line + 1, 18));
                assert(before.subrange(read_line as int, 18) =~= seq![before[read_line as int]]
                    + before.subrange(read_line + 1, 18));
            }
            if self.is_line_filled(read_line as Number) {
                filled_lines += 1;
            } else {
                write_line -= 1;
                let ghost prior = self@;
                if write_line != read_line {
                    let mut i: usize = 0;
                    while i < FIELD_WIDTH
                        invariant
                            read_line < write_line < 18,
                            i <= 10,
                            is_grid(prior, 10, 18),
                            is_grid(self@, 10, 18),
                            forall|y: int| 0 <= y < 18 && y != write_line ==> self@[y] == prior[y],
                            forall|x: int|
                                0 <= x < i ==> self@[write_line as int][x] == prior[read_line as int][x],
                        decreases 10 - i,
                    {
                        let value = self.get(i, read_line);
                        self.set(i, write_line, value);
                        i += 1;
                    }
                }
                assert(self@[write_line as int] =~= before[read_line as int]);
            }
        }
        assert(before.subrange(0, 18) =~= before);
        let ghost packed = self@;
        let mut j: usize = 0;
        while j < write_line
            invariant
                j <= write_line <= 18,
                is_grid(packed, 10, 18),
                is_grid(self@, 10, 18),
                forall|y: int| write_line <= y < 18 ==> self@[y] == packed[y],
                forall|y: int| 0 <= y < j ==> self@[y] == crate::grid::blank_row(10),
            decreases write_line - j,
        {
            let mut i: usize = 0;
            while i < FIELD_WIDTH
                invariant
                    j < write_line <= 18,
                    i <= 10,
                    is_grid(packed, 10, 18),
                    is_grid(self@, 10, 18),
                    forall|y: int| write_line <= y < 18 ==> self@[y] == packed[y],
                    forall|y: int| 0 <= y < j ==> self@[y] == crate::grid::blank_row(10),
                    forall|x: int| 0 <= x < i ==> !self@[j as int][x],
                decreases 10 - i,
            {
                self.set(i, j, false);
                i += 1;
            }
            j += 1;
        }
        filled_lines
    }

    /// Marks as filled every cell that a filled cell of the frame, anchored at
    /// `p`, covers. Cells of the frame outside the field are dropped.
    pub fn copy_frame(&mut self, frame: &Frame, p: Point)
        ensures
            final(self)@ == merged(old(self)@, frame@, p),
    {
        let ghost before = self@;
        proof {
            frame.lemma_shape();
        }
        let mut j: Number = 0;
        while j < 4
            invariant
                0 <= j <= 4,
                is_grid(frame@, 4, 4),
                forall|cx: int, cy: int|
                    0 <= cx < 10 && 0 <= cy < 18 ==> #[trigger] self@[cy][cx] == (before[cy][cx] || (
                    cell(frame@, cx - p.x, cy - p.y) && cy - p.y < j)),
            decreases 4 - j,
        {
            let mut i: Number = 0;
            while i < 4
                invariant
                    0 <= j < 4,
                    0 <= i <= 4,
                    is_grid(frame@, 4, 4),
                    forall|cx: int, cy: int|
                        0 <= cx < 10 && 0 <= cy < 18 ==> #[trigger] self@[cy][cx] == (before[cy][cx]
                            || (cell(frame@, cx - p.x, cy - p.y) && (cy - p.y < j || (cy - p.y == j
                            && cx - p.x < i)))),
                decreases 4 - i,
            {
                if frame.is_filled(Point::new(i, j)) {
                    let x: i64 = i as i64 + p.x as i64;
                    let y: i64 = j as i64 + p.y as i64;
                    if x >= 0 && x < 10 && y >= 0 && y < 18 {
                        self.set(x as usize, y as usize, true);
                    }
                }
                i += 1;
            }
            j += 1;
        }
        assert(self@ =~~= merged(before, frame@, p));
    }

    /// Whether the frame, anchored at `p`, is in an illegal position.
    pub fn is_collide(&self, frame: &Frame, p: Point) -> (b: bool)
        ensures
            b == collides(self@, frame@, p),
    {
        let Point { x, y } = p;
        if x <= -4 {
            return true;
        }
        if x >= 10 {
            return true;
        }
        if y >= 18 {
            return true;
        }
        let mut j: Number = 0;
        while j < 4
            invariant
                0 <= j <= 4,
                p == (Point { x, y }),
                -4 < x < 10,
                y < 18,
                forall|a: int, b: int| 0 <= a < 4 && 0 <= b < j ==> !blocked(self@, frame@, p, a, b),
            decreases 4 - j,
        {
            let mut i: Number = 0;
            while i < 4
                invariant
                    0 <= j < 4,
                    0 <= i <= 4,
                    p == (Point { x, y }),
                    -4 < x < 10,
                    y < 18,
                    forall|a: int, b: int|
                        0 <= a < 4 && 0 <= b < j ==> !blocked(self@, frame@, p, a, b),
                    forall|a: int| 0 <= a < i ==> !blocked(self@, frame@, p, a, j as int),
                decreases 4 - i,
            {
                if frame.is_filled(Point::new(i, j)) {
                    if x + i < 0 {
                        assert(blocked(self@, frame@, p, i as int, j as int));
                        return true;
                    }
                    if x + i >= 10 {
                        assert(blocked(self@, frame@, p, i as int, j as int));
                        return true;
                    }
                    if y + j >= 18 {
                        assert(blocked(self@, frame@, p, i as int, j as int));
                        return true;
                    }
                    if self.is_filled(Point::new(x + i, y + j)) {
                        assert(blocked(self@, frame@, p, i as int, j as int));
                        return true;
                    }
                }
                i += 1;
            }
            j += 1;
        }
        false
    }

    /// Empties every cell.
    pub fn clear(&mut self)
        ensures
            final(self)@ == blank(FIELD_WIDTH as int, FIELD_HEIGHT as int),
    {
        self.squares = [false; 180];
        assert(self@ =~~= blank(FIELD_WIDTH as int, FIELD_HEIGHT as int));
    }
}

} // verus!
