//! The render target: a rectangle of one-byte cell codes that the screens
//! draw into. Whatever falls outside the rectangle is clipped.

use vstd::prelude::*;
use vstd::string::StringSliceAdditionalSpecFns;

use crate::geometry::Point;
use crate::Number;

verus! {

/// Mathematical model of a [`ScreenBuffer`]: its rows from top to bottom,
/// each `width` bytes long.
pub struct ScreenView {
    pub width: int,
    pub rows: Seq<Seq<u8>>,
}

impl ScreenView {
    pub open spec fn height(self) -> int {
        self.rows.len() as int
    }

    pub open spec fn wf(self) -> bool {
        &&& self.width >= 0
        &&& forall|y: int| 0 <= y < self.rows.len() ==> (#[trigger] self.rows[y]).len() == self.width
    }

    /// A buffer of the given size with every cell zero.
    pub open spec fn blank(width: int, height: int) -> ScreenView {
        ScreenView {
            width,
            rows: Seq::new(height as nat, |y: int| Seq::new(width as nat, |x: int| 0u8)),
        }
    }

    pub open spec fn contains(self, x: int, y: int) -> bool {
        0 <= x < self.width && 0 <= y < self.rows.len()
    }

    /// The buffer in which each cell chosen by `mask` holds what `ink` gives
    /// for it and every other cell is kept.
    pub open spec fn painted(
        self,
        mask: spec_fn(int, int) -> bool,
        ink: spec_fn(int, int) -> u8,
    ) -> ScreenView {
        ScreenView {
            width: self.width,
            rows: Seq::new(
                self.rows.len(),
                |y: int|
                    Seq::new(
                        self.width as nat,
                        |x: int|
                            if mask(x, y) {
                                ink(x, y)
                            } else {
                                self.rows[y][x]
                            },
                    ),
            ),
        }
    }

    /// Every cell zero, the size kept.
    pub open spec fn clear(self) -> ScreenView {
        ScreenView::blank(self.width, self.height())
    }

    /// The byte `b` written at `p`, if `p` lies in the buffer.
    pub open spec fn with_byte(self, p: Point, b: u8) -> ScreenView {
        self.painted(|x: int, y: int| x == p.x && y == p.y, |x: int, y: int| b)
    }

    /// The bytes of `s` written from `p` to the right, as far as they lie in the buffer.
    pub open spec fn with_bytes(self, p: Point, s: Seq<u8>) -> ScreenView {
        self.painted(
            |x: int, y: int| y == p.y && p.x <= x < p.x + s.len(),
            |x: int, y: int| s[x - p.x],
        )
    }

    /// Whether `(x, y)` lies on the outline of the rectangle with top-left
    /// corner `p` and the given size.
    pub open spec fn on_outline(p: Point, width: int, height: int, x: int, y: int) -> bool {
        &&& p.x <= x < p.x + width
        &&& p.y <= y < p.y + height
        &&& (x == p.x || x == p.x + width - 1 || y == p.y || y == p.y + height - 1)
    }

    /// The outline of a rectangle drawn with the byte `b`. A rectangle less
    /// than two cells wide or high is not drawn at all.
    pub open spec fn with_rect(self, p: Point, width: int, height: int, b: u8) -> ScreenView {
        if width >= 2 && height >= 2 {
            self.painted(
                |x: int, y: int| ScreenView::on_outline(p, width, height, x, y),
                |x: int, y: int| b,
            )
        } else {
            self
        }
    }
}

/// Each cell of a grid of the given size has a place in the row-major order,
/// and two cells with the same place are the same cell.
proof fn lemma_cell_index(x: int, y: int, cx: int, cy: int, width: int, height: int)
    requires
        0 <= x < width,
        0 <= y < height,
        0 <= cx < width,
        0 <= cy < height,
    ensures
        0 <= y * width + x < width * height,
        cy * width + cx == y * width + x ==> cx == x && cy == y,
{
    assert(0 <= y * width && y * width + width <= width * height) by (nonlinear_arith)
        requires
            0 <= y < height,
            0 <= width,
    ;
    if cy * width + cx == y * width + x {
        assert(cy == y) by (nonlinear_arith)
            requires
                0 <= cx < width,
                0 <= x < width,
                cy * width + cx == y * width + x,
        ;
    }
}

/// A rectangle of byte cells, addressed by column and row.
pub struct ScreenBuffer {
    chars: Vec<u8>,
    width: usize,
    height: usize,
}

impl View for ScreenBuffer {
    type V = ScreenView;

    closed spec fn view(&self) -> ScreenView {
        ScreenView {
            width: self.width as int,
            rows: Seq::new(
                self.height as nat,
                |y: int| Seq::new(self.width as nat, |x: int| self.chars@[y * self.width + x]),
            ),
        }
    }
}

impl ScreenBuffer {
    /// The storage holds exactly one byte per cell.
    pub closed spec fn wf(&self) -> bool {
        self.chars@.len() == self.width * self.height
    }

    /// The model of a buffer always has rows of the buffer's width.
    pub proof fn lemma_shape(&self)
        ensures
            self@.wf(),
    {
    }

    /// Creates a buffer of the given size with every cell zero.
    pub fn new(width: usize, height: usize) -> (buf: ScreenBuffer)
        requires
            width * height <= usize::MAX,
        ensures
            buf.wf(),
            buf@ == ScreenView::blank(width as int, height as int),
    {
        let count = width * height;
        let mut chars: Vec<u8> = Vec::new();
        let mut i: usize = 0;
        while i < count
            invariant
                i <= count,
                chars@.len() == i,
                forall|k: int| 0 <= k < i ==> chars@[k] == 0,
            decreases count - i,
        {
            chars.push(0);
            i += 1;
        }
        let buf = ScreenBuffer { chars, width, height };
        assert forall|y: int| 0 <= y < height implies #[trigger] buf@.rows[y] == ScreenView::blank(
            width as int,
            height as int,
        ).rows[y] by {
            assert forall|x: int| 0 <= x < width implies #[trigger] buf@.rows[y][x] == 0 by {
                lemma_cell_index(x, y, x, y, width as int, height as int);
            }
        }
        assert(buf@.rows =~= ScreenView::blank(width as int, height as int).rows);
        buf
    }

    /// Position of cell `(x, y)` in the storage.
    fn index(&self, x: usize, y: usize) -> (i: usize)
        requires
            self.wf(),
            x < self.width,
            y < self.height,
        ensures
            i == y * self.width + x,
            i < self.chars@.len(),
    {
        let count = self.chars.len();
        proof {
            lemma_cell_index(x as int, y as int, x as int, y as int, self.width as int, self.height as int);
            assert(0 <= y * self.width <= y * self.width + x < count);
        }
        y * self.width + x
    }

    /// Reads the cell in column `x` of row `y`.
    pub fn byte_at(&self, x: usize, y: usize) -> (b: u8)
        requires
            self.wf(),
            self@.contains(x as int, y as int),
        ensures
            b == self@.rows[y as int][x as int],
    {
        self.chars[self.index(x, y)]
    }

    /// Writes a cell that lies in the buffer; no other cell changes.
    fn put(&mut self, x: usize, y: usize, b: u8)
        requires
            old(self).wf(),
            old(self)@.contains(x as int, y as int),
        ensures
            final(self).wf(),
            final(self)@ == old(self)@.painted(
                |cx: int, cy: int| cx == x && cy == y,
                |cx: int, cy: int| b,
            ),
    {
        let i = self.index(x, y);
        self.chars[i] = b;
        let ghost target = old(self)@.painted(
            |cx: int, cy: int| cx == x && cy == y,
            |cx: int, cy: int| b,
        );
        assert forall|cy: int| 0 <= cy < self.height implies #[trigger] self@.rows[cy]
            == target.rows[cy] by {
            assert forall|cx: int| 0 <= cx < self.width implies #[trigger] self@.rows[cy][cx]
                == target.rows[cy][cx] by {
                lemma_cell_index(x as int, y as int, cx, cy, self.width as int, self.height as int);
                lemma_cell_index(cx, cy, cx, cy, self.width as int, self.height as int);
            }
        }
        assert(self@.rows =~= target.rows);
    }

    /// Writes `b` into the cells of row `y` from column `left` to column
    /// `right`, as far as they lie in the buffer.
    fn fill_row(&mut self, left: i64, right: i64, y: i64, b: u8)
        requires
            old(self).wf(),
        ensures
            final(self).wf(),
            final(self)@ == old(self)@.painted(
                |cx: int, cy: int| cy == y && left <= cx <= right,
                |cx: int, cy: int| b,
            ),
    {
        proof {
            self.lemma_shape();
        }
        if y >= 0 && (y as u64) < (self.height as u64) && right >= 0 && (left < 0 || (left as u64) < (
        self.width as u64)) {
            let row: usize = y as usize;
            let start: usize = if left < 0 {
                0
            } else {
                left as usize
            };
            let stop: usize = if (right as u64) < (self.width as u64) {
                right as usize + 1
            } else {
                self.width
            };
            let mut x: usize = start;
            assert(self@.rows =~~= old(self)@.painted(
                |cx: int, cy: int| cy == y && left <= cx <= right && cx < x,
                |cx: int, cy: int| b,
            ).rows);
            while x < stop
                invariant
                    start <= x,
                    stop <= self.width,
                    stop <= right + 1,
                    right < self.width ==> stop == right + 1,
                    right >= self.width ==> stop == self.width,
                    left <= start,
                    left >= 0 ==> start == left,
                    row == y,
                    row < self.height,
                    self.wf(),
                    self.width == old(self).width,
                    self.height == old(self).height,
                    self@ == old(self)@.painted(
                        |cx: int, cy: int| cy == y && left <= cx <= right && cx < x,
                        |cx: int, cy: int| b,
                    ),
                decreases stop - x,
            {
                self.put(x, row, b);
                assert(self@.rows =~~= old(self)@.painted(
                    |cx: int, cy: int| cy == y && left <= cx <= right && cx < x + 1,
                    |cx: int, cy: int| b,
                ).rows);
                x += 1;
            }
        }
        assert(self@.rows =~~= old(self)@.painted(
            |cx: int, cy: int| cy == y && left <= cx <= right,
            |cx: int, cy: int| b,
        ).rows);
    }

    /// Writes `b` into the cells of column `x` from row `top` to row
    /// `bottom`, as far as they lie in the buffer.
    fn fill_column(&mut self, x: i64, top: i64, bottom: i64, b: u8)
        requires
            old(self).wf(),
        ensures
            final(self).wf(),
            final(self)@ == old(self)@.painted(
                |cx: int, cy: int| cx == x && top <= cy <= bottom,
                |cx: int, cy: int| b,
            ),
    {
        proof {
            self.lemma_shape();
        }
        if x >= 0 && (x as u64) < (self.width as u64) && bottom >= 0 && (top < 0 || (top as u64) < (
        self.height as u64)) {
            let column: usize = x as usize;
            let start: usize = if top < 0 {
                0
            } else {
                top as usize
            };
            let stop: usize = if (bottom as u64) < (self.height as u64) {
                bottom as usize + 1
            } else {
                self.height
            };
            let mut y: usize = start;
            assert(self@.rows =~~= old(self)@.painted(
                |cx: int, cy: int| cx == x && top <= cy <= bottom && cy < y,
                |cx: int, cy: int| b,
            ).rows);
            while y < stop
                invariant
                    start <= y,
                    stop <= self.height,
                    stop <= bottom + 1,
                    bottom < self.height ==> stop == bottom + 1,
                    bottom >= self.height ==> stop == self.height,
                    top <= start,
                    top >= 0 ==> start == top,
                    column == x,
                    column < self.width,
                    self.wf(),
                    self.width == old(self).width,
                    self.height == old(self).height,
                    self@ == old(self)@.painted(
                        |cx: int, cy: int| cx == x && top <= cy <= bottom && cy < y,
                        |cx: int, cy: int| b,
                    ),
                decreases stop - y,
            {
                self.put(column, y, b);
                assert(self@.rows =~~= old(self)@.painted(
                    |cx: int, cy: int| cx == x && top <= cy <= bottom && cy < y + 1,
                    |cx: int, cy: int| b,
                ).rows);
                y += 1;
            }
        }
        assert(self@.rows =~~= old(self)@.painted(
            |cx: int, cy: int| cx == x && top <= cy <= bottom,
            |cx: int, cy: int| b,
        ).rows);
    }

    /// Sets every cell to zero.
    pub fn clear(&mut self)
        requires
            old(self).wf(),
        ensures
            final(self).wf(),
            final(self)@ == old(self)@.clear(),
    {
        let count = self.chars.len();
        let mut i: usize = 0;
        while i < count
            invariant
                i <= count,
                self.chars@.len() == count,
                self.width == old(self).width,
                self.height == old(self).height,
                self.wf(),
                forall|k: int| 0 <= k < i ==> self.chars@[k] == 0,
            decreases count - i,
        {
            self.chars[i] = 0;
            i += 1;
        }
        let ghost target = old(self)@.clear();
        assert forall|y: int| 0 <= y < self.height implies #[trigger] self@.rows[y]
            == target.rows[y] by {
            assert forall|x: int| 0 <= x < self.width implies #[trigger] self@.rows[y][x] == 0 by {
                lemma_cell_index(x, y, x, y, self.width as int, self.height as int);
            }
        }
        assert(self@.rows =~= target.rows);
    }

    /// Writes `b` at `p`; a point outside the buffer is ignored.
    pub fn set_byte(&mut self, p: Point, b: u8)
        requires
            old(self).wf(),
        ensures
            final(self).wf(),
            final(self)@ == old(self)@.with_byte(p, b),
    {
        let Point { x, y } = p;
        if y >= 0 && (y as usize) < self.height {
            if x >= 0 && (x as usize) < self.width {
                self.put(x as usize, y as usize, b);
                return ;
            }
        }
        assert(self@.rows =~~= old(self)@.with_byte(p, b).rows);
    }

    /// Writes the bytes of `s` from `p` to the right. The part of the run
    /// left or right of the buffer is cut off; a run on a row outside the
    /// buffer is ignored.
    pub fn set_bytes(&mut self, p: Point, s: &[u8])
        requires
            old(self).wf(),
        ensures
            final(self).wf(),
            final(self)@ == old(self)@.with_bytes(p, s@),
    {
        let Point { x, y } = p;
        let ghost target = old(self)@.with_bytes(p, s@);
        if y >= 0 && (y as usize) < self.height {
            let row: usize = y as usize;
            let skip: usize = if x < 0 {
                (-(x as i64)) as usize
            } else {
                0
            };
            let start: usize = if x < 0 {
                0
            } else {
                x as usize
            };
            if skip < s.len() && start < self.width {
                let room: usize = self.width - start;
                let rest: usize = s.len() - skip;
                let count: usize = if rest < room {
                    rest
                } else {
                    room
                };
                let mut k: usize = 0;
                assert(self@.rows =~~= old(self)@.painted(
                    |cx: int, cy: int| cy == p.y && p.x <= cx < start + k,
                    |cx: int, cy: int| s@[cx - p.x],
                ).rows);
                while k < count
                    invariant
                        k <= count,
                        s@.len() <= usize::MAX,
                        count <= s@.len() - skip,
                        count <= self.width - start,
                        row < self.height,
                        row == y,
                        start - skip == x,
                        p == (Point { x, y }),
                        self.wf(),
                        self.width == old(self).width,
                        self.height == old(self).height,
                        self@ == old(self)@.painted(
                            |cx: int, cy: int| cy == p.y && p.x <= cx < start + k,
                            |cx: int, cy: int| s@[cx - p.x],
                        ),
                    decreases count - k,
                {
                    self.put(start + k, row, s[skip + k]);
                    assert(self@.rows =~~= old(self)@.painted(
                        |cx: int, cy: int| cy == p.y && p.x <= cx < start + k + 1,
                        |cx: int, cy: int| s@[cx - p.x],
                    ).rows);
                    k += 1;
                }
                assert(self@.rows =~~= target.rows);
                return ;
            }
        }
        assert(self@.rows =~~= target.rows);
    }
}

/// Writes the bytes of `text` from `p` to the right, clipped to the buffer.
pub fn draw_str(buf: &mut ScreenBuffer, p: Point, text: &str)
    requires
        old(buf).wf(),
    ensures
        final(buf).wf(),
        final(buf)@ == old(buf)@.with_bytes(p, text.spec_bytes()),
{
    buf.set_bytes(p, text.as_bytes());
}

/// The decimal digits of `n` as character codes, most significant first.
pub open spec fn digits(n: nat) -> Seq<u8>
    decreases n,
{
    if n < 10 {
        seq![(48 + n) as u8]
    } else {
        digits(n / 10).push((48 + n % 10) as u8)
    }
}

/// The text of `n` in decimal notation, with a minus sign in front of a negative number.
pub open spec fn decimal(n: int) -> Seq<u8> {
    if n < 0 {
        seq![45u8] + digits((-n) as nat)
    } else {
        digits(n as nat)
    }
}

/// Appends the decimal digits of `n` to `out`.
fn push_digits(n: u32, out: &mut Vec<u8>)
    ensures
        final(out)@ == old(out)@ + digits(n as nat),
    decreases n,
{
    if n >= 10 {
        push_digits(n / 10, out);
    }
    out.push(48 + (n % 10) as u8);
}

/// Writes `n` in decimal notation.
pub fn format_number(n: Number) -> (text: Vec<u8>)
    ensures
        text@ == decimal(n as int),
{
    let mut text: Vec<u8> = Vec::new();
    if n < 0 {
        text.push(45);
        push_digits((-(n as i64)) as u32, &mut text);
    } else {
        push_digits(n as u32, &mut text);
    }
    text
}

/// The byte that stands for a character in the buffer: its code, cut to eight bits.
pub open spec fn glyph(chr: char) -> u8 {
    chr as u8
}

/// Draws the outline of a rectangle with top-left corner `p`, clipped to the
/// buffer. Nothing is drawn unless the rectangle is at least two cells wide
/// and high.
pub fn draw_rect(buf: &mut ScreenBuffer, p: Point, width: Number, height: Number, chr: char)
    requires
        old(buf).wf(),
    ensures
        final(buf).wf(),
        final(buf)@ == old(buf)@.with_rect(p, width as int, height as int, glyph(chr)),
{
    let b: u8 = #[verifier::truncate] (chr as u8);
    if width >= 2 && height >= 2 {
        let left: i64 = p.x as i64;
        let top: i64 = p.y as i64;
        let right: i64 = left + width as i64 - 1;
        let bottom: i64 = top + height as i64 - 1;
        buf.fill_row(left, right, top, b);
        buf.fill_row(left, right, bottom, b);
        buf.fill_column(left, top + 1, bottom - 1, b);
        buf.fill_column(right, top + 1, bottom - 1, b);
        proof {
            old(buf).lemma_shape();
            assert(buf@.rows =~~= old(buf)@.with_rect(p, width as int, height as int, b).rows);
        }
    }
}

} // verus!
