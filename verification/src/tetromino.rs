//! The pieces: 4x4 occupancy frames, the catalog of the seven shapes, and
//! the four rotation slots of a piece.

use vstd::prelude::*;

use crate::geometry::Point;
use crate::grid::{cell, is_grid, Grid};
use crate::Number;

verus! {

/// Side of the square bounding box of a frame.
pub const FRAME_SIDE: usize = 4;

/// The grid drawn by four rows of four marks, a mark other than zero being a filled cell.
pub open spec fn picture(rows: [[u8; 4]; 4]) -> Grid {
    Seq::new(4, |y: int| Seq::new(4, |x: int| rows[y][x] != 0))
}

/// The grid whose filled cells are exactly the four given ones, each as `(x, y)`.
pub open spec fn four_cells(a: (int, int), b: (int, int), c: (int, int), d: (int, int)) -> Grid {
    Seq::new(4, |y: int| Seq::new(4, |x: int| (x, y) == a || (x, y) == b || (x, y) == c || (x, y) == d))
}

/// How many distinct rotation frames each of the seven shapes has.
pub open spec fn rotations(piece: int) -> int {
    if piece == 1 {
        1
    } else if piece == 0 || piece == 5 || piece == 6 {
        2
    } else {
        4
    }
}

/// The catalog: frame `rotation` of shape `piece`, the shapes being the bar,
/// the square, the tee, the two ells and the two skews, in this order.
pub open spec fn shape(piece: int, rotation: int) -> Grid {
    if piece == 0 && rotation == 0 {
        four_cells((0, 2), (1, 2), (2, 2), (3, 2))
    } else if piece == 0 && rotation == 1 {
        four_cells((1, 0), (1, 1), (1, 2), (1, 3))
    } else if piece == 1 && rotation == 0 {
        four_cells((1, 2), (2, 2), (1, 3), (2, 3))
    } else if piece == 2 && rotation == 0 {
        four_cells((0, 2), (1, 2), (2, 2), (1, 3))
    } else if piece == 2 && rotation == 1 {
        four_cells((1, 1), (0, 2), (1, 2), (1, 3))
    } else if piece == 2 && rotation == 2 {
        four_cells((1, 1), (0, 2), (1, 2), (2, 2))
    } else if piece == 2 && rotation == 3 {
        four_cells((1, 1), (1, 2), (2, 2), (1, 3))
    } else if piece == 3 && rotation == 0 {
        four_cells((1, 1), (1, 2), (0, 3), (1, 3))
    } else if piece == 3 && rotation == 1 {
        four_cells((0, 1), (0, 2), (1, 2), (2, 2))
    } else if piece == 3 && rotation == 2 {
        four_cells((0, 1), (1, 1), (0, 2), (0, 3))
    } else if piece == 3 && rotation == 3 {
        four_cells((0, 1), (1, 1), (2, 1), (2, 2))
    } else if piece == 4 && rotation == 0 {
        four_cells((1, 1), (1, 2), (1, 3), (2, 3))
    } else if piece == 4 && rotation == 1 {
        four_cells((0, 2), (1, 2), (2, 2), (0, 3))
    } else if piece == 4 && rotation == 2 {
        four_cells((0, 1), (1, 1), (1, 2), (1, 3))
    } else if piece == 4 && rotation == 3 {
        four_cells((2, 1), (0, 2), (1, 2), (2, 2))
    } else if piece == 5 && rotation == 0 {
        four_cells((1, 2), (2, 2), (0, 3), (1, 3))
    } else if piece == 5 && rotation == 1 {
        four_cells((0, 1), (0, 2), (1, 2), (1, 3))
    } else if piece == 6 && rotation == 0 {
        four_cells((0, 2), (1, 2), (1, 3), (2, 3))
    } else {
        four_cells((1, 1), (0, 2), (1, 2), (0, 3))
    }
}

/// One rotation state of a piece.
pub struct Frame {
    squares: [bool; 16],
}

impl View for Frame {
    type V = Grid;

    closed spec fn view(&self) -> Grid {
        Seq::new(4, |y: int| Seq::new(4, |x: int| self.squares[x + 4 * y]))
    }
}

impl Frame {
    /// A frame is always four by four.
    pub proof fn lemma_shape(&self)
        ensures
            is_grid(self@, 4, 4),
    {
    }

    /// Builds the frame that `squares` draws.
    pub fn new(squares: [[u8; 4]; 4]) -> (frame: Frame)
        ensures
            frame@ == picture(squares),
    {
        let mut inner_squares = [false; 16];
        let mut y: usize = 0;
        while y < 4
            invariant
                y <= 4,
                forall|k: int| 0 <= k < 4 * y ==> inner_squares[k] == (squares[k / 4][k % 4] != 0),
            decreases 4 - y,
        {
            let mut x: usize = 0;
            while x < 4
                invariant
                    y < 4,
                    x <= 4,
                    forall|k: int|
                        0 <= k < 4 * y + x ==> inner_squares[k] == (squares[k / 4][k % 4] != 0),
                decreases 4 - x,
            {
                inner_squares[4 * y + x] = squares[y][x] != 0;
                x += 1;
            }
            y += 1;
        }
        let frame = Frame { squares: inner_squares };
        assert(frame@ =~~= picture(squares));
        frame
    }

    pub fn width() -> (w: Number)
        ensures
            w == FRAME_SIDE,
    {
        4
    }

    pub fn height() -> (h: Number)
        ensures
            h == FRAME_SIDE,
    {
        4
    }

    /// Whether the cell at `p` is filled; a point outside the frame is empty.
    pub fn is_filled(&self, p: Point) -> (b: bool)
        ensures
            b == cell(self@, p.x as int, p.y as int),
    {
        if 0 <= p.x && p.x < 4 && 0 <= p.y && p.y < 4 {
            let x: usize = p.x as usize;
            let y: usize = p.y as usize;
            self.squares[crate::index(x, y, FRAME_SIDE)]
        } else {
            false
        }
    }
}

/// Builds the catalog of the seven shapes, each with its distinct rotation frames.
pub fn create_frames() -> (frames: [Vec<Frame>; 7])
    ensures
        forall|piece: int| 0 <= piece < 7 ==> (#[trigger] frames[piece]).len() == rotations(piece),
        forall|piece: int, rotation: int|
            0 <= piece < 7 && 0 <= rotation < rotations(piece) ==> (#[trigger] frames[piece][rotation])@
                == shape(piece, rotation),
{
    let frames = [
        vec![
            Frame::new([
                [0, 0, 0, 0],
                [0, 0, 0, 0],
                [1, 1, 1, 1],
                [0, 0, 0, 0],
            ]),
            Frame::new([
                [0, 1, 0, 0],
                [0, 1, 0, 0],
                [0, 1, 0, 0],
                [0, 1, 0, 0],
            ]),
        ],
        vec![
            Frame::new([
                [0, 0, 0, 0],
                [0, 0, 0, 0],
                [0, 1, 1, 0],
                [0, 1, 1, 0],
            ]),
        ],
        vec![
            Frame::new([
                [0, 0, 0, 0],
                [0, 0, 0, 0],
                [1, 1, 1, 0],
                [0, 1, 0, 0],
            ]),
            Frame::new([
                [0, 0, 0, 0],
                [0, 1, 0, 0],
                [1, 1, 0, 0],
                [0, 1, 0, 0],
            ]),
            Frame::new([
                [0, 0, 0, 0],
                [0, 1, 0, 0],
                [1, 1, 1, 0],
                [0, 0, 0, 0],
            ]),
            Frame::new([
                [0, 0, 0, 0],
                [0, 1, 0, 0],
                [0, 1, 1, 0],
                [0, 1, 0, 0],
            ]),
        ],
        vec![
            Frame::new([
                [0, 0, 0, 0],
                [0, 1, 0, 0],
                [0, 1, 0, 0],
                [1, 1, 0, 0],
            ]),
            Frame::new([
                [0, 0, 0, 0],
                [1, 0, 0, 0],
                [1, 1, 1, 0],
                [0, 0, 0, 0],
            ]),
            Frame::new([
                [0, 0, 0, 0],
                [1, 1, 0, 0],
                [1, 0, 0, 0],
                [1, 0, 0, 0],
            ]),
            Frame::new([
                [0, 0, 0, 0],
                [1, 1, 1, 0],
                [0, 0, 1, 0],
                [0, 0, 0, 0],
            ]),
        ],
        vec![
            Frame::new([
                [0, 0, 0, 0],
                [0, 1, 0, 0],
                [0, 1, 0, 0],
                [0, 1, 1, 0],
            ]),
            Frame::new([
                [0, 0, 0, 0],
                [0, 0, 0, 0],
                [1, 1, 1, 0],
                [1, 0, 0, 0],
            ]),
            Frame::new([
                [0, 0, 0, 0],
                [1, 1, 0, 0],
                [0, 1, 0, 0],
                [0, 1, 0, 0],
            ]),
            Frame::new([
                [0, 0, 0, 0],
                [0, 0, 1, 0],
                [1, 1, 1, 0],
                [0, 0, 0, 0],
            ]),
        ],
        vec![
            Frame::new([
                [0, 0, 0, 0],
                [0, 0, 0, 0],
                [0, 1, 1, 0],
                [1, 1, 0, 0],
            ]),
            Frame::new([
                [0, 0, 0, 0],
                [1, 0, 0, 0],
                [1, 1, 0, 0],
                [0, 1, 0, 0],
            ]),
        ],
        vec![
            Frame::new([
                [0, 0, 0, 0],
                [0, 0, 0, 0],
                [1, 1, 0, 0],
                [0, 1, 1, 0],
            ]),
            Frame::new([
                [0, 0, 0, 0],
                [0, 1, 0, 0],
                [1, 1, 0, 0],
                [1, 0, 0, 0],
            ]),
        ],
    ];
    assert forall|piece: int, rotation: int|
        0 <= piece < 7 && 0 <= rotation < rotations(piece) implies (#[trigger] frames[piece][rotation])@
            == shape(piece, rotation) by {
        assert(frames[piece][rotation]@ =~~= shape(piece, rotation));
    }
    frames
}

/// The four rotation slots that a shape with the given distinct frames cycles
/// through: slot `k` shows frame `k` modulo the number of frames.
pub open spec fn rotation_slots(frames: Seq<Frame>) -> Seq<Grid> {
    Seq::new(4, |slot: int| frames[slot % (frames.len() as int)]@)
}

/// A piece: four rotation slots, each a frame of the catalog.
pub struct Tetromino<'frame> {
    pub frames: [&'frame Frame; 4],
}

impl<'frame> View for Tetromino<'frame> {
    type V = Seq<Grid>;

    open spec fn view(&self) -> Seq<Grid> {
        Seq::new(4, |slot: int| self.frames[slot]@)
    }
}

impl<'frame> Tetromino<'frame> {
    /// Fills the four slots from the distinct frames of one shape.
    pub fn new(frames: &'frame [Frame]) -> (tetromino: Tetromino<'frame>)
        requires
            frames.len() > 0,
        ensures
            tetromino@ == rotation_slots(frames@),
    {
        let tetromino = Tetromino {
            frames: [
                &frames[0],
                &frames[1 % frames.len()],
                &frames[2 % frames.len()],
                &frames[3 % frames.len()],
            ],
        };
        assert forall|slot: int| 0 <= slot < 4 implies tetromino@[slot] == rotation_slots(
            frames@,
        )[slot] by {
            let n = frames@.len() as int;
            assert(0int % n == 0);
        }
        tetromino
    }
}

} // verus!
