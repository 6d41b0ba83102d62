use r0t0blocks::geometry::Point;
use r0t0blocks::tetromino::{create_frames, Frame, Tetromino, FRAME_SIDE};

fn cells(frame: &Frame) -> Vec<(i32, i32)> {
    let mut found = Vec::new();
    for y in 0..4 {
        for x in 0..4 {
            if frame.is_filled(Point::new(x, y)) {
                found.push((x, y));
            }
        }
    }
    found
}

#[test]
fn frame_is_four_by_four() {
    assert_eq!(FRAME_SIDE, 4);
    assert_eq!(Frame::width(), 4);
    assert_eq!(Frame::height(), 4);
}

#[test]
fn frame_holds_what_was_drawn() {
    let frame = Frame::new([[0, 1, 0, 0], [0, 0, 0, 7], [255, 0, 0, 0], [0, 0, 1, 0]]);
    assert_eq!(cells(&frame), vec![(1, 0), (3, 1), (0, 2), (2, 3)]);
}

#[test]
fn frame_is_empty_outside_its_box() {
    let frame = Frame::new([[1, 1, 1, 1], [1, 1, 1, 1], [1, 1, 1, 1], [1, 1, 1, 1]]);
    assert_eq!(cells(&frame).len(), 16);
    for (x, y) in [(-1, 0), (0, -1), (4, 0), (0, 4), (4, 4), (5, 1), (1, 5), (-3, -3), (i32::MAX, 0), (0, i32::MIN)] {
        assert!(!frame.is_filled(Point::new(x, y)), "({x}, {y})");
    }
}

#[test]
fn catalog_has_seven_shapes_with_their_rotations() {
    let frames = create_frames();
    let counts: Vec<usize> = frames.iter().map(|shape| shape.len()).collect();
    assert_eq!(counts, vec![2, 1, 4, 4, 4, 2, 2]);
}

#[test]
fn every_frame_of_the_catalog_has_four_cells() {
    let frames = create_frames();
    for shape in frames.iter() {
        for frame in shape.iter() {
            assert_eq!(cells(frame).len(), 4);
        }
    }
}

#[test]
fn catalog_frames_are_the_classic_shapes() {
    let frames = create_frames();
    assert_eq!(cells(&frames[0][0]), vec![(0, 2), (1, 2), (2, 2), (3, 2)]);
    assert_eq!(cells(&frames[0][1]), vec![(1, 0), (1, 1), (1, 2), (1, 3)]);
    assert_eq!(cells(&frames[1][0]), vec![(1, 2), (2, 2), (1, 3), (2, 3)]);
    assert_eq!(cells(&frames[2][0]), vec![(0, 2), (1, 2), (2, 2), (1, 3)]);
    assert_eq!(cells(&frames[2][1]), vec![(1, 1), (0, 2), (1, 2), (1, 3)]);
    assert_eq!(cells(&frames[2][2]), vec![(1, 1), (0, 2), (1, 2), (2, 2)]);
    assert_eq!(cells(&frames[2][3]), vec![(1, 1), (1, 2), (2, 2), (1, 3)]);
    assert_eq!(cells(&frames[3][0]), vec![(1, 1), (1, 2), (0, 3), (1, 3)]);
    assert_eq!(cells(&frames[3][1]), vec![(0, 1), (0, 2), (1, 2), (2, 2)]);
    assert_eq!(cells(&frames[3][2]), vec![(0, 1), (1, 1), (0, 2), (0, 3)]);
    assert_eq!(cells(&frames[3][3]), vec![(0, 1), (1, 1), (2, 1), (2, 2)]);
    assert_eq!(cells(&frames[4][0]), vec![(1, 1), (1, 2), (1, 3), (2, 3)]);
    assert_eq!(cells(&frames[4][1]), vec![(0, 2), (1, 2), (2, 2), (0, 3)]);
    assert_eq!(cells(&frames[4][2]), vec![(0, 1), (1, 1), (1, 2), (1, 3)]);
    assert_eq!(cells(&frames[4][3]), vec![(2, 1), (0, 2), (1, 2), (2, 2)]);
    assert_eq!(cells(&frames[5][0]), vec![(1, 2), (2, 2), (0, 3), (1, 3)]);
    assert_eq!(cells(&frames[5][1]), vec![(0, 1), (0, 2), (1, 2), (1, 3)]);
    assert_eq!(cells(&frames[6][0]), vec![(0, 2), (1, 2), (1, 3), (2, 3)]);
    assert_eq!(cells(&frames[6][1]), vec![(1, 1), (0, 2), (1, 2), (0, 3)]);
}

#[test]
fn tetromino_with_four_frames_shows_each_in_turn() {
    let frames = create_frames();
    let tee = Tetromino::new(&frames[2]);
    for slot in 0..4 {
        assert_eq!(cells(tee.frames[slot]), cells(&frames[2][slot]));
    }
}

#[test]
fn tetromino_with_two_frames_alternates() {
    let frames = create_frames();
    let bar = Tetromino::new(&frames[0]);
    assert_eq!(cells(bar.frames[0]), cells(&frames[0][0]));
    assert_eq!(cells(bar.frames[1]), cells(&frames[0][1]));
    assert_eq!(cells(bar.frames[2]), cells(&frames[0][0]));
    assert_eq!(cells(bar.frames[3]), cells(&frames[0][1]));
}

#[test]
fn tetromino_with_one_frame_repeats_it() {
    let frames = create_frames();
    let square = Tetromino::new(&frames[1]);
    for slot in 0..4 {
        assert_eq!(cells(square.frames[slot]), cells(&frames[1][0]));
    }
}

#[test]
fn tetromino_with_three_frames_wraps_after_the_third() {
    let three = vec![
        Frame::new([[1, 0, 0, 0], [0, 0, 0, 0], [0, 0, 0, 0], [0, 0, 0, 0]]),
        Frame::new([[0, 1, 0, 0], [0, 0, 0, 0], [0, 0, 0, 0], [0, 0, 0, 0]]),
        Frame::new([[0, 0, 1, 0], [0, 0, 0, 0], [0, 0, 0, 0], [0, 0, 0, 0]]),
    ];
    let piece = Tetromino::new(&three);
    assert_eq!(cells(piece.frames[0]), vec![(0, 0)]);
    assert_eq!(cells(piece.frames[1]), vec![(1, 0)]);
    assert_eq!(cells(piece.frames[2]), vec![(2, 0)]);
    assert_eq!(cells(piece.frames[3]), vec![(0, 0)]);
}
