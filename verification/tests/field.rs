use r0t0blocks::field::{Field, FIELD_HEIGHT, FIELD_WIDTH};
use r0t0blocks::geometry::Point;
use r0t0blocks::tetromino::{create_frames, Frame};

const W: i32 = 10;
const H: i32 = 18;

/// A frame with one filled cell in its top-left corner.
fn dot() -> Frame {
    Frame::new([[1, 0, 0, 0], [0, 0, 0, 0], [0, 0, 0, 0], [0, 0, 0, 0]])
}

fn fill_cell(field: &mut Field, x: i32, y: i32) {
    field.copy_frame(&dot(), Point::new(x, y));
}

fn fill_row(field: &mut Field, y: i32) {
    for x in 0..W {
        fill_cell(field, x, y);
    }
}

fn rows(field: &Field) -> Vec<String> {
    (0..H)
        .map(|y| {
            (0..W)
                .map(|x| if field.is_filled(Point::new(x, y)) { '#' } else { '.' })
                .collect()
        })
        .collect()
}

fn empty_rows() -> Vec<String> {
    vec!["..........".to_string(); 18]
}

#[test]
fn field_has_its_fixed_size() {
    assert_eq!(FIELD_WIDTH, 10);
    assert_eq!(FIELD_HEIGHT, 18);
    assert_eq!(Field::width(), 10);
    assert_eq!(Field::height(), 18);
}

#[test]
fn new_field_is_empty() {
    let field = Field::new();
    assert_eq!(rows(&field), empty_rows());
    assert!(!field.is_any_line_filled());
}

#[test]
fn cells_outside_the_field_read_as_empty() {
    let mut field = Field::new();
    for y in 0..H {
        fill_row(&mut field, y);
    }
    for (x, y) in [(-1, 0), (0, -1), (10, 0), (0, 18), (12, 3), (5, 20), (10, 18), (-1, -1), (i32::MAX, 0), (0, i32::MAX), (i32::MIN, i32::MIN)] {
        assert!(!field.is_filled(Point::new(x, y)), "({x}, {y})");
    }
    assert!(field.is_filled(Point::new(0, 0)));
    assert!(field.is_filled(Point::new(9, 17)));
}

#[test]
fn line_is_filled_only_when_every_cell_is() {
    let mut field = Field::new();
    for x in 0..9 {
        fill_cell(&mut field, x, 5);
    }
    assert!(!field.is_line_filled(5));
    assert!(!field.is_any_line_filled());
    fill_cell(&mut field, 9, 5);
    assert!(field.is_line_filled(5));
    assert!(!field.is_line_filled(4));
    assert!(!field.is_line_filled(6));
    assert!(field.is_any_line_filled());
}

#[test]
fn rows_outside_the_field_are_not_filled_lines() {
    let mut field = Field::new();
    for y in 0..H {
        fill_row(&mut field, y);
    }
    for y in [-1, 18, 19, 100, i32::MIN, i32::MAX] {
        assert!(!field.is_line_filled(y), "row {y}");
    }
    assert!(field.is_line_filled(0));
    assert!(field.is_line_filled(17));
}

#[test]
fn copy_frame_marks_the_cells_under_the_frame() {
    let frames = create_frames();
    let mut field = Field::new();
    field.copy_frame(&frames[2][0], Point::new(4, 10));
    let mut expected = empty_rows();
    expected[12] = "....###...".to_string();
    expected[13] = ".....#....".to_string();
    assert_eq!(rows(&field), expected);
}

#[test]
fn copy_frame_is_idempotent_and_keeps_what_is_there() {
    let frames = create_frames();
    let mut field = Field::new();
    fill_cell(&mut field, 0, 17);
    field.copy_frame(&frames[1][0], Point::new(0, 14));
    let once = rows(&field);
    field.copy_frame(&frames[1][0], Point::new(0, 14));
    assert_eq!(rows(&field), once);
    assert!(field.is_filled(Point::new(0, 17)));
    assert!(field.is_filled(Point::new(1, 16)));
    assert!(field.is_filled(Point::new(2, 17)));
}

#[test]
fn copy_frame_drops_cells_outside_the_field() {
    let frames = create_frames();
    let mut field = Field::new();
    field.copy_frame(&frames[0][0], Point::new(8, 0));
    field.copy_frame(&frames[0][0], Point::new(-2, 3));
    field.copy_frame(&frames[0][1], Point::new(3, 16));
    field.copy_frame(&frames[0][1], Point::new(5, -2));
    field.copy_frame(&frames[0][0], Point::new(100, 100));
    field.copy_frame(&frames[0][0], Point::new(i32::MAX, i32::MAX));
    field.copy_frame(&frames[0][0], Point::new(i32::MIN, i32::MIN));
    let mut expected = empty_rows();
    expected[2] = "........##".to_string();
    expected[5] = "##........".to_string();
    expected[16] = "....#.....".to_string();
    expected[17] = "....#.....".to_string();
    expected[0] = "......#...".to_string();
    expected[1] = "......#...".to_string();
    assert_eq!(rows(&field), expected);
}

#[test]
fn clear_empties_the_field() {
    let mut field = Field::new();
    fill_row(&mut field, 3);
    fill_cell(&mut field, 4, 9);
    field.clear();
    assert_eq!(rows(&field), empty_rows());
}

#[test]
fn frame_left_of_the_field_collides() {
    let frames = create_frames();
    let field = Field::new();
    for shape in frames.iter() {
        for frame in shape.iter() {
            for y in [-2, 0, 5, 14] {
                assert!(field.is_collide(frame, Point::new(-4, y)));
                assert!(field.is_collide(frame, Point::new(-5, y)));
                assert!(field.is_collide(frame, Point::new(i32::MIN, y)));
            }
        }
    }
}

#[test]
fn frame_at_the_right_edge_collides() {
    let frames = create_frames();
    let field = Field::new();
    for shape in frames.iter() {
        for frame in shape.iter() {
            for y in [-2, 0, 5, 14] {
                assert!(field.is_collide(frame, Point::new(10, y)));
                assert!(field.is_collide(frame, Point::new(11, y)));
                assert!(field.is_collide(frame, Point::new(i32::MAX, y)));
            }
        }
    }
}

#[test]
fn frame_at_or_below_the_bottom_edge_collides() {
    let frames = create_frames();
    let field = Field::new();
    for shape in frames.iter() {
        for frame in shape.iter() {
            assert!(field.is_collide(frame, Point::new(3, 18)));
            assert!(field.is_collide(frame, Point::new(3, i32::MAX)));
        }
    }
    let empty = Frame::new([[0; 4]; 4]);
    assert!(field.is_collide(&empty, Point::new(3, 18)));
    assert!(field.is_collide(&empty, Point::new(-4, 3)));
    assert!(field.is_collide(&empty, Point::new(10, 3)));
    assert!(!field.is_collide(&empty, Point::new(3, 17)));
    assert!(!field.is_collide(&empty, Point::new(-3, 3)));
    assert!(!field.is_collide(&empty, Point::new(9, 3)));
}

#[test]
fn frame_nested_in_the_field_does_not_collide() {
    let frames = create_frames();
    let field = Field::new();
    for shape in frames.iter() {
        for frame in shape.iter() {
            assert!(!field.is_collide(frame, Point::new(3, 5)));
        }
    }
    assert!(!field.is_collide(&frames[0][0], Point::new(0, 15)));
    assert!(!field.is_collide(&frames[0][0], Point::new(6, 15)));
    assert!(!field.is_collide(&frames[1][0], Point::new(-1, 14)));
    assert!(!field.is_collide(&frames[1][0], Point::new(7, 14)));
}

#[test]
fn frame_above_the_field_does_not_collide() {
    let frames = create_frames();
    let mut field = Field::new();
    for y in 2..H {
        for x in 0..W {
            fill_cell(&mut field, x, y);
        }
    }
    for shape in frames.iter() {
        for frame in shape.iter() {
            for x in 0..=6 {
                assert!(!field.is_collide(frame, Point::new(x, -2)), "x {x}");
                assert!(!field.is_collide(frame, Point::new(x, -4)), "x {x}");
                assert!(!field.is_collide(frame, Point::new(x, -100)), "x {x}");
                assert!(!field.is_collide(frame, Point::new(x, i32::MIN)), "x {x}");
            }
        }
    }
}

#[test]
fn cells_beside_or_below_the_field_collide() {
    let frames = create_frames();
    let field = Field::new();
    let flat = &frames[0][0];
    assert!(!field.is_collide(flat, Point::new(0, 3)));
    assert!(field.is_collide(flat, Point::new(-1, 3)));
    assert!(!field.is_collide(flat, Point::new(6, 3)));
    assert!(field.is_collide(flat, Point::new(7, 3)));
    assert!(!field.is_collide(flat, Point::new(3, 15)));
    assert!(field.is_collide(flat, Point::new(3, 16)));
    let upright = &frames[0][1];
    assert!(!field.is_collide(upright, Point::new(-1, 3)));
    assert!(field.is_collide(upright, Point::new(-2, 3)));
    assert!(!field.is_collide(upright, Point::new(8, 3)));
    assert!(field.is_collide(upright, Point::new(9, 3)));
    assert!(!field.is_collide(upright, Point::new(3, 14)));
    assert!(field.is_collide(upright, Point::new(3, 15)));
}

#[test]
fn frame_on_a_filled_cell_collides() {
    let frames = create_frames();
    let mut field = Field::new();
    fill_cell(&mut field, 5, 10);
    let flat = &frames[0][0];
    assert!(field.is_collide(flat, Point::new(2, 8)));
    assert!(field.is_collide(flat, Point::new(5, 8)));
    assert!(!field.is_collide(flat, Point::new(6, 8)));
    assert!(!field.is_collide(flat, Point::new(1, 8)));
    assert!(!field.is_collide(flat, Point::new(2, 7)));
    assert!(!field.is_collide(flat, Point::new(2, 9)));
}

#[test]
fn cleaning_an_empty_field_removes_nothing() {
    let mut field = Field::new();
    assert_eq!(field.clean_filled_lines(), 0);
    assert_eq!(rows(&field), empty_rows());
}

#[test]
fn cleaning_a_field_without_lines_leaves_it_unchanged() {
    let mut field = Field::new();
    for y in 0..H {
        for x in 0..W {
            if (x + y) % 3 != 0 {
                fill_cell(&mut field, x, y);
            }
        }
    }
    let before = rows(&field);
    assert_eq!(field.clean_filled_lines(), 0);
    assert_eq!(rows(&field), before);
}

#[test]
fn cleaning_a_full_field_empties_it() {
    let mut field = Field::new();
    for y in 0..H {
        fill_row(&mut field, y);
    }
    assert_eq!(field.clean_filled_lines(), 18);
    assert_eq!(rows(&field), empty_rows());
    assert_eq!(field.clean_filled_lines(), 0);
}

#[test]
fn cleaning_filled_bottom_rows_empties_the_field() {
    for k in 0..=18 {
        let mut field = Field::new();
        for y in (H - k)..H {
            fill_row(&mut field, y);
        }
        assert_eq!(field.clean_filled_lines(), k);
        assert_eq!(rows(&field), empty_rows(), "k {k}");
    }
}

#[test]
fn cleaning_one_line_shifts_the_rows_above_it_down() {
    let mut field = Field::new();
    fill_cell(&mut field, 0, 0);
    fill_cell(&mut field, 3, 9);
    fill_cell(&mut field, 4, 11);
    fill_row(&mut field, 12);
    fill_cell(&mut field, 1, 13);
    for x in 0..9 {
        fill_cell(&mut field, x, 17);
    }
    let before = rows(&field);
    assert_eq!(field.clean_filled_lines(), 1);
    let after = rows(&field);
    assert_eq!(after[0], "..........");
    for y in 1..=12 {
        assert_eq!(after[y], before[y - 1], "row {y}");
    }
    for y in 13..18 {
        assert_eq!(after[y], before[y], "row {y}");
    }
    assert_eq!(after[1], "#.........");
    assert_eq!(after[10], "...#......");
    assert_eq!(after[12], "....#.....");
    assert_eq!(after[13], ".#........");
    assert_eq!(after[17], "#########.");
}

#[test]
fn cleaning_several_lines_keeps_the_order_of_the_rest() {
    let mut field = Field::new();
    fill_cell(&mut field, 1, 10);
    fill_row(&mut field, 11);
    fill_cell(&mut field, 2, 12);
    fill_row(&mut field, 13);
    fill_row(&mut field, 14);
    fill_cell(&mut field, 3, 15);
    fill_cell(&mut field, 4, 16);
    fill_row(&mut field, 17);
    assert_eq!(field.clean_filled_lines(), 4);
    let mut expected = empty_rows();
    expected[14] = ".#........".to_string();
    expected[15] = "..#.......".to_string();
    expected[16] = "...#......".to_string();
    expected[17] = "....#.....".to_string();
    assert_eq!(rows(&field), expected);
}

#[test]
fn cleaning_the_top_line_empties_it() {
    let mut field = Field::new();
    fill_row(&mut field, 0);
    fill_cell(&mut field, 5, 1);
    assert_eq!(field.clean_filled_lines(), 1);
    let mut expected = empty_rows();
    expected[1] = ".....#....".to_string();
    assert_eq!(rows(&field), expected);
}
