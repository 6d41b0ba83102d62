use r0t0blocks::geometry::Point;
use r0t0blocks::video::{draw_rect, draw_str, format_number, ScreenBuffer};

fn rows(buf: &ScreenBuffer, width: usize, height: usize) -> Vec<String> {
    (0..height)
        .map(|y| {
            (0..width)
                .map(|x| match buf.byte_at(x, y) {
                    0 => '.',
                    b => b as char,
                })
                .collect()
        })
        .collect()
}

#[test]
fn new_buffer_is_zeroed() {
    let buf = ScreenBuffer::new(5, 3);
    assert_eq!(rows(&buf, 5, 3), vec![".....", ".....", "....."]);
}

#[test]
fn buffers_without_cells_take_writes() {
    let mut buf = ScreenBuffer::new(0, 4);
    buf.set_byte(Point::new(0, 0), b'x');
    buf.set_bytes(Point::new(-1, 1), b"abc");
    draw_rect(&mut buf, Point::new(0, 0), 3, 3, '+');
    buf.clear();
    let mut buf = ScreenBuffer::new(4, 0);
    buf.set_byte(Point::new(0, 0), b'x');
    buf.set_bytes(Point::new(-1, 0), b"abc");
    draw_rect(&mut buf, Point::new(0, 0), 3, 3, '+');
    buf.clear();
}

#[test]
fn set_byte_writes_one_cell() {
    let mut buf = ScreenBuffer::new(4, 3);
    buf.set_byte(Point::new(1, 2), b'a');
    buf.set_byte(Point::new(3, 0), b'b');
    assert_eq!(rows(&buf, 4, 3), vec!["...b", "....", ".a.."]);
    assert_eq!(buf.byte_at(1, 2), b'a');
}

#[test]
fn set_byte_outside_the_buffer_is_ignored() {
    let mut buf = ScreenBuffer::new(4, 3);
    for (x, y) in [(-1, 0), (0, -1), (4, 0), (0, 3), (4, 3), (5, 1), (i32::MAX, 0), (0, i32::MIN)] {
        buf.set_byte(Point::new(x, y), b'x');
    }
    assert_eq!(rows(&buf, 4, 3), vec!["....", "....", "...."]);
}

#[test]
fn set_bytes_writes_a_run() {
    let mut buf = ScreenBuffer::new(6, 2);
    buf.set_bytes(Point::new(1, 1), b"abc");
    assert_eq!(rows(&buf, 6, 2), vec!["......", ".abc.."]);
    buf.set_bytes(Point::new(2, 1), b"xy");
    assert_eq!(rows(&buf, 6, 2), vec!["......", ".axy.."]);
    buf.set_bytes(Point::new(0, 0), b"");
    assert_eq!(rows(&buf, 6, 2), vec!["......", ".axy.."]);
}

#[test]
fn set_bytes_is_clipped_on_the_left() {
    let mut buf = ScreenBuffer::new(6, 2);
    buf.set_bytes(Point::new(-2, 0), b"abcd");
    assert_eq!(rows(&buf, 6, 2), vec!["cd....", "......"]);
    buf.set_bytes(Point::new(-4, 1), b"abcd");
    buf.set_bytes(Point::new(-100, 1), b"abcd");
    buf.set_bytes(Point::new(i32::MIN, 1), b"abcd");
    assert_eq!(rows(&buf, 6, 2), vec!["cd....", "......"]);
}

#[test]
fn set_bytes_is_clipped_on_the_right() {
    let mut buf = ScreenBuffer::new(6, 2);
    buf.set_bytes(Point::new(4, 0), b"abcd");
    assert_eq!(rows(&buf, 6, 2), vec!["....ab", "......"]);
    buf.set_bytes(Point::new(6, 1), b"abcd");
    buf.set_bytes(Point::new(i32::MAX, 1), b"abcd");
    assert_eq!(rows(&buf, 6, 2), vec!["....ab", "......"]);
}

#[test]
fn set_bytes_is_clipped_on_both_sides() {
    let mut buf = ScreenBuffer::new(3, 1);
    buf.set_bytes(Point::new(-2, 0), b"abcdefgh");
    assert_eq!(rows(&buf, 3, 1), vec!["cde"]);
}

#[test]
fn set_bytes_on_a_row_outside_the_buffer_is_ignored() {
    let mut buf = ScreenBuffer::new(6, 2);
    buf.set_bytes(Point::new(0, -1), b"abcd");
    buf.set_bytes(Point::new(0, 2), b"abcd");
    buf.set_bytes(Point::new(0, i32::MAX), b"abcd");
    assert_eq!(rows(&buf, 6, 2), vec!["......", "......"]);
}

#[test]
fn draw_str_writes_the_bytes_of_the_text() {
    let mut buf = ScreenBuffer::new(8, 2);
    draw_str(&mut buf, Point::new(1, 0), "Pause.");
    draw_str(&mut buf, Point::new(6, 1), "abc");
    assert_eq!(rows(&buf, 8, 2), vec![".Pause..", "......ab"]);
}

#[test]
fn draw_str_writes_every_byte_of_a_character() {
    let mut buf = ScreenBuffer::new(4, 1);
    draw_str(&mut buf, Point::new(0, 0), "aé");
    assert_eq!(buf.byte_at(0, 0), b'a');
    assert_eq!(buf.byte_at(1, 0), 0xc3);
    assert_eq!(buf.byte_at(2, 0), 0xa9);
    assert_eq!(buf.byte_at(3, 0), 0);
}

#[test]
fn clear_zeroes_every_cell() {
    let mut buf = ScreenBuffer::new(4, 2);
    draw_str(&mut buf, Point::new(0, 0), "abcd");
    draw_str(&mut buf, Point::new(0, 1), "efgh");
    buf.clear();
    assert_eq!(rows(&buf, 4, 2), vec!["....", "...."]);
}

#[test]
fn draw_rect_draws_the_outline() {
    let mut buf = ScreenBuffer::new(7, 6);
    draw_rect(&mut buf, Point::new(1, 1), 5, 4, '+');
    assert_eq!(
        rows(&buf, 7, 6),
        vec![".......", ".+++++.", ".+...+.", ".+...+.", ".+++++.", "......."]
    );
}

#[test]
fn draw_rect_of_two_by_two_is_solid() {
    let mut buf = ScreenBuffer::new(4, 4);
    draw_rect(&mut buf, Point::new(1, 1), 2, 2, '#');
    assert_eq!(rows(&buf, 4, 4), vec!["....", ".##.", ".##.", "...."]);
}

#[test]
fn draw_rect_smaller_than_two_cells_draws_nothing() {
    let mut buf = ScreenBuffer::new(4, 4);
    draw_rect(&mut buf, Point::new(0, 0), 1, 4, '#');
    draw_rect(&mut buf, Point::new(0, 0), 4, 1, '#');
    draw_rect(&mut buf, Point::new(0, 0), 0, 0, '#');
    draw_rect(&mut buf, Point::new(0, 0), -3, 5, '#');
    draw_rect(&mut buf, Point::new(i32::MAX, i32::MAX), 1, 1, '#');
    assert_eq!(rows(&buf, 4, 4), vec!["....", "....", "....", "...."]);
}

#[test]
fn draw_rect_is_clipped() {
    let mut buf = ScreenBuffer::new(4, 3);
    draw_rect(&mut buf, Point::new(-1, -1), 4, 3, '+');
    assert_eq!(rows(&buf, 4, 3), vec!["..+.", "+++.", "...."]);
    let mut buf = ScreenBuffer::new(4, 3);
    draw_rect(&mut buf, Point::new(2, 1), 5, 5, '+');
    assert_eq!(rows(&buf, 4, 3), vec!["....", "..++", "..+."]);
}

#[test]
fn draw_rect_takes_any_corner_and_size() {
    let mut buf = ScreenBuffer::new(4, 3);
    draw_rect(&mut buf, Point::new(-5, -5), i32::MAX, i32::MAX, '+');
    draw_rect(&mut buf, Point::new(i32::MAX, i32::MAX), i32::MAX, i32::MAX, '+');
    draw_rect(&mut buf, Point::new(i32::MIN, i32::MIN), i32::MAX, i32::MAX, '+');
    draw_rect(&mut buf, Point::new(i32::MAX - 1, 0), 5, 3, '+');
    draw_rect(&mut buf, Point::new(0, i32::MAX - 1), 4, 5, '+');
    assert_eq!(rows(&buf, 4, 3), vec!["....", "....", "...."]);
    draw_rect(&mut buf, Point::new(1, -5), i32::MAX, i32::MAX, '+');
    assert_eq!(rows(&buf, 4, 3), vec![".+..", ".+..", ".+.."]);
    draw_rect(&mut buf, Point::new(-5, 1), i32::MAX, i32::MAX, '-');
    assert_eq!(rows(&buf, 4, 3), vec![".+..", "----", ".+.."]);
}

#[test]
fn draw_rect_keeps_what_lies_inside_and_outside() {
    let mut buf = ScreenBuffer::new(5, 5);
    for y in 0..5 {
        draw_str(&mut buf, Point::new(0, y), "ooooo");
    }
    draw_rect(&mut buf, Point::new(1, 1), 3, 3, '+');
    assert_eq!(rows(&buf, 5, 5), vec!["ooooo", "o+++o", "o+o+o", "o+++o", "ooooo"]);
}

#[test]
fn draw_rect_cuts_the_character_to_a_byte() {
    let mut buf = ScreenBuffer::new(2, 2);
    draw_rect(&mut buf, Point::new(0, 0), 2, 2, '\u{141}');
    assert_eq!(buf.byte_at(0, 0), 0x41);
    assert_eq!(buf.byte_at(1, 1), 0x41);
}

#[test]
fn format_number_writes_decimal_digits() {
    assert_eq!(format_number(0), b"0".to_vec());
    assert_eq!(format_number(7), b"7".to_vec());
    assert_eq!(format_number(10), b"10".to_vec());
    assert_eq!(format_number(100), b"100".to_vec());
    assert_eq!(format_number(9_999_999), b"9999999".to_vec());
    assert_eq!(format_number(i32::MAX), b"2147483647".to_vec());
    assert_eq!(format_number(-1), b"-1".to_vec());
    assert_eq!(format_number(-250), b"-250".to_vec());
    assert_eq!(format_number(i32::MIN), b"-2147483648".to_vec());
    for n in [0, 5, 42, 1000, 123_456, -77] {
        assert_eq!(format_number(n), n.to_string().into_bytes());
    }
}
