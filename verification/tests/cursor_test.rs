use edi::cursor::{Bound, Cursor};
use edi::keys::ArrowDirection;
use edi::textbuf::TextBuffer;

#[test]
fn left_and_right_stay_within_line_bounds() {
    let buf = TextBuffer::load("ab\ncd");
    let mut c = Cursor::new();
    // stepping left at the document start stays put
    c.arrow_move(ArrowDirection::Left, &buf);
    assert_eq!(c, Cursor { row: 0, col: 0 });
    // many rights walk through both lines and stop at the very end
    for _ in 0..10 {
        c.arrow_move(ArrowDirection::Right, &buf);
        assert!(c.row < 2);
        assert!(c.col <= buf.line_length(c.row));
    }
    assert_eq!(c, Cursor { row: 1, col: 2 });
}

#[test]
fn right_at_line_end_wraps_to_next_line_start() {
    let buf = TextBuffer::load("ab\ncd");
    let mut c = Cursor { row: 0, col: 0 };
    c.arrow_move(ArrowDirection::Right, &buf);
    c.arrow_move(ArrowDirection::Right, &buf);
    assert_eq!(c, Cursor { row: 0, col: 2 });
    c.arrow_move(ArrowDirection::Right, &buf);
    assert_eq!(c, Cursor { row: 1, col: 0 });
}

#[test]
fn left_at_line_start_wraps_to_previous_line_end() {
    let buf = TextBuffer::load("ab\ncd");
    let mut c = Cursor { row: 1, col: 0 };
    c.arrow_move(ArrowDirection::Left, &buf);
    assert_eq!(c, Cursor { row: 0, col: 2 });
}

#[test]
fn up_and_down_stay_within_rows_and_reclamp_column() {
    let buf = TextBuffer::load("long line\nab\nlonger line");
    let mut c = Cursor { row: 0, col: 9 };
    // moving down onto the short line pulls the column in
    c.arrow_move(ArrowDirection::Down, &buf);
    assert_eq!(c, Cursor { row: 1, col: 2 });
    // moving down onto the long line keeps the clamped column
    c.arrow_move(ArrowDirection::Down, &buf);
    assert_eq!(c, Cursor { row: 2, col: 2 });
    // the bottom is a wall
    c.arrow_move(ArrowDirection::Down, &buf);
    assert_eq!(c, Cursor { row: 2, col: 2 });
    // and so is the top
    c.arrow_move(ArrowDirection::Up, &buf);
    c.arrow_move(ArrowDirection::Up, &buf);
    c.arrow_move(ArrowDirection::Up, &buf);
    assert_eq!(c.row, 0);
    assert!(c.col <= buf.line_length(0));
}

#[test]
fn any_move_sequence_keeps_cursor_valid() {
    let buf = TextBuffer::load("a\nbcd\n\nef");
    let mut c = Cursor::new();
    let dirs = [
        ArrowDirection::Down,
        ArrowDirection::Right,
        ArrowDirection::Right,
        ArrowDirection::Right,
        ArrowDirection::Down,
        ArrowDirection::Down,
        ArrowDirection::Left,
        ArrowDirection::Up,
        ArrowDirection::Right,
        ArrowDirection::Down,
        ArrowDirection::Down,
        ArrowDirection::Right,
    ];
    for dir in dirs {
        c.arrow_move(dir, &buf);
        assert!(c.row < buf.line_count());
        assert!(c.col <= buf.line_length(c.row));
    }
}

#[test]
fn bound_clamps_both_ways() {
    let cols = Bound { start: 0, end: 5, allow_end: true };
    assert_eq!(cols.clamp(9), 5);
    assert_eq!(cols.clamp(3), 3);
    let rows = Bound { start: 0, end: 5, allow_end: false };
    assert_eq!(rows.clamp(9), 4);
    assert_eq!(rows.clamp(0), 0);
    let shifted = Bound { start: 2, end: 5, allow_end: true };
    assert_eq!(shifted.clamp(0), 2);
}

#[test]
fn set_column_and_set_row_saturate() {
    let mut c = Cursor::new();
    c.set_column(42, &Bound { start: 0, end: 10, allow_end: true });
    assert_eq!(c.col, 10);
    c.set_row(42, &Bound { start: 0, end: 10, allow_end: false });
    assert_eq!(c.row, 9);
    c.set_column(3, &Bound { start: 0, end: 10, allow_end: true });
    assert_eq!(c.col, 3);
}

#[test]
fn home_and_end_jump_within_line() {
    let buf = TextBuffer::load("hello");
    let mut c = Cursor { row: 0, col: 2 };
    c.end_of_line(&buf);
    assert_eq!(c.col, 5);
    c.home();
    assert_eq!(c.col, 0);
}
