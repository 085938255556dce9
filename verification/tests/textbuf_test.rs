use edi::textbuf::TextBuffer;

fn line_string(buf: &TextBuffer, row: usize) -> String {
    buf.line(row).iter().collect()
}

#[test]
fn load_splits_on_newline() {
    let buf = TextBuffer::load("ab\ncd");
    assert_eq!(buf.line_count(), 2);
    assert_eq!(line_string(&buf, 0), "ab");
    assert_eq!(line_string(&buf, 1), "cd");
}

#[test]
fn load_empty_text_is_one_empty_line() {
    let buf = TextBuffer::load("");
    assert_eq!(buf.line_count(), 1);
    assert_eq!(buf.line_length(0), 0);
}

#[test]
fn load_strips_carriage_returns() {
    let buf = TextBuffer::load("ab\r\ncd\r\n");
    assert_eq!(buf.line_count(), 2);
    assert_eq!(line_string(&buf, 0), "ab");
    assert_eq!(line_string(&buf, 1), "cd");
}

#[test]
fn load_drops_trailing_terminator_piece() {
    let buf = TextBuffer::load("ab\ncd\n");
    assert_eq!(buf.line_count(), 2);
    let buf2 = TextBuffer::load("\n");
    assert_eq!(buf2.line_count(), 1);
    assert_eq!(buf2.line_length(0), 0);
}

#[test]
fn load_keeps_a_bare_trailing_carriage_return() {
    // only a carriage return directly before a newline is a terminator;
    // one at the very end of the text is an ordinary character
    let buf = TextBuffer::load("ab\r");
    assert_eq!(buf.line_count(), 1);
    assert_eq!(line_string(&buf, 0), "ab\r");
    // so is one away from any line end
    let buf2 = TextBuffer::load("a\rb");
    assert_eq!(buf2.line_count(), 1);
    assert_eq!(buf2.line_length(0), 3);
    // and only the one next to the newline is consumed
    let buf3 = TextBuffer::load("a\r\r\nb");
    assert_eq!(buf3.line_count(), 2);
    assert_eq!(line_string(&buf3, 0), "a\r");
    assert_eq!(line_string(&buf3, 1), "b");
}

#[test]
fn load_keeps_inner_empty_lines() {
    let buf = TextBuffer::load("a\n\nb");
    assert_eq!(buf.line_count(), 3);
    assert_eq!(line_string(&buf, 0), "a");
    assert_eq!(line_string(&buf, 1), "");
    assert_eq!(line_string(&buf, 2), "b");
}

#[test]
fn insert_char_at_offsets() {
    let mut buf = TextBuffer::load("ac");
    buf.insert_char(0, 1, 'b');
    assert_eq!(line_string(&buf, 0), "abc");
    buf.insert_char(0, 3, 'd');
    assert_eq!(line_string(&buf, 0), "abcd");
    buf.insert_char(0, 0, 'z');
    assert_eq!(line_string(&buf, 0), "zabcd");
}

#[test]
fn split_line_in_middle() {
    let mut buf = TextBuffer::load("hello\nworld");
    buf.split_line(0, 3);
    assert_eq!(buf.line_count(), 3);
    assert_eq!(line_string(&buf, 0), "hel");
    assert_eq!(line_string(&buf, 1), "lo");
    assert_eq!(line_string(&buf, 2), "world");
}

#[test]
fn split_line_at_end_makes_empty_line() {
    let mut buf = TextBuffer::load("ab");
    buf.split_line(0, 2);
    assert_eq!(buf.line_count(), 2);
    assert_eq!(line_string(&buf, 0), "ab");
    assert_eq!(buf.line_length(1), 0);
}

#[test]
fn delete_char_before_inside_line() {
    let mut buf = TextBuffer::load("abc");
    let (row, col) = buf.delete_char_before(0, 2);
    assert_eq!((row, col), (0, 1));
    assert_eq!(line_string(&buf, 0), "ac");
}

#[test]
fn delete_char_before_joins_lines() {
    let mut buf = TextBuffer::load("ab\ncd");
    let (row, col) = buf.delete_char_before(1, 0);
    assert_eq!((row, col), (0, 2));
    assert_eq!(buf.line_count(), 1);
    assert_eq!(line_string(&buf, 0), "abcd");
}

#[test]
fn delete_char_before_at_document_start_is_noop() {
    let mut buf = TextBuffer::load("ab");
    let (row, col) = buf.delete_char_before(0, 0);
    assert_eq!((row, col), (0, 0));
    assert_eq!(buf.line_count(), 1);
    assert_eq!(line_string(&buf, 0), "ab");
}

#[test]
fn split_then_delete_at_boundary_round_trips() {
    let mut buf = TextBuffer::load("hello");
    buf.split_line(0, 3);
    let (row, col) = buf.delete_char_before(1, 0);
    assert_eq!((row, col), (0, 3));
    assert_eq!(buf.line_count(), 1);
    assert_eq!(line_string(&buf, 0), "hello");
}

#[test]
fn serialize_terminates_every_line() {
    let buf = TextBuffer::load("ab\ncd");
    let out: String = buf.serialize().iter().collect();
    assert_eq!(out, "ab\ncd\n");
    let empty = TextBuffer::new();
    let out2: String = empty.serialize().iter().collect();
    assert_eq!(out2, "\n");
}

#[test]
fn serialize_then_load_round_trips() {
    let buf = TextBuffer::load("one\ntwo\nthree");
    let text: String = buf.serialize().iter().collect();
    let again = TextBuffer::load(&text);
    assert_eq!(again.line_count(), 3);
    assert_eq!(line_string(&again, 0), "one");
    assert_eq!(line_string(&again, 1), "two");
    assert_eq!(line_string(&again, 2), "three");
}

#[test]
fn load_non_ascii_counts_code_points() {
    let buf = TextBuffer::load("héllo\nwörld");
    assert_eq!(buf.line_count(), 2);
    assert_eq!(buf.line_length(0), 5);
    assert_eq!(line_string(&buf, 1), "wörld");
}
