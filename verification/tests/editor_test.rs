use edi::editor::{Editor, EditorAction};
use edi::keys::{ArrowDirection, Key};
use edi::textbuf::TextBuffer;

fn line_string(buf: &TextBuffer, row: usize) -> String {
    buf.line(row).iter().collect()
}

#[test]
fn enter_splits_line_under_cursor() {
    // load "ab\ncd", walk to row 0 col 2, press Enter
    let mut ed = Editor::new();
    ed.load("ab\ncd");
    ed.process_key(Key::Arrow(ArrowDirection::Right));
    ed.process_key(Key::Arrow(ArrowDirection::Right));
    assert_eq!(ed.cursor().row, 0);
    assert_eq!(ed.cursor().col, 2);
    let act = ed.process_key(Key::NewLine);
    assert_eq!(act, EditorAction::Continue);
    assert_eq!(ed.text().line_count(), 3);
    assert_eq!(line_string(ed.text(), 0), "ab");
    assert_eq!(line_string(ed.text(), 1), "");
    assert_eq!(line_string(ed.text(), 2), "cd");
    assert_eq!(ed.cursor().row, 1);
    assert_eq!(ed.cursor().col, 0);
}

#[test]
fn typing_then_backspace_leaves_prefix() {
    // empty buffer, type "hi", one Backspace
    let mut ed = Editor::new();
    ed.process_key(Key::Char('h'));
    ed.process_key(Key::Char('i'));
    assert_eq!(line_string(ed.text(), 0), "hi");
    ed.process_key(Key::Char('\u{7f}'));
    assert_eq!(ed.text().line_count(), 1);
    assert_eq!(line_string(ed.text(), 0), "h");
    assert_eq!(ed.cursor().col, 1);
    assert_eq!(ed.cursor().row, 0);
}

#[test]
fn backspace_at_document_start_is_noop() {
    // single line "x", cursor at column 0
    let mut ed = Editor::new();
    ed.load("x");
    assert_eq!(ed.cursor().col, 0);
    ed.process_key(Key::Char('\u{7f}'));
    assert_eq!(ed.text().line_count(), 1);
    assert_eq!(line_string(ed.text(), 0), "x");
    assert_eq!(ed.cursor().row, 0);
    assert_eq!(ed.cursor().col, 0);
}

#[test]
fn backspace_at_line_start_joins_lines() {
    let mut ed = Editor::new();
    ed.load("ab\ncd");
    ed.process_key(Key::Arrow(ArrowDirection::Down));
    assert_eq!(ed.cursor().row, 1);
    ed.process_key(Key::Char('\u{7f}'));
    assert_eq!(ed.text().line_count(), 1);
    assert_eq!(line_string(ed.text(), 0), "abcd");
    assert_eq!(ed.cursor().row, 0);
    assert_eq!(ed.cursor().col, 2);
}

#[test]
fn quit_and_save_actions() {
    let mut ed = Editor::new();
    assert_eq!(ed.process_key(Key::Ctrl('Q')), EditorAction::Quit);
    assert_eq!(ed.process_key(Key::Ctrl('S')), EditorAction::Save);
    assert_eq!(ed.process_key(Key::Ctrl('X')), EditorAction::Continue);
}

#[test]
fn tab_inserts_literal_tab() {
    let mut ed = Editor::new();
    ed.process_key(Key::Ctrl('I'));
    assert_eq!(line_string(ed.text(), 0), "\t");
    assert_eq!(ed.cursor().col, 1);
}

#[test]
fn home_end_and_escape_move_cursor() {
    let mut ed = Editor::new();
    ed.load("hello\nworld");
    ed.process_key(Key::End);
    assert_eq!(ed.cursor().col, 5);
    ed.process_key(Key::Home);
    assert_eq!(ed.cursor().col, 0);
    ed.process_key(Key::Arrow(ArrowDirection::Down));
    ed.process_key(Key::End);
    ed.process_key(Key::Esc);
    assert_eq!(ed.cursor().row, 0);
    assert_eq!(ed.cursor().col, 0);
}

#[test]
fn delete_key_steps_left() {
    let mut ed = Editor::new();
    ed.load("ab");
    ed.process_key(Key::Arrow(ArrowDirection::Right));
    assert_eq!(ed.cursor().col, 1);
    ed.process_key(Key::Delete);
    assert_eq!(ed.cursor().col, 0);
    // the text is untouched
    assert_eq!(line_string(ed.text(), 0), "ab");
}

#[test]
fn paging_steps_one_screen_of_rows() {
    let mut ed = Editor::new();
    ed.load("a\nb\nc\nd\ne\nf");
    ed.update_screen_size(4, 10);
    ed.process_key(Key::PageDown);
    assert_eq!(ed.cursor().row, 4);
    // a second page clamps at the last line
    ed.process_key(Key::PageDown);
    assert_eq!(ed.cursor().row, 5);
    ed.process_key(Key::PageUp);
    assert_eq!(ed.cursor().row, 1);
}

#[test]
fn unknown_key_changes_nothing() {
    let mut ed = Editor::new();
    ed.load("ab");
    let act = ed.process_key(Key::Unknown);
    assert_eq!(act, EditorAction::Continue);
    assert_eq!(line_string(ed.text(), 0), "ab");
    assert_eq!(ed.cursor().col, 0);
}

#[test]
fn update_screen_size_never_goes_to_zero() {
    let mut ed = Editor::new();
    ed.update_screen_size(0, 0);
    assert_eq!(ed.viewport().screen_rows, 1);
    assert_eq!(ed.viewport().screen_cols, 1);
    ed.update_screen_size(24, 80);
    assert_eq!(ed.viewport().screen_rows, 24);
    assert_eq!(ed.viewport().screen_cols, 80);
}

#[test]
fn scroll_follows_cursor() {
    let mut ed = Editor::new();
    ed.load("a\nb\nc\nd\ne\nf\ng\nh");
    ed.update_screen_size(3, 10);
    for _ in 0..5 {
        ed.process_key(Key::Arrow(ArrowDirection::Down));
    }
    ed.scroll();
    assert_eq!(ed.viewport().row_offset, 3);
    // scrolling again without moving changes nothing
    ed.scroll();
    assert_eq!(ed.viewport().row_offset, 3);
}

#[test]
fn header_is_centered_banner() {
    let mut ed = Editor::new();
    ed.update_screen_size(10, 20);
    assert_eq!(ed.header(), "== \x1b[96mWelcome to Edi\x1b[0m ==");
    ed.update_screen_size(10, 5);
    assert_eq!(ed.header(), " \x1b[96mWelcome to Edi\x1b[0m ");
}

#[test]
fn refresh_draws_all_rows_of_loaded_text() {
    let mut ed = Editor::new();
    ed.load("hello\nworld");
    ed.update_screen_size(3, 10);
    ed.refresh_screen();
    let out = ed.take_output();
    // hide, park top-left, three rows (the last a filler), cursor cell, show
    let expected = "\x1b[?25l\x1b[1;1Hhello\x1b[0K\r\nworld\x1b[0K\r\n~\x1b[0K\x1b[1;1H\x1b[?25h";
    assert_eq!(out, expected);
    // the staged buffer was handed over whole
    assert_eq!(ed.take_output(), "");
}

#[test]
fn refresh_clips_long_lines_to_the_window() {
    let mut ed = Editor::new();
    ed.load("abcdefghij");
    ed.update_screen_size(1, 4);
    // walk right past the window so it scrolls
    for _ in 0..6 {
        ed.process_key(Key::Arrow(ArrowDirection::Right));
    }
    ed.refresh_screen();
    let out = ed.take_output();
    assert_eq!(ed.viewport().col_offset, 3);
    let expected = "\x1b[?25l\x1b[1;1Hdefg\x1b[0K\x1b[1;4H\x1b[?25h";
    assert_eq!(out, expected);
}

#[test]
fn refresh_on_pristine_buffer_shows_banner_row() {
    let mut ed = Editor::new();
    ed.update_screen_size(6, 20);
    ed.refresh_screen();
    let out = ed.take_output();
    // rows: the empty first line, then a banner at one third of the screen
    let expected = "\x1b[?25l\x1b[1;1H\x1b[0K\r\n~\x1b[0K\r\n== \x1b[96mWelcome to Edi\x1b[0m ==\x1b[0K\r\n~\x1b[0K\r\n~\x1b[0K\r\n~\x1b[0K\x1b[1;1H\x1b[?25h";
    assert_eq!(out, expected);
}

#[test]
fn serialize_after_editing_session() {
    let mut ed = Editor::new();
    ed.process_key(Key::Char('o'));
    ed.process_key(Key::Char('k'));
    ed.process_key(Key::NewLine);
    ed.process_key(Key::Char('!'));
    let out: String = ed.text().serialize().iter().collect();
    assert_eq!(out, "ok\n!\n");
}
