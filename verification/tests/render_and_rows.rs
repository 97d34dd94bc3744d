use modal_edit::editor::{EditorConfig, Mode};
use modal_edit::row::Row;

fn v(s: &str) -> Vec<u8> {
    s.as_bytes().to_vec()
}

fn editor_with(lines: &[&str], cols: u16, rows: u16) -> EditorConfig {
    let mut ed = EditorConfig::new(cols, rows);
    let owned: Vec<Vec<u8>> = lines.iter().map(|l| v(l)).collect();
    ed.buffer.load_lines(&owned);
    ed
}

#[test]
fn row_insert_beyond_end_appends() {
    let mut r = Row::new(v("ab"));
    r.insert_char(10, b'c');
    assert_eq!(r.content, v("abc"));
    r.insert_char(1, b'x');
    assert_eq!(r.content, v("axbc"));
}

#[test]
fn row_delete_out_of_range_is_no_op() {
    let mut r = Row::new(v("ab"));
    r.delete_char(5);
    assert_eq!(r.content, v("ab"));
    r.delete_char(0);
    assert_eq!(r.content, v("b"));
}

#[test]
fn fresh_frame_shows_placeholders_and_status() {
    let ed = EditorConfig::new(80, 24);
    let plan = ed.render_plan();
    assert_eq!(plan.lines.len(), 23);
    assert_eq!(plan.lines[0], v(""));
    for i in 1..23 {
        assert_eq!(plan.lines[i], v("~"));
    }
    let expected = format!("{:<80}", "-- NORMAL -- | Pos: 0,0 | WELCOME! :q to quit");
    assert_eq!(plan.status, expected.into_bytes());
    assert_eq!((plan.cursor_row, plan.cursor_col), (0, 0));
}

#[test]
fn body_lines_are_truncated_to_screen_width() {
    let ed = editor_with(&["abcde", "xy"], 3, 4);
    let plan = ed.render_plan();
    assert_eq!(plan.lines.len(), 3);
    assert_eq!(plan.lines[0], v("abc"));
    assert_eq!(plan.lines[1], v("xy"));
    assert_eq!(plan.lines[2], v("~"));
}

#[test]
fn status_line_is_truncated_to_screen_width() {
    let ed = EditorConfig::new(10, 4);
    let plan = ed.render_plan();
    assert_eq!(plan.status, v("-- NORMAL "));
}

#[test]
fn command_mode_status_shows_pending_command() {
    let mut ed = EditorConfig::new(80, 24);
    ed.handle_keypress(b':');
    ed.handle_keypress(b'w');
    ed.handle_keypress(b'q');
    let plan = ed.render_plan();
    assert_eq!(plan.status, v(":wq"));
}

#[test]
fn insert_mode_status_shows_insert_label_and_position() {
    let mut ed = editor_with(&["abcdefghijklm"], 40, 4);
    ed.handle_keypress(b'i');
    ed.cx = 12;
    let plan = ed.render_plan();
    let expected = format!("{:<40}", "-- INSERT -- | Pos: 12,0 | WELCOME! :q to quit");
    assert_eq!(plan.status, expected[..40].as_bytes().to_vec());
    assert_eq!(ed.mode, Mode::Insert);
}

#[test]
fn scrolling_down_reveals_cursor_row() {
    let mut ed = editor_with(&["l0", "l1", "l2", "l3", "l4"], 10, 4);
    for _ in 0..4 {
        ed.handle_keypress(b'j');
    }
    ed.scroll();
    assert_eq!(ed.row_offset, 2);
    let plan = ed.render_plan();
    assert_eq!(plan.lines[0], v("l2"));
    assert_eq!(plan.lines[1], v("l3"));
    assert_eq!(plan.lines[2], v("l4"));
    assert_eq!((plan.cursor_row, plan.cursor_col), (2, 0));
}

#[test]
fn scrolling_up_reveals_cursor_row() {
    let mut ed = editor_with(&["l0", "l1", "l2", "l3", "l4"], 10, 4);
    ed.cy = 4;
    ed.scroll();
    assert_eq!(ed.row_offset, 2);
    ed.cy = 0;
    ed.scroll();
    assert_eq!(ed.row_offset, 0);
}

#[test]
fn scroll_within_view_keeps_offset() {
    let mut ed = editor_with(&["l0", "l1", "l2"], 10, 4);
    ed.handle_keypress(b'j');
    ed.scroll();
    assert_eq!(ed.row_offset, 0);
}

#[test]
fn degenerate_terminal_still_has_one_body_row() {
    let mut ed = editor_with(&["l0", "l1"], 10, 1);
    ed.handle_keypress(b'j');
    ed.scroll();
    assert_eq!(ed.row_offset, 1);
    let plan = ed.render_plan();
    assert_eq!(plan.lines.len(), 1);
    assert_eq!(plan.lines[0], v("l1"));
}

#[test]
fn serialization_of_three_lines() {
    let ed = editor_with(&["one", "two", "three"], 10, 4);
    assert_eq!(ed.buffer.rows_to_string(), v("one\ntwo\nthree"));
}
