use modal_edit::editor::{EditorAction, EditorConfig, Mode};

fn v(s: &str) -> Vec<u8> {
    s.as_bytes().to_vec()
}

fn editor_with(lines: &[&str], cols: u16, rows: u16) -> EditorConfig {
    let mut ed = EditorConfig::new(cols, rows);
    let owned: Vec<Vec<u8>> = lines.iter().map(|l| v(l)).collect();
    ed.buffer.load_lines(&owned);
    ed
}

fn content(ed: &EditorConfig) -> Vec<Vec<u8>> {
    (0..ed.buffer.line_count()).map(|i| ed.buffer.line(i).clone()).collect()
}

#[test]
fn cursor_invariant_over_move_sequences() {
    let mut ed = editor_with(&["aaaaa", "b", "ccc"], 10, 4);
    let moves = [
        b'j', b'j', b'l', b'l', b'k', b'h', b'j', b'j', b'j', b'l', b'k', b'k', b'k', b'k', b'h',
        b'l', b'l', b'l', b'l', b'l', b'l', b'j', b'h', b'h', b'j', b'l',
    ];
    for &m in moves.iter() {
        ed.move_cursor(m);
        assert!(ed.cy < ed.buffer.line_count());
        assert!(ed.cx <= ed.buffer.line_len(ed.cy));
    }
}

#[test]
fn move_down_clamps_column_to_shorter_line() {
    let mut ed = editor_with(&["aaaaa", "b"], 10, 4);
    for _ in 0..5 {
        ed.move_cursor(b'l');
    }
    assert_eq!((ed.cx, ed.cy), (5, 0));
    ed.move_cursor(b'j');
    assert_eq!((ed.cx, ed.cy), (1, 1));
}

#[test]
fn moves_at_boundaries_are_no_ops() {
    let mut ed = editor_with(&["ab"], 10, 4);
    ed.move_cursor(b'h');
    assert_eq!((ed.cx, ed.cy), (0, 0));
    ed.move_cursor(b'k');
    assert_eq!((ed.cx, ed.cy), (0, 0));
    ed.move_cursor(b'j');
    assert_eq!((ed.cx, ed.cy), (0, 0));
    ed.move_cursor(b'l');
    ed.move_cursor(b'l');
    assert_eq!((ed.cx, ed.cy), (2, 0));
    ed.move_cursor(b'l');
    assert_eq!((ed.cx, ed.cy), (2, 0));
}

#[test]
fn insert_then_delete_restores_line() {
    let mut ed = editor_with(&["abcd"], 10, 4);
    ed.buffer.insert_char(0, 2, b'X');
    assert_eq!(content(&ed), vec![v("abXcd")]);
    ed.buffer.delete_char(0, 2);
    assert_eq!(content(&ed), vec![v("abcd")]);
}

#[test]
fn split_then_join_restores_line() {
    let mut ed = editor_with(&["hello"], 10, 4);
    ed.buffer.split_line(0, 2);
    assert_eq!(content(&ed), vec![v("he"), v("llo")]);
    ed.buffer.join_with_previous(1);
    assert_eq!(content(&ed), vec![v("hello")]);
}

#[test]
fn loaded_document_serializes_with_newlines() {
    let mut ed = EditorConfig::new(10, 4);
    ed.buffer.load_lines(&vec![v("a"), v("b")]);
    assert_eq!(ed.buffer.rows_to_string(), v("a\nb"));
}

#[test]
fn loading_no_lines_keeps_one_blank_row() {
    let mut ed = EditorConfig::new(10, 4);
    ed.buffer.load_lines(&Vec::new());
    assert_eq!(ed.buffer.line_count(), 1);
    assert_eq!(ed.buffer.rows_to_string(), v(""));
}

#[test]
fn down_moves_and_scroll_on_three_line_document() {
    let mut ed = editor_with(&["aaaaa", "bbbbb", "ccccc"], 10, 4);
    ed.handle_keypress(b'j');
    ed.handle_keypress(b'j');
    assert_eq!(ed.cy, 2);
    ed.scroll();
    assert_eq!(ed.row_offset, 0);
    ed.handle_keypress(b'j');
    assert_eq!(ed.cy, 2);
}

#[test]
fn insert_type_save_quit_session() {
    let mut ed = EditorConfig::new(80, 24);
    ed.filename = Some(v("out.txt"));
    assert_eq!(ed.handle_keypress(b'i'), EditorAction::Continue);
    assert_eq!(ed.mode, Mode::Insert);
    ed.handle_keypress(b'h');
    ed.handle_keypress(b'i');
    ed.handle_keypress(0x1b);
    assert_eq!(ed.mode, Mode::Normal);
    ed.handle_keypress(b':');
    ed.handle_keypress(b'w');
    ed.handle_keypress(b'q');
    let act = ed.handle_keypress(0x0d);
    assert_eq!(act, EditorAction::SaveAndQuit);
    assert_eq!(ed.buffer.rows_to_string(), v("hi"));
}

#[test]
fn unknown_command_reports_and_continues() {
    let mut ed = EditorConfig::new(80, 24);
    ed.handle_keypress(b':');
    ed.handle_keypress(b'z');
    ed.handle_keypress(b'z');
    let act = ed.handle_keypress(b'\r');
    assert_eq!(act, EditorAction::Continue);
    assert_eq!(ed.status_msg, v("Unknown: zz"));
    assert_eq!(ed.mode, Mode::Normal);
    assert!(ed.command_buffer.is_empty());
}

#[test]
fn backspace_at_line_start_joins_with_previous() {
    let mut ed = editor_with(&["ab", "cd"], 10, 4);
    ed.cy = 1;
    ed.cx = 0;
    ed.delete_char();
    assert_eq!(content(&ed), vec![v("abcd")]);
    assert_eq!((ed.cx, ed.cy), (2, 0));
}

#[test]
fn backspace_at_document_start_is_no_op() {
    let mut ed = editor_with(&["ab"], 10, 4);
    ed.delete_char();
    assert_eq!(content(&ed), vec![v("ab")]);
    assert_eq!((ed.cx, ed.cy), (0, 0));
}

#[test]
fn backspace_within_line_removes_before_cursor() {
    let mut ed = editor_with(&["abc"], 10, 4);
    ed.cx = 2;
    ed.delete_char();
    assert_eq!(content(&ed), vec![v("ac")]);
    assert_eq!((ed.cx, ed.cy), (1, 0));
}

#[test]
fn enter_in_insert_mode_splits_line() {
    let mut ed = editor_with(&["hello"], 10, 4);
    ed.handle_keypress(b'i');
    ed.cx = 2;
    ed.handle_keypress(b'\r');
    assert_eq!(content(&ed), vec![v("he"), v("llo")]);
    assert_eq!((ed.cx, ed.cy), (0, 1));
}

#[test]
fn control_bytes_in_insert_mode_are_ignored() {
    let mut ed = editor_with(&["ab"], 10, 4);
    ed.handle_keypress(b'i');
    ed.handle_keypress(0x01);
    ed.handle_keypress(0x1f);
    assert_eq!(content(&ed), vec![v("ab")]);
    assert_eq!(ed.mode, Mode::Insert);
}

#[test]
fn high_non_control_byte_is_inserted() {
    let mut ed = EditorConfig::new(10, 4);
    ed.handle_keypress(b'i');
    ed.handle_keypress(0xa0);
    assert_eq!(content(&ed), vec![vec![0xa0]]);
}

#[test]
fn unknown_keys_in_normal_mode_are_ignored() {
    let mut ed = editor_with(&["ab"], 10, 4);
    let act = ed.handle_keypress(b'x');
    assert_eq!(act, EditorAction::Continue);
    assert_eq!(ed.mode, Mode::Normal);
    assert_eq!(content(&ed), vec![v("ab")]);
}

#[test]
fn escape_cancels_command_mode_and_clears_buffer() {
    let mut ed = EditorConfig::new(10, 4);
    ed.handle_keypress(b':');
    ed.handle_keypress(b'z');
    ed.handle_keypress(0x1b);
    assert_eq!(ed.mode, Mode::Normal);
    assert!(ed.command_buffer.is_empty());
    ed.handle_keypress(b':');
    let act = ed.handle_keypress(b'\n');
    assert_eq!(act, EditorAction::Continue);
    assert_eq!(ed.status_msg, v("Unknown: "));
}

#[test]
fn command_backspace_edits_pending_buffer() {
    let mut ed = EditorConfig::new(10, 4);
    ed.filename = Some(v("f.txt"));
    ed.handle_keypress(b':');
    ed.handle_keypress(b'w');
    ed.handle_keypress(b'q');
    ed.handle_keypress(0x7f);
    let act = ed.handle_keypress(b'\r');
    assert_eq!(act, EditorAction::SaveAndContinue);
}

#[test]
fn command_backspace_on_empty_buffer_is_no_op() {
    let mut ed = EditorConfig::new(10, 4);
    ed.handle_keypress(b':');
    ed.handle_keypress(0x08);
    let act = ed.handle_keypress(b'\r');
    assert_eq!(act, EditorAction::Continue);
    assert_eq!(ed.status_msg, v("Unknown: "));
}

#[test]
fn quit_command_stops_without_saving() {
    let mut ed = EditorConfig::new(10, 4);
    ed.handle_keypress(b':');
    ed.handle_keypress(b'q');
    let act = ed.handle_keypress(b'\r');
    assert_eq!(act, EditorAction::Quit);
}

#[test]
fn save_without_filename_reports_no_file_name() {
    let mut ed = EditorConfig::new(80, 24);
    ed.handle_keypress(b':');
    ed.handle_keypress(b'w');
    let act = ed.handle_keypress(b'\r');
    assert_eq!(act, EditorAction::Continue);
    assert_eq!(ed.status_msg, v("No file name! Use :w <filename> (TBD)"));
}

#[test]
fn save_and_quit_without_filename_still_quits() {
    let mut ed = EditorConfig::new(80, 24);
    ed.handle_keypress(b':');
    ed.handle_keypress(b'w');
    ed.handle_keypress(b'q');
    let act = ed.handle_keypress(b'\r');
    assert_eq!(act, EditorAction::Quit);
    assert_eq!(ed.status_msg, v("No file name! Use :w <filename> (TBD)"));
}

#[test]
fn command_buffer_is_trimmed_before_interpretation() {
    let mut ed = EditorConfig::new(80, 24);
    ed.filename = Some(v("f.txt"));
    ed.handle_keypress(b':');
    ed.handle_keypress(b' ');
    ed.handle_keypress(b'w');
    ed.handle_keypress(b'q');
    ed.handle_keypress(b' ');
    let act = ed.handle_keypress(b'\r');
    assert_eq!(act, EditorAction::SaveAndQuit);
}

#[test]
fn save_outcomes_set_status_message() {
    let mut ed = EditorConfig::new(80, 24);
    ed.filename = Some(v("out.txt"));
    ed.record_save_success();
    assert_eq!(ed.status_msg, v("Saved to out.txt"));
    ed.record_save_error(&v("disk full"));
    assert_eq!(ed.status_msg, v("Error: disk full"));
}

#[test]
fn attaching_a_readable_file_loads_and_reports() {
    let mut ed = EditorConfig::new(80, 24);
    let lines = vec![v("a"), v("b")];
    ed.attach_file(v("doc.txt"), Some(&lines));
    assert_eq!(ed.filename, Some(v("doc.txt")));
    assert_eq!(ed.status_msg, v("Opened: doc.txt"));
    assert_eq!(ed.buffer.rows_to_string(), v("a\nb"));
}

#[test]
fn attaching_a_missing_file_starts_a_new_named_document() {
    let mut ed = EditorConfig::new(80, 24);
    ed.attach_file(v("doc.txt"), None);
    assert_eq!(ed.filename, Some(v("doc.txt")));
    assert_eq!(ed.status_msg, v("New file: doc.txt"));
    assert_eq!(ed.buffer.line_count(), 1);
    assert_eq!(ed.buffer.rows_to_string(), v(""));
}

#[test]
fn new_editor_greets_in_normal_mode() {
    let ed = EditorConfig::new(80, 24);
    assert_eq!(ed.mode, Mode::Normal);
    assert_eq!((ed.cx, ed.cy), (0, 0));
    assert_eq!(ed.row_offset, 0);
    assert_eq!(ed.status_msg, v("WELCOME! :q to quit"));
    assert_eq!(ed.buffer.line_count(), 1);
    assert!(ed.filename.is_none());
}
