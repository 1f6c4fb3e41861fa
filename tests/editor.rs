use modal_editor::buffer::TextBuffer;
use modal_editor::cursor::Cursor;
use modal_editor::layout::gutter_width;
use modal_editor::mode::{mode_step, Action, Key, KeyEvent, Mode};
use modal_editor::session::{Editor, KeyOutcome};

fn chars(s: &str) -> Vec<char> {
    s.chars().collect()
}

fn editor(lines: &[&str], row: usize, col: usize, mode: Mode) -> Editor {
    Editor::with_content(lines.iter().map(|l| chars(l)).collect(), row, col, mode)
        .expect("position inside the lines")
}

fn text(e: &Editor) -> Vec<String> {
    e.lines().iter().map(|l| l.iter().collect()).collect()
}

fn press(e: &mut Editor, key: Key) -> KeyOutcome {
    e.handle_keypress(KeyEvent::new(key, false))
}

fn at(e: &Editor) -> (usize, usize) {
    let c = e.cursor();
    (c.row, c.col)
}

#[test]
fn new_editor_is_one_empty_line_in_normal_mode() {
    let e = Editor::new();
    assert_eq!(text(&e), vec![String::new()]);
    assert_eq!(at(&e), (0, 0));
    assert_eq!(e.mode(), Mode::Normal);
    assert_eq!(e.line_count(), 1);
}

#[test]
fn type_into_empty_buffer() {
    let mut e = Editor::new();
    press(&mut e, Key::Char('i'));
    press(&mut e, Key::Char('h'));
    press(&mut e, Key::Char('i'));
    assert_eq!(text(&e), vec!["hi"]);
    assert_eq!(at(&e), (0, 2));
    assert_eq!(e.mode(), Mode::Insert);
}

#[test]
fn enter_at_end_of_line_opens_empty_line() {
    let mut e = editor(&["hi"], 0, 2, Mode::Insert);
    press(&mut e, Key::Enter);
    assert_eq!(text(&e), vec!["hi", ""]);
    assert_eq!(at(&e), (1, 0));
}

#[test]
fn enter_in_middle_splits_line() {
    let mut e = editor(&["abcd", "x"], 0, 1, Mode::Insert);
    press(&mut e, Key::Enter);
    assert_eq!(text(&e), vec!["a", "bcd", "x"]);
    assert_eq!(at(&e), (1, 0));
}

#[test]
fn backspace_at_line_start_joins_lines() {
    let mut e = editor(&["ab", "cd"], 1, 0, Mode::Insert);
    press(&mut e, Key::Backspace);
    assert_eq!(text(&e), vec!["abcd"]);
    assert_eq!(at(&e), (0, 2));
}

#[test]
fn backspace_inside_line_removes_previous_char() {
    let mut e = editor(&["abc"], 0, 2, Mode::Insert);
    press(&mut e, Key::Backspace);
    assert_eq!(text(&e), vec!["ac"]);
    assert_eq!(at(&e), (0, 1));
}

#[test]
fn backspace_at_document_start_does_nothing() {
    let mut e = editor(&["abc", "d"], 0, 0, Mode::Insert);
    press(&mut e, Key::Backspace);
    assert_eq!(text(&e), vec!["abc", "d"]);
    assert_eq!(at(&e), (0, 0));
}

#[test]
fn escape_then_h_moves_left_in_normal_mode() {
    let mut e = editor(&["abc"], 0, 1, Mode::Insert);
    press(&mut e, Key::Esc);
    assert_eq!(e.mode(), Mode::Normal);
    press(&mut e, Key::Char('h'));
    assert_eq!(at(&e), (0, 0));
    assert_eq!(e.mode(), Mode::Normal);
    assert_eq!(text(&e), vec!["abc"]);
}

#[test]
fn j_moves_down_and_clamps_column() {
    let mut e = editor(&["ab", "c"], 0, 1, Mode::Normal);
    press(&mut e, Key::Char('j'));
    assert_eq!(at(&e), (1, 1));
    let mut e = editor(&["abcd", "c"], 0, 3, Mode::Normal);
    press(&mut e, Key::Char('j'));
    assert_eq!(at(&e), (1, 1));
}

#[test]
fn k_moves_up_and_clamps_column() {
    let mut e = editor(&["a", "xyz"], 1, 3, Mode::Normal);
    press(&mut e, Key::Char('k'));
    assert_eq!(at(&e), (0, 1));
}

#[test]
fn ctrl_q_in_normal_mode_quits_without_changes() {
    let mut e = editor(&["ab", "c"], 1, 1, Mode::Normal);
    let r = e.handle_keypress(KeyEvent::new(Key::Char('q'), true));
    assert_eq!(r, KeyOutcome::Quit);
    assert_eq!(text(&e), vec!["ab", "c"]);
    assert_eq!(at(&e), (1, 1));
    assert_eq!(e.mode(), Mode::Normal);
}

#[test]
fn plain_q_in_normal_mode_does_not_quit() {
    let mut e = editor(&["ab"], 0, 1, Mode::Normal);
    assert_eq!(press(&mut e, Key::Char('q')), KeyOutcome::Continue);
    assert_eq!(text(&e), vec!["ab"]);
    assert_eq!(at(&e), (0, 1));
}

#[test]
fn ctrl_q_in_insert_mode_inserts_q() {
    let mut e = editor(&["ab"], 0, 1, Mode::Insert);
    let r = e.handle_keypress(KeyEvent::new(Key::Char('q'), true));
    assert_eq!(r, KeyOutcome::Continue);
    assert_eq!(text(&e), vec!["aqb"]);
    assert_eq!(at(&e), (0, 2));
}

#[test]
fn moves_stop_at_edges() {
    let mut e = editor(&["ab", "c"], 0, 0, Mode::Normal);
    press(&mut e, Key::Char('h'));
    assert_eq!(at(&e), (0, 0));
    press(&mut e, Key::Char('k'));
    assert_eq!(at(&e), (0, 0));
    let mut e = editor(&["ab", "c"], 0, 2, Mode::Normal);
    press(&mut e, Key::Char('l'));
    assert_eq!(at(&e), (0, 2));
    let mut e = editor(&["ab", "c"], 1, 1, Mode::Normal);
    press(&mut e, Key::Char('j'));
    assert_eq!(at(&e), (1, 1));
    assert_eq!(text(&e), vec!["ab", "c"]);
}

#[test]
fn moves_do_not_wrap_between_lines() {
    let mut e = editor(&["ab", "c"], 1, 0, Mode::Normal);
    e.move_cursor_left();
    assert_eq!(at(&e), (1, 0));
    let mut e = editor(&["ab", "c"], 0, 2, Mode::Normal);
    e.move_cursor_right();
    assert_eq!(at(&e), (0, 2));
}

#[test]
fn arrows_move_in_both_modes() {
    for mode in [Mode::Normal, Mode::Insert] {
        let mut e = editor(&["abc", "de"], 0, 1, mode);
        press(&mut e, Key::Right);
        assert_eq!(at(&e), (0, 2));
        press(&mut e, Key::Down);
        assert_eq!(at(&e), (1, 2));
        press(&mut e, Key::Left);
        assert_eq!(at(&e), (1, 1));
        press(&mut e, Key::Up);
        assert_eq!(at(&e), (0, 1));
        assert_eq!(e.mode(), mode);
        assert_eq!(text(&e), vec!["abc", "de"]);
    }
}

#[test]
fn hjkl_are_text_in_insert_mode() {
    let mut e = editor(&[""], 0, 0, Mode::Insert);
    for c in ['h', 'j', 'k', 'l', 'i'] {
        press(&mut e, Key::Char(c));
    }
    assert_eq!(text(&e), vec!["hjkli"]);
    assert_eq!(at(&e), (0, 5));
    assert_eq!(e.mode(), Mode::Insert);
}

#[test]
fn normal_mode_ignores_other_keys() {
    let mut e = editor(&["ab"], 0, 1, Mode::Normal);
    for key in [Key::Char('x'), Key::Enter, Key::Backspace, Key::Esc, Key::Other] {
        assert_eq!(press(&mut e, key), KeyOutcome::Continue);
    }
    assert_eq!(text(&e), vec!["ab"]);
    assert_eq!(at(&e), (0, 1));
    assert_eq!(e.mode(), Mode::Normal);
}

#[test]
fn insert_then_backspace_round_trip() {
    let mut e = editor(&["abc", "de"], 1, 1, Mode::Insert);
    press(&mut e, Key::Char('z'));
    assert_eq!(text(&e), vec!["abc", "dze"]);
    press(&mut e, Key::Backspace);
    assert_eq!(text(&e), vec!["abc", "de"]);
    assert_eq!(at(&e), (1, 1));
}

#[test]
fn split_then_join_round_trip() {
    let mut e = editor(&["x", "hello", "y"], 1, 2, Mode::Insert);
    press(&mut e, Key::Enter);
    assert_eq!(text(&e), vec!["x", "he", "llo", "y"]);
    press(&mut e, Key::Backspace);
    assert_eq!(text(&e), vec!["x", "hello", "y"]);
    assert_eq!(at(&e), (1, 2));
}

#[test]
fn buffer_never_empties_and_cursor_stays_inside() {
    let mut e = Editor::new();
    let keys = [
        Key::Char('i'), Key::Char('a'), Key::Enter, Key::Char('b'), Key::Up, Key::Right,
        Key::Right, Key::Backspace, Key::Backspace, Key::Backspace, Key::Backspace, Key::Down,
        Key::Enter, Key::Esc, Key::Char('j'), Key::Char('l'), Key::Char('k'), Key::Char('i'),
        Key::Backspace, Key::Backspace,
    ];
    for key in keys {
        press(&mut e, key);
        let lines = text(&e);
        assert!(!lines.is_empty());
        let (row, col) = at(&e);
        assert!(row < lines.len());
        assert!(col <= lines[row].chars().count());
    }
}

#[test]
fn with_content_rejects_positions_outside() {
    assert!(Editor::with_content(vec![], 0, 0, Mode::Normal).is_none());
    assert!(Editor::with_content(vec![chars("ab")], 1, 0, Mode::Normal).is_none());
    assert!(Editor::with_content(vec![chars("ab")], 0, 3, Mode::Normal).is_none());
    assert!(Editor::with_content(vec![chars("ab")], 0, 2, Mode::Normal).is_some());
}

#[test]
fn mode_step_follows_table() {
    let plain = |k| KeyEvent::new(k, false);
    assert_eq!(mode_step(Mode::Normal, plain(Key::Char('i'))), (Mode::Insert, Action::Nothing));
    assert_eq!(mode_step(Mode::Normal, plain(Key::Char('l'))), (Mode::Normal, Action::MoveRight));
    assert_eq!(mode_step(Mode::Normal, KeyEvent::new(Key::Char('q'), true)), (Mode::Normal, Action::Quit));
    assert_eq!(mode_step(Mode::Insert, plain(Key::Esc)), (Mode::Normal, Action::Nothing));
    assert_eq!(mode_step(Mode::Insert, plain(Key::Char('q'))), (Mode::Insert, Action::InsertChar('q')));
    assert_eq!(mode_step(Mode::Insert, plain(Key::Enter)), (Mode::Insert, Action::SplitLine));
    assert_eq!(mode_step(Mode::Insert, plain(Key::Backspace)), (Mode::Insert, Action::DeleteBefore));
    assert_eq!(mode_step(Mode::Insert, plain(Key::Other)), (Mode::Insert, Action::Nothing));
}

#[test]
fn buffer_edits() {
    let mut b = TextBuffer::from_lines(vec![chars("ab"), chars("cd")]).unwrap();
    b.insert_char(1, 2, 'e');
    assert_eq!(b.lines()[1], chars("cde"));
    b.split_line(0, 1);
    assert_eq!(b.line_count(), 3);
    assert_eq!(b.lines()[0], chars("a"));
    assert_eq!(b.lines()[1], chars("b"));
    assert_eq!(b.delete_char_before(1, 0), Some(1));
    assert_eq!(b.lines(), &vec![chars("ab"), chars("cde")]);
    assert_eq!(b.delete_char_before(1, 3), None);
    assert_eq!(b.line_len(1), 2);
    assert_eq!(b.delete_char_before(0, 0), None);
    assert_eq!(b.lines(), &vec![chars("ab"), chars("cd")]);
    assert!(TextBuffer::from_lines(vec![]).is_none());
}

#[test]
fn cursor_retreat_and_advance() {
    let mut c = Cursor::new();
    c.advance_after_split();
    assert_eq!((c.row, c.col), (1, 0));
    c.advance_after_insert();
    assert_eq!((c.row, c.col), (1, 1));
    c.retreat_after_join(7);
    assert_eq!((c.row, c.col), (0, 7));
}

#[test]
fn gutter_width_counts_digits() {
    assert_eq!(gutter_width(0), 1);
    assert_eq!(gutter_width(1), 1);
    assert_eq!(gutter_width(9), 1);
    assert_eq!(gutter_width(10), 2);
    assert_eq!(gutter_width(99), 2);
    assert_eq!(gutter_width(100), 3);
    assert_eq!(gutter_width(usize::MAX), usize::MAX.to_string().len());
}

#[test]
fn normal_table_keeps_mode_but_for_i() {
    let mut e = editor(&["abc"], 0, 2, Mode::Insert);
    e.handle_normal_mode(KeyEvent::new(Key::Char('h'), false));
    assert_eq!(at(&e), (0, 1));
    assert_eq!(e.mode(), Mode::Insert);
    e.handle_normal_mode(KeyEvent::new(Key::Other, false));
    assert_eq!(text(&e), vec!["abc"]);
    assert_eq!(at(&e), (0, 1));
    assert_eq!(e.mode(), Mode::Insert);
    let mut e = editor(&["abc"], 0, 2, Mode::Normal);
    e.handle_normal_mode(KeyEvent::new(Key::Right, false));
    assert_eq!(at(&e), (0, 3));
    assert_eq!(e.mode(), Mode::Normal);
    e.handle_normal_mode(KeyEvent::new(Key::Char('i'), false));
    assert_eq!(e.mode(), Mode::Insert);
}

#[test]
fn insert_table_keeps_mode_but_for_escape() {
    let mut e = editor(&["ab"], 0, 1, Mode::Normal);
    e.handle_insert_mode(KeyEvent::new(Key::Char('x'), false));
    assert_eq!(text(&e), vec!["axb"]);
    assert_eq!(at(&e), (0, 2));
    assert_eq!(e.mode(), Mode::Normal);
    let mut e = editor(&["ab"], 0, 1, Mode::Insert);
    e.handle_insert_mode(KeyEvent::new(Key::Enter, false));
    assert_eq!(text(&e), vec!["a", "b"]);
    assert_eq!(e.mode(), Mode::Insert);
    e.handle_insert_mode(KeyEvent::new(Key::Esc, false));
    assert_eq!(e.mode(), Mode::Normal);
}
