use rvim::buffer::Buffer;
use rvim::error::EditorError;
use rvim::mode::{Key, Mode};
use rvim::position::Position;
use rvim::session::{EditorSession, Outcome, Signal};
use rvim::terminal::{screen_position, ScreenPosition};

fn place(row: usize, column: usize) -> Position {
    Position { row, column }
}

fn lines(session: &EditorSession) -> Vec<String> {
    session.buffer().render_lines()
}

fn session_on(text: &[u8], cursor: Position, path: Option<&str>) -> EditorSession {
    let mut buffer = Buffer::load(text);
    buffer.set_cursor(cursor).unwrap();
    EditorSession::new(buffer, path.map(|p| p.to_string()))
}

fn press(session: &mut EditorSession, keys: &str) -> Outcome {
    let mut last = Outcome { signal: Signal::Continue, redraw: false };
    for c in keys.chars() {
        last = session.handle_key(Key::Char(c));
    }
    last
}

#[test]
fn a_new_session_is_in_normal_mode() {
    let session = EditorSession::new(Buffer::empty(), None);
    assert_eq!(session.mode(), Mode::Normal);
    assert_eq!(session.pending().len(), 0);
    assert_eq!(session.path(), &None);
    assert_eq!(lines(&session), vec!["".to_string()]);
}

#[test]
fn a_new_session_keeps_its_path() {
    let session = EditorSession::new(Buffer::empty(), Some("notes.txt".to_string()));
    assert_eq!(session.path(), &Some("notes.txt".to_string()));
}

#[test]
fn insert_mode_appends_a_character() {
    let mut session = session_on(b"abc", place(0, 3), None);
    session.handle_key(Key::Char('i'));
    assert_eq!(session.mode(), Mode::Insert);
    let outcome = session.handle_key(Key::Char('d'));
    assert_eq!(outcome, Outcome { signal: Signal::Continue, redraw: true });
    assert_eq!(lines(&session), vec!["abcd".to_string()]);
    assert_eq!(session.buffer().cursor(), place(0, 4));
    assert_eq!(session.mode(), Mode::Insert);
}

#[test]
fn insert_mode_backspace_at_line_start_joins_lines() {
    let mut session = session_on(b"ab\ncd", place(1, 0), None);
    session.handle_key(Key::Char('i'));
    let outcome = session.handle_key(Key::Backspace);
    assert_eq!(outcome, Outcome { signal: Signal::Continue, redraw: true });
    assert_eq!(lines(&session), vec!["abcd".to_string()]);
    assert_eq!(session.buffer().cursor(), place(0, 2));
    assert_eq!(session.mode(), Mode::Insert);
}

#[test]
fn insert_mode_backspace_deletes_the_character_before_the_cursor() {
    let mut session = session_on(b"abc", place(0, 2), None);
    session.handle_key(Key::Char('i'));
    session.handle_key(Key::Backspace);
    assert_eq!(lines(&session), vec!["ac".to_string()]);
    assert_eq!(session.buffer().cursor(), place(0, 1));
}

#[test]
fn insert_mode_backspace_at_document_start_is_a_no_op() {
    let mut session = session_on(b"abc", place(0, 0), None);
    session.handle_key(Key::Char('i'));
    let outcome = session.handle_key(Key::Backspace);
    assert_eq!(outcome, Outcome { signal: Signal::Continue, redraw: false });
    assert_eq!(lines(&session), vec!["abc".to_string()]);
    assert_eq!(session.buffer().cursor(), place(0, 0));
}

#[test]
fn insert_mode_enter_breaks_the_line() {
    let mut session = session_on(b"abcd", place(0, 2), None);
    session.handle_key(Key::Char('i'));
    let outcome = session.handle_key(Key::Enter);
    assert!(outcome.redraw);
    assert_eq!(lines(&session), vec!["ab".to_string(), "cd".to_string()]);
    assert_eq!(session.buffer().cursor(), place(1, 0));
}

#[test]
fn insert_mode_enter_then_backspace_restores_the_buffer() {
    let start = session_on(b"first\nsecond\nthird", place(1, 3), None);
    let mut session = start.clone();
    session.handle_key(Key::Char('i'));
    session.handle_key(Key::Enter);
    assert_eq!(lines(&session).len(), 4);
    session.handle_key(Key::Backspace);
    assert_eq!(session.buffer(), start.buffer());
}

#[test]
fn insert_mode_types_in_the_middle() {
    let mut session = session_on(b"ad", place(0, 1), None);
    session.handle_key(Key::Char('i'));
    press(&mut session, "bc");
    assert_eq!(lines(&session), vec!["abcd".to_string()]);
    assert_eq!(session.buffer().cursor(), place(0, 3));
}

#[test]
fn insert_mode_takes_q_and_colon_as_text() {
    let mut session = session_on(b"", place(0, 0), None);
    session.handle_key(Key::Char('i'));
    let outcome = press(&mut session, "q:v");
    assert_eq!(outcome.signal, Signal::Continue);
    assert_eq!(lines(&session), vec!["q:v".to_string()]);
    assert_eq!(session.mode(), Mode::Insert);
}

#[test]
fn insert_mode_escape_returns_to_normal() {
    let mut session = session_on(b"abc", place(0, 1), None);
    session.handle_key(Key::Char('i'));
    let outcome = session.handle_key(Key::Escape);
    assert_eq!(outcome, Outcome { signal: Signal::Continue, redraw: false });
    assert_eq!(session.mode(), Mode::Normal);
    assert_eq!(session.buffer().cursor(), place(0, 1));
}

#[test]
fn normal_mode_moves_by_the_cursor_policy() {
    let mut session = session_on(b"abc\nde", place(0, 0), None);
    assert!(session.handle_key(Key::Char('l')).redraw);
    assert_eq!(session.buffer().cursor(), place(0, 1));
    press(&mut session, "ll");
    assert_eq!(session.buffer().cursor(), place(0, 3));
    assert!(!session.handle_key(Key::Char('l')).redraw);
    assert_eq!(session.buffer().cursor(), place(0, 3));
    session.handle_key(Key::Char('j'));
    assert_eq!(session.buffer().cursor(), place(1, 2));
    session.handle_key(Key::Char('h'));
    assert_eq!(session.buffer().cursor(), place(1, 1));
    session.handle_key(Key::Char('k'));
    assert_eq!(session.buffer().cursor(), place(0, 1));
    assert_eq!(session.mode(), Mode::Normal);
}

#[test]
fn normal_mode_q_signals_termination() {
    let mut session = session_on(b"abc", place(0, 0), None);
    let outcome = session.handle_key(Key::Char('q'));
    assert_eq!(outcome, Outcome { signal: Signal::Terminate, redraw: false });
    assert_eq!(session.mode(), Mode::Normal);
}

#[test]
fn normal_mode_ignores_unknown_keys() {
    let start = session_on(b"abc", place(0, 1), None);
    let mut session = start.clone();
    for key in [Key::Char('x'), Key::Enter, Key::Backspace, Key::Escape, Key::Other, Key::Ctrl('c')]
    {
        let outcome = session.handle_key(key);
        assert_eq!(outcome, Outcome { signal: Signal::Continue, redraw: false });
        assert_eq!(session, start);
    }
}

#[test]
fn entering_and_escaping_visual_changes_nothing() {
    let start = session_on(b"abc\nde", place(1, 1), Some("f"));
    for key in [Key::Char('v'), Key::Char('V'), Key::Ctrl('v'), Key::Char(':')] {
        let mut session = start.clone();
        session.handle_key(key);
        assert_ne!(session.mode(), Mode::Normal);
        session.handle_key(Key::Escape);
        assert_eq!(session.mode(), Mode::Normal);
        assert_eq!(session.buffer(), start.buffer());
        assert_eq!(session, start);
    }
}

#[test]
fn visual_mode_anchors_at_the_cursor_and_moves() {
    let mut session = session_on(b"abc\nde", place(0, 1), None);
    session.handle_key(Key::Char('v'));
    assert_eq!(session.mode(), Mode::Visual(place(0, 1)));
    press(&mut session, "lj");
    assert_eq!(session.mode(), Mode::Visual(place(0, 1)));
    assert_eq!(session.buffer().cursor(), place(1, 2));
    assert_eq!(session.mode().anchor(), Some(place(0, 1)));
    session.handle_key(Key::Escape);
    assert_eq!(session.mode(), Mode::Normal);
    assert_eq!(session.buffer().cursor(), place(1, 2));
    assert_eq!(lines(&session), vec!["abc".to_string(), "de".to_string()]);
}

#[test]
fn visual_line_and_block_carry_their_anchor() {
    let mut session = session_on(b"abc\nde", place(1, 2), None);
    session.handle_key(Key::Char('V'));
    assert_eq!(session.mode(), Mode::VisualLine(place(1, 2)));
    session.handle_key(Key::Char('k'));
    assert_eq!(session.mode(), Mode::VisualLine(place(1, 2)));
    session.handle_key(Key::Escape);
    session.handle_key(Key::Ctrl('v'));
    assert_eq!(session.mode(), Mode::VisualBlock(place(0, 2)));
}

#[test]
fn visual_mode_does_not_edit() {
    let mut session = session_on(b"abc", place(0, 1), None);
    session.handle_key(Key::Char('v'));
    press(&mut session, "ixq:");
    session.handle_key(Key::Enter);
    session.handle_key(Key::Backspace);
    assert_eq!(session.mode(), Mode::Visual(place(0, 1)));
    assert_eq!(lines(&session), vec!["abc".to_string()]);
}

#[test]
fn command_line_collects_and_erases() {
    let mut session = session_on(b"abc", place(0, 0), None);
    session.handle_key(Key::Char(':'));
    assert_eq!(session.mode(), Mode::CommandLine);
    let outcome = press(&mut session, "wq");
    assert_eq!(outcome, Outcome { signal: Signal::Continue, redraw: false });
    assert_eq!(session.pending().chars(), &vec!['w', 'q']);
    session.handle_key(Key::Backspace);
    assert_eq!(session.pending().chars(), &vec!['w']);
    session.handle_key(Key::Backspace);
    session.handle_key(Key::Backspace);
    assert_eq!(session.pending().len(), 0);
    assert_eq!(session.mode(), Mode::CommandLine);
}

#[test]
fn command_line_escape_clears_and_returns_to_normal() {
    let mut session = session_on(b"abc", place(0, 0), None);
    session.handle_key(Key::Char(':'));
    press(&mut session, "wq");
    let outcome = session.handle_key(Key::Escape);
    assert_eq!(outcome, Outcome { signal: Signal::Continue, redraw: false });
    assert_eq!(session.mode(), Mode::Normal);
    assert_eq!(session.pending().len(), 0);
}

#[test]
fn command_wq_asks_for_a_save_and_then_terminates() {
    let mut session = session_on(b"abc", place(0, 0), Some("notes.txt"));
    session.handle_key(Key::Char(':'));
    press(&mut session, "wq");
    assert_eq!(session.pending().chars(), &vec!['w', 'q']);
    let outcome = session.handle_key(Key::Enter);
    assert_eq!(
        outcome.signal,
        Signal::Save { path: "notes.txt".to_string(), terminate: true }
    );
    assert_eq!(session.mode(), Mode::Normal);
    assert_eq!(session.pending().len(), 0);
    assert_eq!(Signal::after_save(true, true), Signal::Terminate);
}

#[test]
fn command_w_asks_for_a_save_and_goes_on() {
    let mut session = session_on(b"abc", place(0, 0), Some("notes.txt"));
    session.handle_key(Key::Char(':'));
    press(&mut session, "w");
    let outcome = session.handle_key(Key::Enter);
    assert_eq!(
        outcome.signal,
        Signal::Save { path: "notes.txt".to_string(), terminate: false }
    );
    assert_eq!(Signal::after_save(false, true), Signal::Continue);
}

#[test]
fn command_w_with_a_path_saves_there() {
    let mut session = session_on(b"abc", place(0, 0), None);
    session.handle_key(Key::Char(':'));
    press(&mut session, "w copy.txt");
    let outcome = session.handle_key(Key::Enter);
    assert_eq!(
        outcome.signal,
        Signal::Save { path: "copy.txt".to_string(), terminate: false }
    );
    assert_eq!(session.path(), &None);
}

#[test]
fn command_w_without_a_path_is_reported() {
    let mut session = session_on(b"abc", place(0, 0), None);
    session.handle_key(Key::Char(':'));
    press(&mut session, "w");
    let outcome = session.handle_key(Key::Enter);
    assert_eq!(outcome.signal, Signal::Report(EditorError::IoFailure));
    assert_eq!(session.mode(), Mode::Normal);
    session.handle_key(Key::Char(':'));
    press(&mut session, "wq");
    let outcome = session.handle_key(Key::Enter);
    assert_eq!(outcome.signal, Signal::Report(EditorError::IoFailure));
}

#[test]
fn command_q_terminates() {
    let mut session = session_on(b"abc", place(0, 0), None);
    session.handle_key(Key::Char(':'));
    press(&mut session, "q");
    let outcome = session.handle_key(Key::Enter);
    assert_eq!(outcome, Outcome { signal: Signal::Terminate, redraw: false });
    assert_eq!(session.mode(), Mode::Normal);
}

#[test]
fn unknown_command_is_reported_and_changes_nothing() {
    let start = session_on(b"abc\nde", place(1, 1), None);
    let mut session = start.clone();
    session.handle_key(Key::Char(':'));
    press(&mut session, "xyz");
    let outcome = session.handle_key(Key::Enter);
    assert_eq!(
        outcome,
        Outcome { signal: Signal::Report(EditorError::UnknownCommand), redraw: false }
    );
    assert_eq!(session.mode(), Mode::Normal);
    assert_eq!(session.buffer(), start.buffer());
    assert_eq!(session, start);
}

#[test]
fn empty_command_is_unknown() {
    let mut session = session_on(b"abc", place(0, 0), None);
    session.handle_key(Key::Char(':'));
    let outcome = session.handle_key(Key::Enter);
    assert_eq!(outcome.signal, Signal::Report(EditorError::UnknownCommand));
    assert_eq!(session.mode(), Mode::Normal);
}

#[test]
fn command_number_goes_to_the_line() {
    let mut session = session_on(b"one\ntwo\nthree", place(0, 2), None);
    session.handle_key(Key::Char(':'));
    press(&mut session, "3");
    let outcome = session.handle_key(Key::Enter);
    assert_eq!(outcome, Outcome { signal: Signal::Continue, redraw: true });
    assert_eq!(session.buffer().cursor(), place(2, 2));
    assert_eq!(session.mode(), Mode::Normal);
    session.handle_key(Key::Char(':'));
    press(&mut session, "99");
    let outcome = session.handle_key(Key::Enter);
    assert_eq!(outcome, Outcome { signal: Signal::Continue, redraw: false });
    assert_eq!(session.buffer().cursor(), place(2, 2));
    session.handle_key(Key::Char(':'));
    press(&mut session, "0");
    session.handle_key(Key::Enter);
    assert_eq!(session.buffer().cursor(), place(0, 2));
}

#[test]
fn the_command_line_starts_empty_each_time() {
    let mut session = session_on(b"abc", place(0, 0), None);
    session.handle_key(Key::Char(':'));
    press(&mut session, "xyz");
    session.handle_key(Key::Enter);
    session.handle_key(Key::Char(':'));
    assert_eq!(session.pending().len(), 0);
    press(&mut session, "q");
    assert_eq!(session.handle_key(Key::Enter).signal, Signal::Terminate);
}

#[test]
fn after_save_reports_a_failed_save() {
    assert_eq!(Signal::after_save(false, false), Signal::Report(EditorError::IoFailure));
    assert_eq!(Signal::after_save(true, false), Signal::Report(EditorError::IoFailure));
    assert_eq!(Signal::after_save(false, true), Signal::Continue);
    assert_eq!(Signal::after_save(true, true), Signal::Terminate);
}

#[test]
fn terminal_cursor_counts_from_one() {
    let session = session_on(b"abc\nde", place(1, 2), None);
    assert_eq!(session.terminal_cursor(), ScreenPosition { row: 2, column: 3 });
    let origin = session_on(b"abc", place(0, 0), None);
    assert_eq!(origin.terminal_cursor(), ScreenPosition { row: 1, column: 1 });
}

#[test]
fn screen_position_saturates() {
    assert_eq!(screen_position(place(0, 0)), ScreenPosition { row: 1, column: 1 });
    assert_eq!(screen_position(place(65533, 65534)), ScreenPosition { row: 65534, column: 65535 });
    assert_eq!(screen_position(place(65535, 70000)), ScreenPosition { row: 65535, column: 65535 });
    assert_eq!(
        screen_position(place(usize::MAX, usize::MAX)),
        ScreenPosition { row: 65535, column: 65535 }
    );
}

#[test]
fn draw_paints_the_buffer_and_places_the_cursor() {
    let session = session_on(b"abc\nde", place(1, 2), None);
    assert_eq!(session.draw(), "abc\r\nde\r\n\u{1b}[2;3H");
    let empty = EditorSession::new(Buffer::empty(), None);
    assert_eq!(empty.draw(), "\r\n\u{1b}[1;1H");
}

#[test]
fn a_long_run_of_keys_keeps_the_cursor_in_bounds() {
    let mut session = session_on(b"alpha\nbeta\n\ngamma delta", place(0, 0), None);
    let keys = [
        Key::Char('i'),
        Key::Char('x'),
        Key::Enter,
        Key::Backspace,
        Key::Escape,
        Key::Char('h'),
        Key::Char('j'),
        Key::Char('k'),
        Key::Char('l'),
        Key::Char('v'),
        Key::Char('V'),
        Key::Ctrl('v'),
        Key::Char(':'),
        Key::Char('2'),
        Key::Other,
    ];
    let mut seed: u32 = 2024;
    for _ in 0..5000 {
        seed = seed.wrapping_mul(1103515245).wrapping_add(12345);
        let key = keys[((seed >> 16) as usize) % keys.len()];
        session.handle_key(key);
        let cursor = session.buffer().cursor();
        assert!(session.buffer().line_count() >= 1);
        assert!(cursor.row < session.buffer().line_count());
        assert!(cursor.column <= session.buffer().line_len(cursor.row).unwrap());
        if let Some(anchor) = session.mode().anchor() {
            assert!(anchor.row < session.buffer().line_count());
            assert!(anchor.column <= session.buffer().line_len(anchor.row).unwrap());
        }
        if session.mode() != Mode::CommandLine {
            assert_eq!(session.pending().len(), 0);
        }
    }
}

#[test]
fn draw_report_shows_the_message_below_the_text() {
    let session = session_on(b"abc\nde", place(0, 1), None);
    assert_eq!(
        session.draw_report(EditorError::UnknownCommand),
        "abc\r\nde\r\nnot an editor command\u{1b}[1;2H"
    );
    assert_eq!(
        session.draw_report(EditorError::IoFailure),
        "abc\r\nde\r\nfile could not be read or written\u{1b}[1;2H"
    );
}
