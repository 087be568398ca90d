use crossterm::event::{Event, KeyCode, KeyEvent, KeyEventKind, KeyModifiers};
use message_tui::keys::{Direction, EditorKey, KeyInput, KeyStroke, SHIFT};
use message_tui::message::{Message, Tint};
use message_tui::signal::Signal;
use message_tui::ui::{scroll_step, ExitReason, MessageApp, UiAction};
use tui_textarea::{Input, Key};

fn press(code: KeyCode, modifiers: KeyModifiers) -> Signal {
    Signal::KeyPress(KeyInput::read(Event::Key(KeyEvent::new(code, modifiers))))
}

fn typed(app: &mut MessageApp, text: &str) {
    for c in text.chars() {
        let action = app.handle_signal(press(KeyCode::Char(c), KeyModifiers::NONE));
        assert!(matches!(action, UiAction::Render));
    }
}

fn app_with(name: &str, text: &str) -> MessageApp {
    let mut app = MessageApp::open(name.to_string());
    if !text.is_empty() {
        app.entry.area.insert_str(text);
    }
    app
}

#[test]
fn open_starts_with_nothing() {
    let app = MessageApp::open("ann".to_string());
    assert_eq!(app.username, "ann");
    assert!(app.messages.is_empty());
    assert_eq!(app.scroll, (0, 0));
    assert_eq!(app.closing, None);
    assert_eq!(app.entry.area.lines().len(), 1);
    assert_eq!(app.entry.area.lines()[0], "");
}

#[test]
fn scroll_step_moves_one_on_the_right_axis() {
    assert_eq!(scroll_step((5, 7), Direction::Up), (4, 7));
    assert_eq!(scroll_step((5, 7), Direction::Down), (6, 7));
    assert_eq!(scroll_step((5, 7), Direction::Left), (5, 6));
    assert_eq!(scroll_step((5, 7), Direction::Right), (5, 8));
}

#[test]
fn scroll_step_stops_at_zero() {
    assert_eq!(scroll_step((0, 3), Direction::Up), (0, 3));
    assert_eq!(scroll_step((3, 0), Direction::Left), (3, 0));
    assert_eq!(scroll_step((0, 0), Direction::Up), (0, 0));
    assert_eq!(scroll_step((0, 0), Direction::Left), (0, 0));
}

#[test]
fn scroll_step_stops_at_the_largest_offset() {
    assert_eq!(scroll_step((u16::MAX, 1), Direction::Down), (u16::MAX, 1));
    assert_eq!(scroll_step((1, u16::MAX), Direction::Right), (1, u16::MAX));
    assert_eq!(scroll_step((u16::MAX - 1, 0), Direction::Down), (u16::MAX, 0));
}

#[test]
fn steps_forth_then_back_return_to_zero() {
    let mut offset = (0, 0);
    for _ in 0..9 {
        offset = scroll_step(offset, Direction::Down);
        offset = scroll_step(offset, Direction::Right);
    }
    assert_eq!(offset, (9, 9));
    for _ in 0..9 {
        offset = scroll_step(offset, Direction::Up);
        offset = scroll_step(offset, Direction::Left);
    }
    assert_eq!(offset, (0, 0));
}

#[test]
fn more_steps_forth_than_there_are_offsets_and_as_many_back_return_to_zero() {
    let steps = u32::from(u16::MAX) + 5;
    let mut offset = (0, 0);
    for _ in 0..steps {
        offset = scroll_step(offset, Direction::Right);
    }
    assert_eq!(offset, (0, u16::MAX));
    for _ in 0..steps {
        offset = scroll_step(offset, Direction::Left);
    }
    assert_eq!(offset, (0, 0));
}

#[test]
fn steps_back_then_forth_from_zero_end_at_their_number() {
    let mut offset = (0, 0);
    for _ in 0..4 {
        offset = scroll_step(offset, Direction::Up);
    }
    assert_eq!(offset, (0, 0));
    for _ in 0..4 {
        offset = scroll_step(offset, Direction::Down);
    }
    assert_eq!(offset, (4, 0));
}

#[test]
fn scroll_by_changes_the_offset_only() {
    let mut app = app_with("ann", "draft");
    app.receive(Message::new("bob", "hi"));
    app.scroll_by(Direction::Down);
    app.scroll_by(Direction::Right);
    app.scroll_by(Direction::Right);
    assert_eq!(app.scroll, (1, 2));
    assert_eq!(app.messages.len(), 1);
    assert_eq!(app.entry.area.lines()[0], "draft");
    assert_eq!(app.closing, None);
}

#[test]
fn receive_appends_in_arrival_order() {
    let mut app = MessageApp::open("ann".to_string());
    app.receive(Message::new("bob", "first"));
    app.receive(Message::new("bob", "second"));
    app.receive(Message::new("bob", "first"));
    assert_eq!(app.messages.len(), 3);
    assert_eq!(app.messages[0].content(), "first");
    assert_eq!(app.messages[1].content(), "second");
    assert_eq!(app.messages[2].content(), "first");
}

#[test]
fn submit_of_nothing_does_nothing() {
    let mut app = MessageApp::open("ann".to_string());
    app.receive(Message::new("bob", "hi"));
    let sent = app.submit();
    assert!(sent.is_none());
    assert_eq!(app.messages.len(), 1);
    assert_eq!(app.entry.area.lines().len(), 1);
    assert_eq!(app.entry.area.lines()[0], "");
    assert_eq!(app.scroll, (0, 0));
    assert_eq!(app.closing, None);
}

#[test]
fn submit_logs_and_returns_the_same_message() {
    let mut app = app_with("ann", "hello");
    app.receive(Message::new("bob", "hi"));
    let sent = app.submit().unwrap();
    assert_eq!(sent.sender(), "ann");
    assert_eq!(sent.content(), "hello");
    assert_eq!(app.messages.len(), 2);
    assert_eq!(app.messages[1].sender(), "ann");
    assert_eq!(app.messages[1].content(), "hello");
}

#[test]
fn submit_clears_the_buffer() {
    let mut app = app_with("ann", "hello");
    assert!(app.submit().is_some());
    assert_eq!(app.entry.area.lines().len(), 1);
    assert_eq!(app.entry.area.lines()[0], "");
    assert!(app.submit().is_none());
    assert_eq!(app.messages.len(), 1);
}

#[test]
fn submit_sends_several_lines_as_one_text() {
    let mut app = app_with("ann", "one\ntwo");
    let sent = app.submit().unwrap();
    assert_eq!(sent.content(), "one\ntwo");
    assert_eq!(app.messages[0].content(), "one\ntwo");
}

#[test]
fn submit_of_a_lone_line_break_sends_it() {
    let mut app = app_with("ann", "\n");
    let sent = app.submit().unwrap();
    assert_eq!(sent.content(), "\n");
}

#[test]
fn submit_of_blanks_sends_them() {
    let mut app = app_with("ann", "  ");
    let sent = app.submit().unwrap();
    assert_eq!(sent.content(), "  ");
}

#[test]
fn shut_records_the_reason() {
    let mut app = MessageApp::open("ann".to_string());
    app.shut(ExitReason::UserExit);
    assert_eq!(app.closing, Some(ExitReason::UserExit));
}

#[test]
fn only_a_lost_connection_has_a_notice() {
    assert_eq!(ExitReason::UserExit.notice(), None);
    assert_eq!(ExitReason::LostConnection.notice(), Some("Lost connection to other user"));
}

#[test]
fn handle_input_scrolls_on_a_scroll_key() {
    let mut app = app_with("ann", "draft");
    let key = KeyInput {
        stroke: Some(KeyStroke { arrow: Some(Direction::Down), modifiers: SHIFT }),
        key: EditorKey::Other,
        input: Input { key: Key::Down, ctrl: false, alt: false, shift: true },
    };
    let action = app.handle_input(key);
    assert!(matches!(action, UiAction::Render));
    assert_eq!(app.scroll, (1, 0));
    assert_eq!(app.entry.area.lines()[0], "draft");
    assert_eq!(app.entry.area.cursor(), (0, 5));
}

#[test]
fn handle_input_closes_on_the_exit_key() {
    let mut app = app_with("ann", "draft");
    let key = KeyInput {
        stroke: Some(KeyStroke { arrow: None, modifiers: 0 }),
        key: EditorKey::Esc,
        input: Input { key: Key::Esc, ctrl: false, alt: false, shift: false },
    };
    let action = app.handle_input(key);
    assert!(matches!(action, UiAction::Exit(ExitReason::UserExit)));
    assert_eq!(app.closing, Some(ExitReason::UserExit));
    assert_eq!(app.entry.area.lines()[0], "draft");
    assert!(app.messages.is_empty());
}

#[test]
fn handle_input_sends_on_the_submit_key() {
    let mut app = app_with("ann", "hello");
    let key = KeyInput {
        stroke: Some(KeyStroke { arrow: None, modifiers: 0 }),
        key: EditorKey::Enter,
        input: Input { key: Key::Enter, ctrl: false, alt: false, shift: false },
    };
    match app.handle_input(key) {
        UiAction::Send(message) => {
            assert_eq!(message.sender(), "ann");
            assert_eq!(message.content(), "hello");
        }
        other => panic!("{:?}", other),
    }
    assert_eq!(app.messages.len(), 1);
    assert_eq!(app.messages[0].content(), "hello");
    assert_eq!(app.entry.area.lines()[0], "");
}

#[test]
fn handle_input_only_draws_on_the_submit_key_with_nothing_composed() {
    let mut app = MessageApp::open("ann".to_string());
    let key = KeyInput {
        stroke: Some(KeyStroke { arrow: None, modifiers: 0 }),
        key: EditorKey::Enter,
        input: Input { key: Key::Enter, ctrl: false, alt: false, shift: false },
    };
    let action = app.handle_input(key);
    assert!(matches!(action, UiAction::Render));
    assert!(app.messages.is_empty());
    assert_eq!(app.entry.area.lines().len(), 1);
}

#[test]
fn handle_input_hands_other_keys_to_the_text_area() {
    let mut app = app_with("ann", "hell");
    let key = KeyInput {
        stroke: Some(KeyStroke { arrow: None, modifiers: 0 }),
        key: EditorKey::Other,
        input: Input { key: Key::Char('o'), ctrl: false, alt: false, shift: false },
    };
    let action = app.handle_input(key);
    assert!(matches!(action, UiAction::Render));
    assert_eq!(app.entry.area.lines()[0], "hello");
    assert!(app.messages.is_empty());
    assert_eq!(app.scroll, (0, 0));
    assert_eq!(app.closing, None);
}

#[test]
fn handle_input_is_ignored_once_closed() {
    let mut app = app_with("ann", "hello");
    app.shut(ExitReason::LostConnection);
    let key = KeyInput {
        stroke: Some(KeyStroke { arrow: None, modifiers: 0 }),
        key: EditorKey::Enter,
        input: Input { key: Key::Enter, ctrl: false, alt: false, shift: false },
    };
    let action = app.handle_input(key);
    assert!(matches!(action, UiAction::Exit(ExitReason::LostConnection)));
    assert!(app.messages.is_empty());
    assert_eq!(app.entry.area.lines()[0], "hello");
}

#[test]
fn handle_signal_logs_a_message() {
    let mut app = MessageApp::open("ann".to_string());
    let action = app.handle_signal(Signal::Message(Message::new("bob", "hi")));
    assert!(matches!(action, UiAction::Render));
    assert_eq!(app.messages.len(), 1);
    assert_eq!(app.messages[0].sender(), "bob");
    assert_eq!(app.messages[0].content(), "hi");
}

#[test]
fn handle_signal_does_not_merge_equal_messages() {
    let mut app = MessageApp::open("ann".to_string());
    app.handle_signal(Signal::Message(Message::new("bob", "hi")));
    app.handle_signal(Signal::Message(Message::new("bob", "hi")));
    assert_eq!(app.messages.len(), 2);
}

#[test]
fn handle_signal_closes_on_a_lost_connection() {
    let mut app = app_with("ann", "draft");
    let action = app.handle_signal(Signal::LostConnection);
    assert!(matches!(action, UiAction::Exit(ExitReason::LostConnection)));
    assert_eq!(app.closing, Some(ExitReason::LostConnection));
}

#[test]
fn handle_signal_is_ignored_once_closed() {
    let mut app = MessageApp::open("ann".to_string());
    app.handle_signal(press(KeyCode::Esc, KeyModifiers::NONE));
    let action = app.handle_signal(Signal::Message(Message::new("bob", "late")));
    assert!(matches!(action, UiAction::Exit(ExitReason::UserExit)));
    assert!(app.messages.is_empty());
    let action = app.handle_signal(Signal::LostConnection);
    assert!(matches!(action, UiAction::Exit(ExitReason::UserExit)));
    assert_eq!(app.closing, Some(ExitReason::UserExit));
    let action = app.handle_signal(press(KeyCode::Char('x'), KeyModifiers::NONE));
    assert!(matches!(action, UiAction::Exit(ExitReason::UserExit)));
    assert_eq!(app.entry.area.lines()[0], "");
}

#[test]
fn shift_arrows_scroll_and_leave_the_buffer_alone() {
    let mut app = app_with("ann", "draft");
    app.handle_signal(press(KeyCode::Down, KeyModifiers::SHIFT));
    app.handle_signal(press(KeyCode::Down, KeyModifiers::SHIFT));
    app.handle_signal(press(KeyCode::Right, KeyModifiers::SHIFT));
    assert_eq!(app.scroll, (2, 1));
    app.handle_signal(press(KeyCode::Up, KeyModifiers::SHIFT));
    app.handle_signal(press(KeyCode::Left, KeyModifiers::SHIFT));
    app.handle_signal(press(KeyCode::Left, KeyModifiers::SHIFT));
    assert_eq!(app.scroll, (1, 0));
    assert_eq!(app.entry.area.lines()[0], "draft");
    assert_eq!(app.entry.area.cursor(), (0, 5));
}

#[test]
fn shift_arrows_scroll_whatever_the_kind_of_the_key_event() {
    let mut app = MessageApp::open("ann".to_string());
    let release =
        KeyEvent::new_with_kind(KeyCode::Down, KeyModifiers::SHIFT, KeyEventKind::Release);
    app.handle_signal(Signal::KeyPress(KeyInput::read(Event::Key(release))));
    assert_eq!(app.scroll, (1, 0));
}

#[test]
fn plain_arrows_move_the_cursor_not_the_pane() {
    let mut app = app_with("ann", "draft");
    let action = app.handle_signal(press(KeyCode::Left, KeyModifiers::NONE));
    assert!(matches!(action, UiAction::Render));
    assert_eq!(app.scroll, (0, 0));
    assert_eq!(app.entry.area.cursor(), (0, 4));
}

#[test]
fn arrows_with_shift_and_control_do_not_scroll() {
    let mut app = app_with("ann", "draft");
    app.handle_signal(press(KeyCode::Down, KeyModifiers::SHIFT | KeyModifiers::CONTROL));
    assert_eq!(app.scroll, (0, 0));
}

#[test]
fn escape_closes_for_the_user() {
    let mut app = app_with("ann", "draft");
    let action = app.handle_signal(press(KeyCode::Esc, KeyModifiers::NONE));
    assert!(matches!(action, UiAction::Exit(ExitReason::UserExit)));
    assert_eq!(app.closing, Some(ExitReason::UserExit));
}

#[test]
fn a_released_escape_does_not_close() {
    let mut app = MessageApp::open("ann".to_string());
    let release = KeyEvent::new_with_kind(KeyCode::Esc, KeyModifiers::NONE, KeyEventKind::Release);
    let action = app.handle_signal(Signal::KeyPress(KeyInput::read(Event::Key(release))));
    assert!(matches!(action, UiAction::Render));
    assert_eq!(app.closing, None);
}

#[test]
fn typed_text_is_sent_on_enter() {
    let mut app = MessageApp::open("ann".to_string());
    typed(&mut app, "hi there");
    assert_eq!(app.entry.area.lines()[0], "hi there");
    match app.handle_signal(press(KeyCode::Enter, KeyModifiers::NONE)) {
        UiAction::Send(message) => {
            assert_eq!(message.sender(), "ann");
            assert_eq!(message.content(), "hi there");
        }
        other => panic!("{:?}", other),
    }
    assert_eq!(app.messages.len(), 1);
    assert_eq!(app.messages[0].sender(), "ann");
    assert_eq!(app.messages[0].content(), "hi there");
    assert_eq!(app.entry.area.lines().len(), 1);
    assert_eq!(app.entry.area.lines()[0], "");
}

#[test]
fn enter_with_nothing_typed_sends_nothing() {
    let mut app = MessageApp::open("ann".to_string());
    let action = app.handle_signal(press(KeyCode::Enter, KeyModifiers::NONE));
    assert!(matches!(action, UiAction::Render));
    assert!(app.messages.is_empty());
}

#[test]
fn enter_after_everything_was_deleted_sends_nothing() {
    let mut app = MessageApp::open("ann".to_string());
    typed(&mut app, "ab");
    app.handle_signal(press(KeyCode::Backspace, KeyModifiers::NONE));
    app.handle_signal(press(KeyCode::Backspace, KeyModifiers::NONE));
    let action = app.handle_signal(press(KeyCode::Enter, KeyModifiers::NONE));
    assert!(matches!(action, UiAction::Render));
    assert!(app.messages.is_empty());
}

#[test]
fn events_that_are_no_keys_change_nothing() {
    let mut app = app_with("ann", "draft");
    let action = app.handle_signal(Signal::KeyPress(KeyInput::read(Event::Resize(80, 24))));
    assert!(matches!(action, UiAction::Render));
    let action = app.handle_signal(Signal::KeyPress(KeyInput::read(Event::FocusLost)));
    assert!(matches!(action, UiAction::Render));
    assert_eq!(app.entry.area.lines()[0], "draft");
    assert_eq!(app.scroll, (0, 0));
    assert!(app.messages.is_empty());
    assert_eq!(app.closing, None);
}

#[test]
fn signals_take_effect_in_the_order_given() {
    let mut app = MessageApp::open("ann".to_string());
    app.handle_signal(Signal::Message(Message::new("bob", "one")));
    typed(&mut app, "two");
    app.handle_signal(press(KeyCode::Enter, KeyModifiers::NONE));
    app.handle_signal(Signal::Message(Message::new("bob", "three")));
    app.handle_signal(Signal::LostConnection);
    app.handle_signal(Signal::Message(Message::new("bob", "four")));
    let said: Vec<&str> = app.messages.iter().map(|m| m.content()).collect();
    assert_eq!(said, vec!["one", "two", "three"]);
    assert_eq!(app.closing, Some(ExitReason::LostConnection));
}

#[test]
fn transcript_has_a_line_for_each_message() {
    let mut app = MessageApp::open("ann".to_string());
    assert!(app.transcript().is_empty());
    app.receive(Message::new("bob", "hi"));
    app.receive(Message::new("ann", "ho"));
    let lines = app.transcript();
    assert_eq!(lines.len(), 2);
    assert_eq!(lines[0].len(), 3);
    assert_eq!(lines[0][0].text, "bob");
    assert_eq!(lines[0][0].tint, Tint::Yellow);
    assert_eq!(lines[0][2].text, "hi");
    assert_eq!(lines[1][0].text, "ann");
    assert_eq!(lines[1][1].text, " > ");
    assert_eq!(lines[1][2].text, "ho");
}
