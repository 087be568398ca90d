use message_tui::entry::{entry_text, join_lines};
use message_tui::ui::MessageApp;

fn lines(texts: &[&str]) -> Vec<String> {
    texts.iter().map(|text| text.to_string()).collect()
}

#[test]
fn join_of_no_lines_is_empty() {
    assert_eq!(join_lines(&lines(&[]), "\n"), "");
}

#[test]
fn join_of_one_line_is_that_line() {
    assert_eq!(join_lines(&lines(&["hello"]), "\n"), "hello");
}

#[test]
fn join_puts_the_separator_between_lines_only() {
    assert_eq!(join_lines(&lines(&["a", "b", "c"]), "\n"), "a\nb\nc");
    assert_eq!(join_lines(&lines(&["a", "b"]), ", "), "a, b");
}

#[test]
fn join_keeps_empty_lines() {
    assert_eq!(join_lines(&lines(&["", ""]), "\n"), "\n");
    assert_eq!(join_lines(&lines(&["a", "", "b"]), "\n"), "a\n\nb");
}

#[test]
fn a_new_buffer_holds_one_empty_line() {
    let app = MessageApp::open("ann".to_string());
    assert_eq!(app.entry.area.lines().len(), 1);
    assert_eq!(app.entry.area.lines()[0], "");
    assert_eq!(entry_text(&app.entry), "");
}

#[test]
fn the_text_of_a_buffer_is_its_lines_with_line_breaks() {
    let mut app = MessageApp::open("ann".to_string());
    app.entry.area.insert_str("one\ntwo");
    assert_eq!(app.entry.area.lines().len(), 2);
    assert_eq!(entry_text(&app.entry), "one\ntwo");
}
