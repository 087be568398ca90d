use message_tui::message::{Message, Tint};

#[test]
fn new_keeps_sender_and_content() {
    let message = Message::new("ann", "hello");
    assert_eq!(message.sender(), "ann");
    assert_eq!(message.content(), "hello");
}

#[test]
fn new_takes_empty_content() {
    let message = Message::new("ann", "");
    assert_eq!(message.sender(), "ann");
    assert_eq!(message.content(), "");
}

#[test]
fn into_parts_gives_sender_then_content() {
    let (sender, content) = Message::new("ann", "two\nlines").into_parts();
    assert_eq!(sender, "ann");
    assert_eq!(content, "two\nlines");
}

#[test]
fn format_styles_sender_separator_and_content() {
    let line = Message::new("ann", "hello").format();
    assert_eq!(line.len(), 3);
    assert_eq!(line[0].text, "ann");
    assert_eq!(line[0].tint, Tint::Yellow);
    assert!(line[0].bold);
    assert_eq!(line[1].text, " > ");
    assert_eq!(line[1].tint, Tint::LightGreen);
    assert!(!line[1].bold);
    assert_eq!(line[2].text, "hello");
    assert_eq!(line[2].tint, Tint::Plain);
    assert!(!line[2].bold);
}

#[test]
fn format_keeps_three_segments_for_empty_text() {
    let line = Message::new("", "").format();
    assert_eq!(line.len(), 3);
    assert_eq!(line[0].text, "");
    assert_eq!(line[1].text, " > ");
    assert_eq!(line[2].text, "");
}
