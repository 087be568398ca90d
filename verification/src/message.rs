//! Chat messages and the way one is shown in the conversation pane.

use vstd::prelude::*;

verus! {

/// One chat message: who wrote it and what it says. Once made it does not
/// change.
#[derive(Debug)]
pub struct Message {
    sender: String,
    content: String,
}

/// A message as a pair of character sequences.
pub struct MessageView {
    pub sender: Seq<char>,
    pub content: Seq<char>,
}

impl View for Message {
    type V = MessageView;

    closed spec fn view(&self) -> MessageView {
        MessageView { sender: self.sender@, content: self.content@ }
    }
}

/// The foreground colour of a piece of text.
#[derive(Debug, Clone, Copy, PartialEq, Eq, Structural)]
pub enum Tint {
    /// The terminal's own foreground.
    Plain,
    Yellow,
    LightGreen,
}

/// A run of text drawn in one style.
#[derive(Debug)]
pub struct Segment {
    pub text: String,
    pub tint: Tint,
    pub bold: bool,
}

/// A segment with its text as a character sequence.
pub struct SegmentView {
    pub text: Seq<char>,
    pub tint: Tint,
    pub bold: bool,
}

impl View for Segment {
    type V = SegmentView;

    open spec fn view(&self) -> SegmentView {
        SegmentView { text: self.text@, tint: self.tint, bold: self.bold }
    }
}

/// The segments of a line, each by its view.
pub open spec fn line_view(line: Seq<Segment>) -> Seq<SegmentView> {
    line.map_values(|segment: Segment| segment@)
}

/// What stands between the sender and the content of a displayed message.
pub open spec fn separator() -> Seq<char> {
    " > "@
}

/// The line that shows a message: the sender in bold yellow, the separator in
/// light green, then the content unstyled.
pub open spec fn formatted(message: MessageView) -> Seq<SegmentView> {
    seq![
        SegmentView { text: message.sender, tint: Tint::Yellow, bold: true },
        SegmentView { text: separator(), tint: Tint::LightGreen, bold: false },
        SegmentView { text: message.content, tint: Tint::Plain, bold: false },
    ]
}

impl Message {
    /// A message from `sender` that says `content`.
    pub fn new(sender: &str, content: &str) -> (message: Message)
        ensures
            message@ == (MessageView { sender: sender@, content: content@ }),
    {
        Message { sender: sender.to_owned(), content: content.to_owned() }
    }

    /// Who wrote the message.
    pub fn sender(&self) -> (sender: &str)
        ensures
            sender@ == self@.sender,
    {
        self.sender.as_str()
    }

    /// What the message says.
    pub fn content(&self) -> (content: &str)
        ensures
            content@ == self@.content,
    {
        self.content.as_str()
    }

    /// The sender and the content, in this order, as owned strings.
    pub fn into_parts(self) -> (parts: (String, String))
        ensures
            parts.0@ == self@.sender,
            parts.1@ == self@.content,
    {
        (self.sender, self.content)
    }

    /// The styled line that shows this message in the conversation pane.
    pub fn format(&self) -> (line: Vec<Segment>)
        ensures
            line_view(line@) == formatted(self@),
    {
        let mut line: Vec<Segment> = Vec::new();
        line.push(Segment { text: self.sender.clone(), tint: Tint::Yellow, bold: true });
        line.push(Segment { text: " > ".to_owned(), tint: Tint::LightGreen, bold: false });
        line.push(Segment { text: self.content.clone(), tint: Tint::Plain, bold: false });
        line
    }
}

} // verus!
