//! Key bindings: what a terminal event asks the interface to do.
//!
//! A terminal event arrives as a `crossterm::event::Event`. The bindings read
//! two things from it: the key event's own code and modifiers, and the key
//! that `tui_textarea` makes of it for its text area.

use vstd::prelude::*;

verus! {

/// `crossterm::event::Event`, what the terminal reports: a key, the mouse, a
/// change of size or focus. Carried as it is; nothing is known of its inside.
#[verifier::external_type_specification]
#[verifier::external_body]
pub struct ExEvent(crossterm::event::Event);

/// `tui_textarea::Input`, a key with its modifiers as the text area takes
/// it. Carried as it is; nothing is known of its inside.
#[verifier::external_type_specification]
#[verifier::external_body]
pub struct ExInput(tui_textarea::Input);

/// The bit that `crossterm` sets in a key event's modifiers for the shift key.
pub const SHIFT: u8 = 1;

/// One of the four directions of the arrow keys.
#[derive(Debug, Clone, Copy, PartialEq, Eq, Structural)]
pub enum Direction {
    Up,
    Down,
    Left,
    Right,
}

/// What the scroll bindings read from a key event.
#[derive(Debug, Clone, Copy, PartialEq, Eq, Structural)]
pub struct KeyStroke {
    /// The arrow key that was struck, if it was one.
    pub arrow: Option<Direction>,
    /// The modifier keys held with it, one bit each.
    pub modifiers: u8,
}

/// What the other bindings read from the key that the text area would get.
#[derive(Debug, Clone, Copy, PartialEq, Eq, Structural)]
pub enum EditorKey {
    Esc,
    Enter,
    Other,
}

/// What a key asks for.
#[derive(Debug, Clone, Copy, PartialEq, Eq, Structural)]
pub enum KeyCommand {
    /// Move the conversation pane by one step.
    Scroll(Direction),
    /// Leave the program.
    Exit,
    /// Send what has been composed.
    Submit,
    /// Anything else: the text area's business.
    Edit,
}

/// A terminal event as it travels to the interface: the two readings that
/// the bindings decide on, and the input that the text area gets if no
/// binding takes the key.
#[derive(Debug)]
pub struct KeyInput {
    /// The key event's arrow and modifiers; `None` if the event is no key event.
    pub stroke: Option<KeyStroke>,
    /// The key that the text area would get.
    pub key: EditorKey,
    /// The input for the text area.
    pub input: tui_textarea::Input,
}

/// The direction in which a key event scrolls: that of an arrow key struck
/// with shift and no other modifier. Any other event scrolls nowhere.
pub open spec fn scroll_binding(stroke: Option<KeyStroke>) -> Option<Direction> {
    match stroke {
        Some(s) => if s.modifiers == SHIFT { s.arrow } else { None },
        None => None,
    }
}

/// The binding for a key: a scroll key scrolls; failing that, escape leaves
/// and enter submits; every other key edits.
pub open spec fn command_for(stroke: Option<KeyStroke>, key: EditorKey) -> KeyCommand {
    match scroll_binding(stroke) {
        Some(direction) => KeyCommand::Scroll(direction),
        None => match key {
            EditorKey::Esc => KeyCommand::Exit,
            EditorKey::Enter => KeyCommand::Submit,
            EditorKey::Other => KeyCommand::Edit,
        },
    }
}

/// What `key_stroke` reads from a terminal event: for a key event its arrow
/// and modifiers, for any other event nothing.
pub uninterp spec fn event_stroke(event: crossterm::event::Event) -> Option<KeyStroke>;

/// The input that `tui_textarea` makes of a terminal event for its text area.
pub uninterp spec fn event_input(event: crossterm::event::Event) -> tui_textarea::Input;

/// What `editor_key` reads from an input: whether its key is escape, enter,
/// or another.
pub uninterp spec fn input_key(input: tui_textarea::Input) -> EditorKey;

/// The form in which `event` travels: its stroke, the input that the text
/// area gets for it, and the key of that input.
pub open spec fn reading(event: crossterm::event::Event) -> KeyInput {
    KeyInput {
        stroke: event_stroke(event),
        key: input_key(event_input(event)),
        input: event_input(event),
    }
}

/// Takes a `crossterm::event::Event` apart. For a key event it gives which
/// arrow the `code` is, if any, and the modifiers as `KeyModifiers::bits`
/// returns them; for any other event, `None`. The contract claims only that
/// the event alone decides what is read.
#[verifier::external_body]
pub(crate) fn key_stroke(event: &crossterm::event::Event) -> (stroke: Option<KeyStroke>)
    ensures
        stroke == event_stroke(*event),
{
    let crossterm::event::Event::Key(key) = event else {
        return None;
    };
    let arrow = match key.code {
        crossterm::event::KeyCode::Up => Some(Direction::Up),
        crossterm::event::KeyCode::Down => Some(Direction::Down),
        crossterm::event::KeyCode::Left => Some(Direction::Left),
        crossterm::event::KeyCode::Right => Some(Direction::Right),
        _ => None,
    };
    Some(KeyStroke { arrow, modifiers: key.modifiers.bits() })
}

/// Calls `Input::from`, the conversion that `tui_textarea` defines from a
/// `crossterm` event to the input of its text area. The contract claims only
/// that the event alone decides the input.
#[verifier::external_body]
pub(crate) fn editor_input(event: crossterm::event::Event) -> (input: tui_textarea::Input)
    ensures
        input == event_input(event),
{
    tui_textarea::Input::from(event)
}

/// Reads the `key` field of a `tui_textarea::Input` and tells escape and
/// enter from every other key. The contract claims only that the input alone
/// decides what is read.
#[verifier::external_body]
pub(crate) fn editor_key(input: &tui_textarea::Input) -> (key: EditorKey)
    ensures
        key == input_key(*input),
{
    match input.key {
        tui_textarea::Key::Esc => EditorKey::Esc,
        tui_textarea::Key::Enter => EditorKey::Enter,
        _ => EditorKey::Other,
    }
}

impl KeyInput {
    /// Puts a terminal event in the form in which it travels. This only
    /// reads the event; it drops none and decides nothing.
    pub fn read(event: crossterm::event::Event) -> (key: KeyInput)
        ensures
            key == reading(event),
    {
        let stroke = key_stroke(&event);
        let input = editor_input(event);
        let key = editor_key(&input);
        KeyInput { stroke, key, input }
    }

    /// What this key asks for.
    pub fn command(&self) -> (command: KeyCommand)
        ensures
            command == command_for(self.stroke, self.key),
    {
        if let Some(stroke) = self.stroke {
            if stroke.modifiers == SHIFT {
                if let Some(direction) = stroke.arrow {
                    return KeyCommand::Scroll(direction);
                }
            }
        }
        match self.key {
            EditorKey::Esc => KeyCommand::Exit,
            EditorKey::Enter => KeyCommand::Submit,
            EditorKey::Other => KeyCommand::Edit,
        }
    }
}

} // verus!
