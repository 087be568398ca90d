//! The composition buffer: the text the user is typing and has not sent yet.
//!
//! The buffer is a `tui_textarea::TextArea`. This library never edits it
//! itself: it makes one, hands it key input, and reads its lines.

use vstd::prelude::*;
use vstd::string::*;

verus! {

/// The composition buffer. It holds the text area whole, so that what draws
/// the screen can show it; to the proofs it is known by its lines alone.
#[verifier::external_body]
pub struct Entry {
    /// The text area itself, for whoever draws it.
    pub area: tui_textarea::TextArea<'static>,
}

/// The lines of text that a text area holds, first line first.
pub uninterp spec fn entry_lines(entry: Entry) -> Seq<Seq<char>>;

/// The views of a vector of lines.
pub open spec fn lines_view(lines: Seq<String>) -> Seq<Seq<char>> {
    lines.map_values(|line: String| line@)
}

/// `lines` with `separator` between each two neighbours.
pub open spec fn joined(lines: Seq<Seq<char>>, separator: Seq<char>) -> Seq<char>
    decreases lines.len(),
{
    if lines.len() == 0 {
        Seq::empty()
    } else if lines.len() == 1 {
        lines[0]
    } else {
        joined(lines.drop_last(), separator) + separator + lines.last()
    }
}

/// What separates the lines of a composed text.
pub open spec fn line_break() -> Seq<char> {
    "\n"@
}

/// The text that a buffer with these lines holds.
pub open spec fn composed(lines: Seq<Seq<char>>) -> Seq<char> {
    joined(lines, line_break())
}

/// Calls `TextArea::default`, which makes a text area that holds one line
/// with nothing on it.
#[verifier::external_body]
pub(crate) fn blank_entry() -> (entry: Entry)
    ensures
        entry_lines(entry) == seq![Seq::<char>::empty()],
{
    Entry { area: tui_textarea::TextArea::default() }
}

/// Calls `TextArea::lines` and copies the slice that it lends: the lines of
/// the text area as they stand, in order.
#[verifier::external_body]
pub(crate) fn entry_lines_now(entry: &Entry) -> (lines: Vec<String>)
    ensures
        lines_view(lines@) == entry_lines(*entry),
{
    entry.area.lines().to_vec()
}

/// Calls `TextArea::input`, which lets the text area act on one key input
/// under its own key map. Nothing is claimed of the text it holds afterwards.
#[verifier::external_body]
pub(crate) fn entry_input(entry: &mut Entry, input: tui_textarea::Input) {
    entry.area.input(input);
}

/// The lines put together with `separator` between them.
pub fn join_lines(lines: &Vec<String>, separator: &str) -> (text: String)
    ensures
        text@ == joined(lines_view(lines@), separator@),
{
    let mut text = String::new();
    let mut i: usize = 0;
    while i < lines.len()
        invariant
            i <= lines.len(),
            text@ == joined(lines_view(lines@).take(i as int), separator@),
        decreases lines.len() - i,
    {
        assert(lines_view(lines@).take(i + 1).drop_last() =~= lines_view(lines@).take(
            i as int,
        ));
        if i > 0 {
            text.append(separator);
        }
        text.append(lines[i].as_str());
        i = i + 1;
    }
    assert(lines_view(lines@).take(lines.len() as int) =~= lines_view(lines@));
    text
}

/// The text that the composition buffer holds: its lines with a line break
/// between them.
pub fn entry_text(entry: &Entry) -> (text: String)
    ensures
        text@ == composed(entry_lines(*entry)),
{
    let lines = entry_lines_now(entry);
    join_lines(&lines, "\n")
}

} // verus!
