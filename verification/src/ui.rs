//! The interface's state and its reaction to each signal.
//!
//! The interface is the only owner of the conversation log, the scroll offset
//! and the composition buffer. It reacts to one signal at a time and answers
//! with what the program around it has to do next: draw again, hand a message
//! to the network side, or leave.

use vstd::prelude::*;
use crate::entry::{blank_entry, composed, entry_input, entry_lines, entry_text, Entry};
use crate::keys::{command_for, Direction, KeyCommand, KeyInput};
use crate::message::{formatted, line_view, Message, MessageView, Segment};
use crate::signal::{Signal, SignalView};

verus! {

/// Why the interface closes.
#[derive(Debug, Clone, Copy, PartialEq, Eq, Structural)]
pub enum ExitReason {
    /// The user asked to leave.
    UserExit,
    /// The peer is gone.
    LostConnection,
}

/// What the user is told of a lost connection once the terminal is theirs again.
pub open spec fn loss_notice() -> Seq<char> {
    "Lost connection to other user"@
}

impl ExitReason {
    /// What the user is told when the interface has closed: of a lost
    /// connection that it was lost, of their own wish to leave nothing.
    pub fn notice(self) -> (notice: Option<&'static str>)
        ensures
            notice is Some <==> self == ExitReason::LostConnection,
            notice matches Some(text) ==> text@ == loss_notice(),
    {
        match self {
            ExitReason::UserExit => None,
            ExitReason::LostConnection => Some("Lost connection to other user"),
        }
    }
}

/// What is to be done after a signal has been handled.
#[derive(Debug)]
pub enum UiAction {
    /// Draw the screen and wait for the next signal.
    Render,
    /// Put this message on the queue to the network side, then draw and wait.
    Send(Message),
    /// Give the terminal back, tell the user what the reason has for them to
    /// be told, and end the program with success.
    Exit(ExitReason),
}

/// An action with its message as character sequences.
pub enum UiActionView {
    Render,
    Send(MessageView),
    Exit(ExitReason),
}

impl View for UiAction {
    type V = UiActionView;

    open spec fn view(&self) -> UiActionView {
        match *self {
            UiAction::Render => UiActionView::Render,
            UiAction::Send(message) => UiActionView::Send(message@),
            UiAction::Exit(reason) => UiActionView::Exit(reason),
        }
    }
}

/// The state of the interface.
pub struct MessageApp {
    /// The name under which this side's messages go out.
    pub username: String,
    /// The conversation so far, oldest message first.
    pub messages: Vec<Message>,
    /// The composition buffer.
    pub entry: Entry,
    /// How far the conversation pane is scrolled: rows, then columns.
    pub scroll: (u16, u16),
    /// `None` while the interface runs; once it closes, the reason.
    pub closing: Option<ExitReason>,
}

/// The interface's state as mathematical values.
pub struct AppView {
    pub username: Seq<char>,
    pub log: Seq<MessageView>,
    /// The lines of the composition buffer.
    pub draft: Seq<Seq<char>>,
    pub scroll: (u16, u16),
    pub closing: Option<ExitReason>,
}

/// The messages of a log, each by its view.
pub open spec fn log_view(messages: Seq<Message>) -> Seq<MessageView> {
    messages.map_values(|message: Message| message@)
}

impl View for MessageApp {
    type V = AppView;

    open spec fn view(&self) -> AppView {
        AppView {
            username: self.username@,
            log: log_view(self.messages@),
            draft: entry_lines(self.entry),
            scroll: self.scroll,
            closing: self.closing,
        }
    }
}

/// The lines of a composition buffer that holds nothing: one line, empty.
pub open spec fn blank_draft() -> Seq<Seq<char>> {
    seq![Seq::<char>::empty()]
}

/// The state in which a session starts.
pub open spec fn opened(username: Seq<char>) -> AppView {
    AppView {
        username,
        log: Seq::empty(),
        draft: blank_draft(),
        scroll: (0u16, 0u16),
        closing: None,
    }
}

/// One step back on an axis: one less, but never below zero.
pub open spec fn back(offset: u16) -> u16 {
    if offset == 0 {
        0u16
    } else {
        (offset - 1) as u16
    }
}

/// One step forth on an axis: one more, but never above the largest offset.
pub open spec fn forth(offset: u16) -> u16 {
    if offset == u16::MAX {
        u16::MAX
    } else {
        (offset + 1) as u16
    }
}

/// The offset one step from `offset` in `direction`. Up and down move the
/// rows, left and right the columns.
pub open spec fn scrolled(offset: (u16, u16), direction: Direction) -> (u16, u16) {
    match direction {
        Direction::Up => (back(offset.0), offset.1),
        Direction::Down => (forth(offset.0), offset.1),
        Direction::Left => (offset.0, back(offset.1)),
        Direction::Right => (offset.0, forth(offset.1)),
    }
}

/// The state after `message` has come in: it stands last in the log.
pub open spec fn received(app: AppView, message: MessageView) -> AppView {
    AppView { log: app.log.push(message), ..app }
}

/// The state once the interface closes for `reason`.
pub open spec fn closed(app: AppView, reason: ExitReason) -> AppView {
    AppView { closing: Some(reason), ..app }
}

/// The message that a submit would send: this side's name and the composed text.
pub open spec fn outgoing(app: AppView) -> MessageView {
    MessageView { sender: app.username, content: composed(app.draft) }
}

/// Whether nothing has been composed.
pub open spec fn nothing_composed(app: AppView) -> bool {
    composed(app.draft).len() == 0
}

/// The state after a submit. With nothing composed it is the state before;
/// otherwise the outgoing message stands last in the log and the buffer is blank.
pub open spec fn submitted(app: AppView) -> AppView {
    if nothing_composed(app) {
        app
    } else {
        AppView { log: app.log.push(outgoing(app)), draft: blank_draft(), ..app }
    }
}

/// What a submit puts on the queue to the network side: with nothing
/// composed nothing, otherwise the outgoing message.
pub open spec fn submission(app: AppView) -> Option<MessageView> {
    if nothing_composed(app) {
        None
    } else {
        Some(outgoing(app))
    }
}

/// How a closed interface takes anything: nothing changes, and the answer is
/// to leave for the reason it closed for.
pub open spec fn ignored(before: AppView, after: AppView, action: UiActionView) -> bool {
    &&& before.closing is Some
    &&& after == before
    &&& action == UiActionView::Exit(before.closing.unwrap())
}

/// How a key asking for `command` takes the interface from `before` to
/// `after` with `action`. What the text area does with a key of its own is
/// the text area's business: of an edit only the buffer may change.
pub open spec fn key_effect(
    before: AppView,
    command: KeyCommand,
    after: AppView,
    action: UiActionView,
) -> bool {
    if before.closing is Some {
        ignored(before, after, action)
    } else {
        match command {
            KeyCommand::Scroll(direction) => {
                &&& after == (AppView { scroll: scrolled(before.scroll, direction), ..before })
                &&& action == UiActionView::Render
            },
            KeyCommand::Exit => {
                &&& after == closed(before, ExitReason::UserExit)
                &&& action == UiActionView::Exit(ExitReason::UserExit)
            },
            KeyCommand::Submit => {
                &&& after == submitted(before)
                &&& action == match submission(before) {
                    Some(message) => UiActionView::Send(message),
                    None => UiActionView::Render,
                }
            },
            KeyCommand::Edit => {
                &&& after == (AppView { draft: after.draft, ..before })
                &&& action == UiActionView::Render
            },
        }
    }
}

/// How `signal` takes the interface from `before` to `after` with `action`.
/// A terminal event acts as the command that its key is bound to.
pub open spec fn signal_effect(
    before: AppView,
    signal: SignalView,
    after: AppView,
    action: UiActionView,
) -> bool {
    if before.closing is Some {
        ignored(before, after, action)
    } else {
        match signal {
            SignalView::Message(message) => {
                &&& after == received(before, message)
                &&& action == UiActionView::Render
            },
            SignalView::KeyPress(key) => key_effect(
                before,
                command_for(key.stroke, key.key),
                after,
                action,
            ),
            SignalView::LostConnection => {
                &&& after == closed(before, ExitReason::LostConnection)
                &&& action == UiActionView::Exit(ExitReason::LostConnection)
            },
        }
    }
}

/// The offset one step from `offset` in `direction`, kept within bounds.
pub fn scroll_step(offset: (u16, u16), direction: Direction) -> (moved: (u16, u16))
    ensures
        moved == scrolled(offset, direction),
{
    match direction {
        Direction::Up => (offset.0.saturating_sub(1), offset.1),
        Direction::Down => (offset.0.saturating_add(1), offset.1),
        Direction::Left => (offset.0, offset.1.saturating_sub(1)),
        Direction::Right => (offset.0, offset.1.saturating_add(1)),
    }
}

impl MessageApp {
    /// The interface at the start of a session: nothing said, nothing
    /// composed, nothing scrolled.
    pub fn open(username: String) -> (app: MessageApp)
        ensures
            app@ == opened(username@),
    {
        let app = MessageApp {
            username,
            messages: Vec::new(),
            entry: blank_entry(),
            scroll: (0, 0),
            closing: None,
        };
        assert(app@.log =~= Seq::empty());
        app
    }

    /// Moves the conversation pane one step in `direction`.
    pub fn scroll_by(&mut self, direction: Direction)
        ensures
            final(self)@ == (AppView {
                scroll: scrolled(old(self)@.scroll, direction),
                ..old(self)@
            }),
    {
        self.scroll = scroll_step(self.scroll, direction);
    }

    /// Puts a message from the peer at the end of the log.
    pub fn receive(&mut self, message: Message)
        ensures
            final(self)@ == received(old(self)@, message@),
    {
        self.messages.push(message);
        assert(final(self)@.log =~= old(self)@.log.push(message@));
    }

    /// Sends what has been composed. With nothing composed nothing happens
    /// and nothing is returned. Otherwise the message is logged, the buffer is
    /// cleared, and a second copy of the message is returned for the network
    /// side.
    pub fn submit(&mut self) -> (sent: Option<Message>)
        ensures
            final(self)@ == submitted(old(self)@),
            sent is Some <==> submission(old(self)@) is Some,
            sent matches Some(message) ==> Some(message@) == submission(old(self)@),
    {
        let content = entry_text(&self.entry);
        if content.as_str().is_empty() {
            return None;
        }
        self.messages.push(Message::new(self.username.as_str(), content.as_str()));
        let sent = Message::new(self.username.as_str(), content.as_str());
        self.entry = blank_entry();
        assert(final(self)@.log =~= old(self)@.log.push(outgoing(old(self)@)));
        Some(sent)
    }

    /// Marks the interface as closing for `reason`.
    pub fn shut(&mut self, reason: ExitReason)
        ensures
            final(self)@ == closed(old(self)@, reason),
    {
        self.closing = Some(reason);
    }

    /// Reacts to a key. A closed interface ignores it. Otherwise a scroll key
    /// moves the conversation pane, the exit key closes the interface, the
    /// submit key sends what has been composed, and any other key goes to
    /// the text area.
    pub fn handle_input(&mut self, key: KeyInput) -> (action: UiAction)
        ensures
            key_effect(old(self)@, command_for(key.stroke, key.key), final(self)@, action@),
    {
        if let Some(reason) = self.closing {
            return UiAction::Exit(reason);
        }
        match key.command() {
            KeyCommand::Scroll(direction) => {
                self.scroll_by(direction);
                UiAction::Render
            },
            KeyCommand::Exit => {
                self.shut(ExitReason::UserExit);
                UiAction::Exit(ExitReason::UserExit)
            },
            KeyCommand::Submit => {
                match self.submit() {
                    Some(message) => UiAction::Send(message),
                    None => UiAction::Render,
                }
            },
            KeyCommand::Edit => {
                entry_input(&mut self.entry, key.input);
                UiAction::Render
            },
        }
    }

    /// Reacts to one signal. A closed interface ignores it. Otherwise a
    /// message from the peer is logged, a terminal event is handled as a key,
    /// and the loss of the connection closes the interface.
    pub fn handle_signal(&mut self, signal: Signal) -> (action: UiAction)
        ensures
            signal_effect(old(self)@, signal@, final(self)@, action@),
    {
        if let Some(reason) = self.closing {
            return UiAction::Exit(reason);
        }
        match signal {
            Signal::Message(message) => {
                self.receive(message);
                UiAction::Render
            },
            Signal::KeyPress(key) => self.handle_input(key),
            Signal::LostConnection => {
                self.shut(ExitReason::LostConnection);
                UiAction::Exit(ExitReason::LostConnection)
            },
        }
    }

    /// The conversation as styled lines, one for each message, oldest first.
    pub fn transcript(&self) -> (lines: Vec<Vec<Segment>>)
        ensures
            lines@.len() == self@.log.len(),
            forall|i: int|
                0 <= i < lines@.len() ==> line_view(#[trigger] lines@[i]@) == formatted(
                    self@.log[i],
                ),
    {
        let mut lines: Vec<Vec<Segment>> = Vec::new();
        let mut i: usize = 0;
        while i < self.messages.len()
            invariant
                i <= self.messages.len(),
                lines@.len() == i,
                forall|j: int|
                    0 <= j < i ==> line_view(#[trigger] lines@[j]@) == formatted(self@.log[j]),
            decreases self.messages.len() - i,
        {
            lines.push(self.messages[i].format());
            i = i + 1;
        }
        lines
    }
}

/// The offset `steps` steps from `offset`, all in `direction`.
pub open spec fn scrolled_times(offset: (u16, u16), direction: Direction, steps: nat) -> (u16, u16)
    decreases steps,
{
    if steps == 0 {
        offset
    } else {
        scrolled(scrolled_times(offset, direction, (steps - 1) as nat), direction)
    }
}

/// Whether `states`, `signals` and `actions` tell of a run of the interface:
/// each signal takes the state before it to the state after it, with its
/// action. The states are one more than the signals.
pub open spec fn is_run(
    states: Seq<AppView>,
    signals: Seq<SignalView>,
    actions: Seq<UiActionView>,
) -> bool {
    &&& states.len() == signals.len() + 1
    &&& actions.len() == signals.len()
    &&& forall|i: int|
        0 <= i < signals.len() ==> signal_effect(
            states[i],
            #[trigger] signals[i],
            states[i + 1],
            actions[i],
        )
}

/// A step back on an axis that stands at zero leaves the offset as it is.
pub proof fn lemma_scroll_stops_at_zero(offset: (u16, u16))
    ensures
        offset.0 == 0 ==> scrolled(offset, Direction::Up) == offset,
        offset.1 == 0 ==> scrolled(offset, Direction::Left) == offset,
{
}

/// Steps forth add up until the largest offset is reached, and stay there.
pub proof fn lemma_steps_forth(offset: (u16, u16), steps: nat)
    ensures
        scrolled_times(offset, Direction::Down, steps) == (
            if offset.0 + steps <= u16::MAX { (offset.0 + steps) as u16 } else { u16::MAX },
            offset.1,
        ),
        scrolled_times(offset, Direction::Right, steps) == (
            offset.0,
            if offset.1 + steps <= u16::MAX { (offset.1 + steps) as u16 } else { u16::MAX },
        ),
    decreases steps,
{
    if steps > 0 {
        lemma_steps_forth(offset, (steps - 1) as nat);
    }
}

/// Steps back take away until zero is reached, and stay there.
pub proof fn lemma_steps_back(offset: (u16, u16), steps: nat)
    ensures
        scrolled_times(offset, Direction::Up, steps) == (
            if steps <= offset.0 { (offset.0 - steps) as u16 } else { 0u16 },
            offset.1,
        ),
        scrolled_times(offset, Direction::Left, steps) == (
            offset.0,
            if steps <= offset.1 { (offset.1 - steps) as u16 } else { 0u16 },
        ),
    decreases steps,
{
    if steps > 0 {
        lemma_steps_back(offset, (steps - 1) as nat);
    }
}

/// From zero, as many steps forth and then as many back end at zero again,
/// on either axis and for any number of steps.
pub proof fn lemma_forth_then_back(steps: nat)
    ensures
        scrolled_times(
            scrolled_times((0u16, 0u16), Direction::Down, steps),
            Direction::Up,
            steps,
        ) == (0u16, 0u16),
        scrolled_times(
            scrolled_times((0u16, 0u16), Direction::Right, steps),
            Direction::Left,
            steps,
        ) == (0u16, 0u16),
{
    lemma_steps_forth((0u16, 0u16), steps);
    lemma_steps_back(scrolled_times((0u16, 0u16), Direction::Down, steps), steps);
    lemma_steps_back(scrolled_times((0u16, 0u16), Direction::Right, steps), steps);
}

/// From zero, steps back change nothing, so as many steps back and then as
/// many forth end where the steps forth alone end: at their number, or at the
/// largest offset if that is less. That is zero for no steps, and only then.
pub proof fn lemma_back_then_forth(steps: nat)
    ensures
        scrolled_times((0u16, 0u16), Direction::Up, steps) == (0u16, 0u16),
        scrolled_times((0u16, 0u16), Direction::Left, steps) == (0u16, 0u16),
        scrolled_times(
            scrolled_times((0u16, 0u16), Direction::Up, steps),
            Direction::Down,
            steps,
        ) == (if steps <= u16::MAX { steps as u16 } else { u16::MAX }, 0u16),
        scrolled_times(
            scrolled_times((0u16, 0u16), Direction::Left, steps),
            Direction::Right,
            steps,
        ) == (0u16, if steps <= u16::MAX { steps as u16 } else { u16::MAX }),
        scrolled_times(
            scrolled_times((0u16, 0u16), Direction::Up, steps),
            Direction::Down,
            steps,
        ) == (0u16, 0u16) <==> steps == 0,
        scrolled_times(
            scrolled_times((0u16, 0u16), Direction::Left, steps),
            Direction::Right,
            steps,
        ) == (0u16, 0u16) <==> steps == 0,
{
    lemma_steps_back((0u16, 0u16), steps);
    lemma_steps_forth((0u16, 0u16), steps);
}

/// Messages are logged in the order in which they arrive: after a run in
/// which a running interface is handed one message after the other, the log
/// is the log before with these messages behind it, each where it came in the
/// run, and nothing else has changed.
pub proof fn lemma_logged_in_arrival_order(
    states: Seq<AppView>,
    signals: Seq<SignalView>,
    actions: Seq<UiActionView>,
    arrivals: Seq<MessageView>,
)
    requires
        is_run(states, signals, actions),
        states[0].closing is None,
        arrivals.len() == signals.len(),
        forall|i: int|
            0 <= i < signals.len() ==> #[trigger] signals[i] == SignalView::Message(arrivals[i]),
    ensures
        states.last() == (AppView { log: states[0].log + arrivals, ..states[0] }),
    decreases arrivals.len(),
{
    if arrivals.len() > 0 {
        let last = arrivals.len() - 1;
        lemma_logged_in_arrival_order(
            states.drop_last(),
            signals.drop_last(),
            actions.drop_last(),
            arrivals.drop_last(),
        );
        assert(signals[last] == SignalView::Message(arrivals[last]));
        assert((states[0].log + arrivals.drop_last()).push(arrivals[last]) =~= states[0].log
            + arrivals);
    }
}

/// Signals take effect in the order in which they are handled: what the
/// first of two put in the log stands before what the second put there. So of
/// two messages handled one after the other by a running interface, the first
/// stands in the log right before the second, behind all that was there.
pub proof fn lemma_first_come_first_logged(
    before: AppView,
    first: SignalView,
    between: AppView,
    second: SignalView,
    after: AppView,
    first_action: UiActionView,
    second_action: UiActionView,
)
    requires
        signal_effect(before, first, between, first_action),
        signal_effect(between, second, after, second_action),
    ensures
        before.log.is_prefix_of(between.log),
        between.log.is_prefix_of(after.log),
        before.closing is None ==> match (first, second) {
            (SignalView::Message(earlier), SignalView::Message(later)) => {
                &&& after.log == before.log.push(earlier).push(later)
                &&& after.log[before.log.len() as int] == earlier
                &&& after.log[before.log.len() as int + 1] == later
            },
            _ => true,
        },
{
    lemma_log_only_grows(before, first, between, first_action);
    lemma_log_only_grows(between, second, after, second_action);
}

/// In a run the log keeps all it held: the log of an earlier state is the
/// beginning of the log of every later state, and between the two it has
/// grown by one message for each signal at most.
pub proof fn lemma_log_is_kept(
    states: Seq<AppView>,
    signals: Seq<SignalView>,
    actions: Seq<UiActionView>,
    earlier: int,
    later: int,
)
    requires
        is_run(states, signals, actions),
        0 <= earlier <= later < states.len(),
    ensures
        states[earlier].log.is_prefix_of(states[later].log),
        states[later].log.len() <= states[earlier].log.len() + (later - earlier),
        states[later].username == states[earlier].username,
    decreases later - earlier,
{
    if earlier < later {
        lemma_log_is_kept(states, signals, actions, earlier, later - 1);
        lemma_log_only_grows(
            states[later - 1],
            signals[later - 1],
            states[later],
            actions[later - 1],
        );
    }
}

/// In a run an interface that closes is closed for good: from the state in
/// which it has a reason to leave, no later state differs, whatever signals
/// come. A message that comes after the loss of the connection is not logged.
pub proof fn lemma_closed_for_good(
    states: Seq<AppView>,
    signals: Seq<SignalView>,
    actions: Seq<UiActionView>,
    earlier: int,
    later: int,
)
    requires
        is_run(states, signals, actions),
        0 <= earlier <= later < states.len(),
        states[earlier].closing is Some,
    ensures
        states[later] == states[earlier],
    decreases later - earlier,
{
    if earlier < later {
        lemma_closed_for_good(states, signals, actions, earlier, later - 1);
        assert(signal_effect(
            states[later - 1],
            signals[later - 1],
            states[later - 1 + 1],
            actions[later - 1],
        ));
    }
}

/// The log only grows, and by one message at most: whatever the signal, the
/// log before is the beginning of the log after. The name stays as it is.
pub proof fn lemma_log_only_grows(
    before: AppView,
    signal: SignalView,
    after: AppView,
    action: UiActionView,
)
    requires
        signal_effect(before, signal, after, action),
    ensures
        before.log.is_prefix_of(after.log),
        after.log.len() <= before.log.len() + 1,
        after.username == before.username,
{
}

/// An interface that closes stays closed: once it has a reason to leave, no
/// signal changes anything, and every signal is answered with the same
/// request to leave.
pub proof fn lemma_closing_is_final(
    before: AppView,
    signal: SignalView,
    after: AppView,
    action: UiActionView,
)
    requires
        before.closing is Some,
        signal_effect(before, signal, after, action),
    ensures
        after == before,
        action == UiActionView::Exit(before.closing.unwrap()),
{
}

/// Only a submit puts a message on the queue to the network side, and the
/// message it puts there is the one it has just logged.
pub proof fn lemma_sends_what_it_logged(
    before: AppView,
    signal: SignalView,
    after: AppView,
    action: UiActionView,
)
    requires
        signal_effect(before, signal, after, action),
        action is Send,
    ensures
        signal matches SignalView::KeyPress(key) && command_for(key.stroke, key.key)
            == KeyCommand::Submit,
        action == UiActionView::Send(outgoing(before)),
        after.log == before.log.push(outgoing(before)),
        after.draft == blank_draft(),
{
}

/// A submit logs exactly what it sends: with nothing composed it changes
/// nothing and sends nothing; otherwise the message it sends is the one that
/// now stands last in the log, and the log has grown by that one message.
pub proof fn lemma_submit_logs_what_it_sends(app: AppView)
    ensures
        nothing_composed(app) ==> submitted(app) == app && submission(app) is None,
        !nothing_composed(app) ==> submission(app) == Some(outgoing(app))
            && submitted(app).log == app.log.push(outgoing(app))
            && submitted(app).log.last() == outgoing(app),
{
}

/// A buffer that holds one empty line composes to nothing, so a submit right
/// after the start of a session, or right after another submit, does nothing.
pub proof fn lemma_blank_draft_composes_nothing(app: AppView)
    ensures
        composed(blank_draft()).len() == 0,
        submitted(submitted(app)) == submitted(app),
        submission(submitted(app)) is None,
{
}

} // verus!
