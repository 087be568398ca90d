//! The network side's cycle between the socket and the two queues.
//!
//! One round of the cycle polls the queue of outgoing messages, writes the
//! message that it found, reads once from the socket, passes on what could be
//! decoded, and sleeps. A failed write ends the cycle: the loss is reported
//! to the interface once, and nothing is done after that.
//!
//! The cycle touches neither socket nor queue itself. It is told the outcome
//! of the last action and answers with the next one.

use vstd::prelude::*;
use crate::message::{Message, MessageView};
use crate::signal::{Signal, SignalView};

verus! {

/// The size of the buffer that one read fills at most.
pub const RECEIVE_BUFFER_SIZE: usize = 1024;

/// Where in its cycle the network side stands, named by what it waits for.
#[derive(Debug, Clone, Copy, PartialEq, Eq, Structural)]
pub enum TransportPhase {
    /// The outcome of polling the outgoing queue.
    Polling,
    /// The outcome of the write.
    Writing,
    /// The loss of the connection being passed to the interface.
    Reporting,
    /// The outcome of the read.
    Reading,
    /// The outcome of decoding what was read.
    Decoding,
    /// The received message being passed to the interface.
    Delivering,
    /// The end of the pause between two rounds.
    Sleeping,
    /// Nothing any more.
    Stopped,
}

/// The outcome of an action.
#[derive(Debug)]
pub enum TransportEvent {
    /// The outgoing queue was polled without waiting, and held this.
    Polled(Option<Message>),
    /// The message was written to the socket, or the write failed.
    Written(bool),
    /// The signal is on its way to the interface.
    Signalled,
    /// The socket was read without waiting: so many bytes came, or none
    /// could be had.
    Received(Option<usize>),
    /// The bytes were decoded as this message, or as none.
    Decoded(Option<Message>),
    /// The pause is over.
    Slept,
}

/// What the network side is to do next.
#[derive(Debug)]
pub enum TransportAction {
    /// Poll the outgoing queue without waiting.
    Poll,
    /// Encode this message and write it to the socket as one payload.
    Write(Message),
    /// Put this signal on the queue to the interface.
    Emit(Signal),
    /// Read once from the socket, without waiting, into the receive buffer.
    Read,
    /// Decode this many bytes from the start of the receive buffer.
    Decode(usize),
    /// Pause for this many milliseconds.
    Sleep(u64),
    /// Leave the cycle.
    Halt,
}

/// An event with its message as character sequences.
pub enum TransportEventView {
    Polled(Option<MessageView>),
    Written(bool),
    Signalled,
    Received(Option<usize>),
    Decoded(Option<MessageView>),
    Slept,
}

/// An action with what it carries as mathematical values.
pub enum TransportActionView {
    Poll,
    Write(MessageView),
    Emit(SignalView),
    Read,
    Decode(usize),
    Sleep(u64),
    Halt,
}

/// An optional message by its view.
pub open spec fn message_view(message: Option<Message>) -> Option<MessageView> {
    match message {
        Some(m) => Some(m@),
        None => None,
    }
}

impl View for TransportEvent {
    type V = TransportEventView;

    open spec fn view(&self) -> TransportEventView {
        match *self {
            TransportEvent::Polled(message) => TransportEventView::Polled(message_view(message)),
            TransportEvent::Written(done) => TransportEventView::Written(done),
            TransportEvent::Signalled => TransportEventView::Signalled,
            TransportEvent::Received(count) => TransportEventView::Received(count),
            TransportEvent::Decoded(message) => TransportEventView::Decoded(message_view(message)),
            TransportEvent::Slept => TransportEventView::Slept,
        }
    }
}

impl View for TransportAction {
    type V = TransportActionView;

    open spec fn view(&self) -> TransportActionView {
        match *self {
            TransportAction::Poll => TransportActionView::Poll,
            TransportAction::Write(message) => TransportActionView::Write(message@),
            TransportAction::Emit(signal) => TransportActionView::Emit(signal@),
            TransportAction::Read => TransportActionView::Read,
            TransportAction::Decode(count) => TransportActionView::Decode(count),
            TransportAction::Sleep(millis) => TransportActionView::Sleep(millis),
            TransportAction::Halt => TransportActionView::Halt,
        }
    }
}

/// The network side's state: the pause between two rounds, in milliseconds,
/// and the place in the cycle.
#[derive(Debug, Clone, Copy, PartialEq, Eq, Structural)]
pub struct Transport {
    pub poll_rate: u16,
    pub phase: TransportPhase,
}

/// The phase in which the cycle waits for the outcome of `action`.
pub open spec fn awaiting(action: TransportActionView) -> TransportPhase {
    match action {
        TransportActionView::Poll => TransportPhase::Polling,
        TransportActionView::Write(_) => TransportPhase::Writing,
        TransportActionView::Emit(SignalView::LostConnection) => TransportPhase::Reporting,
        TransportActionView::Emit(_) => TransportPhase::Delivering,
        TransportActionView::Read => TransportPhase::Reading,
        TransportActionView::Decode(_) => TransportPhase::Decoding,
        TransportActionView::Sleep(_) => TransportPhase::Sleeping,
        TransportActionView::Halt => TransportPhase::Stopped,
    }
}

/// The answer to `event` in state `transport`, one line for each outcome of
/// what the cycle waits for. An event that is no such outcome gets none.
pub open spec fn answer(transport: Transport, event: TransportEventView) -> Option<
    TransportActionView,
> {
    let pause = TransportActionView::Sleep(transport.poll_rate as u64);
    match (transport.phase, event) {
        (TransportPhase::Polling, TransportEventView::Polled(Some(message))) => Some(
            TransportActionView::Write(message),
        ),
        (TransportPhase::Polling, TransportEventView::Polled(None)) => Some(
            TransportActionView::Read,
        ),
        (TransportPhase::Writing, TransportEventView::Written(true)) => Some(
            TransportActionView::Read,
        ),
        (TransportPhase::Writing, TransportEventView::Written(false)) => Some(
            TransportActionView::Emit(SignalView::LostConnection),
        ),
        (TransportPhase::Reporting, TransportEventView::Signalled) => Some(
            TransportActionView::Halt,
        ),
        (TransportPhase::Reading, TransportEventView::Received(Some(count))) => if count == 0 {
            Some(pause)
        } else if count <= RECEIVE_BUFFER_SIZE {
            Some(TransportActionView::Decode(count))
        } else {
            None
        },
        (TransportPhase::Reading, TransportEventView::Received(None)) => Some(pause),
        (TransportPhase::Decoding, TransportEventView::Decoded(Some(message))) => Some(
            TransportActionView::Emit(SignalView::Message(message)),
        ),
        (TransportPhase::Decoding, TransportEventView::Decoded(None)) => Some(pause),
        (TransportPhase::Delivering, TransportEventView::Signalled) => Some(pause),
        (TransportPhase::Sleeping, TransportEventView::Slept) => Some(
            TransportActionView::Poll,
        ),
        _ => None,
    }
}

/// The state after `event`: unchanged by an event that is not expected, else
/// waiting for the outcome of the answer.
pub open spec fn stepped(transport: Transport, event: TransportEventView) -> Transport {
    match answer(transport, event) {
        Some(action) => Transport { phase: awaiting(action), ..transport },
        None => transport,
    }
}

impl Transport {
    /// The network side at the start of a session, and its first action: to
    /// poll the outgoing queue.
    pub fn start(poll_rate: u16) -> (begun: (Transport, TransportAction))
        ensures
            begun.0 == (Transport { poll_rate, phase: TransportPhase::Polling }),
            begun.1@ == TransportActionView::Poll,
    {
        (Transport { poll_rate, phase: TransportPhase::Polling }, TransportAction::Poll)
    }

    /// Takes the outcome of the last action and gives the next action. An
    /// event that is no outcome of what the cycle waits for changes nothing
    /// and gets no answer.
    pub fn step(&mut self, event: TransportEvent) -> (action: Option<TransportAction>)
        ensures
            *final(self) == stepped(*old(self), event@),
            action is Some <==> answer(*old(self), event@) is Some,
            action matches Some(next) ==> Some(next@) == answer(*old(self), event@),
    {
        let pause: u64 = self.poll_rate as u64;
        let next = match (self.phase, event) {
            (TransportPhase::Polling, TransportEvent::Polled(Some(message))) => {
                TransportAction::Write(message)
            },
            (TransportPhase::Polling, TransportEvent::Polled(None)) => TransportAction::Read,
            (TransportPhase::Writing, TransportEvent::Written(true)) => TransportAction::Read,
            (TransportPhase::Writing, TransportEvent::Written(false)) => {
                TransportAction::Emit(Signal::LostConnection)
            },
            (TransportPhase::Reporting, TransportEvent::Signalled) => TransportAction::Halt,
            (TransportPhase::Reading, TransportEvent::Received(Some(count))) => {
                if count > RECEIVE_BUFFER_SIZE {
                    return None;
                }
                if count == 0 {
                    TransportAction::Sleep(pause)
                } else {
                    TransportAction::Decode(count)
                }
            },
            (TransportPhase::Reading, TransportEvent::Received(None)) => {
                TransportAction::Sleep(pause)
            },
            (TransportPhase::Decoding, TransportEvent::Decoded(Some(message))) => {
                TransportAction::Emit(Signal::Message(message))
            },
            (TransportPhase::Decoding, TransportEvent::Decoded(None)) => {
                TransportAction::Sleep(pause)
            },
            (TransportPhase::Delivering, TransportEvent::Signalled) => {
                TransportAction::Sleep(pause)
            },
            (TransportPhase::Sleeping, TransportEvent::Slept) => TransportAction::Poll,
            _ => {
                return None;
            },
        };
        self.phase = phase_after(&next);
        Some(next)
    }
}

/// The phase in which the cycle waits for the outcome of `action`.
fn phase_after(action: &TransportAction) -> (phase: TransportPhase)
    ensures
        phase == awaiting(action@),
{
    match action {
        TransportAction::Poll => TransportPhase::Polling,
        TransportAction::Write(_) => TransportPhase::Writing,
        TransportAction::Emit(Signal::LostConnection) => TransportPhase::Reporting,
        TransportAction::Emit(_) => TransportPhase::Delivering,
        TransportAction::Read => TransportPhase::Reading,
        TransportAction::Decode(_) => TransportPhase::Decoding,
        TransportAction::Sleep(_) => TransportPhase::Sleeping,
        TransportAction::Halt => TransportPhase::Stopped,
    }
}

/// The state after the events of `events`, first to last.
pub open spec fn after(transport: Transport, events: Seq<TransportEventView>) -> Transport
    decreases events.len(),
{
    if events.len() == 0 {
        transport
    } else {
        stepped(after(transport, events.drop_last()), events.last())
    }
}

/// The answer that the event at `index` gets when `events` come in order.
pub open spec fn answer_at(
    transport: Transport,
    events: Seq<TransportEventView>,
    index: int,
) -> Option<TransportActionView> {
    answer(after(transport, events.take(index)), events[index])
}

/// Whether the connection is known to be lost in `phase`.
pub open spec fn lost(phase: TransportPhase) -> bool {
    phase == TransportPhase::Reporting || phase == TransportPhase::Stopped
}

/// Whether an answer asks for nothing to be done: it is none, or to leave.
pub open spec fn quiet(answer: Option<TransportActionView>) -> bool {
    answer is None || answer == Some(TransportActionView::Halt)
}

/// The loss of the connection is reported in answer to a failed write, and
/// to nothing else.
pub proof fn lemma_loss_reported_when_write_fails(
    transport: Transport,
    event: TransportEventView,
)
    ensures
        answer(transport, event) == Some(TransportActionView::Emit(SignalView::LostConnection))
            <==> transport.phase == TransportPhase::Writing && event
            == TransportEventView::Written(false),
{
}

/// Messages pass through unchanged, and nothing else is passed on but the
/// loss of the connection. What is written is the message that was polled;
/// what goes to the interface is the message that was decoded; where none
/// was polled or decoded, none is written or passed on.
pub proof fn lemma_messages_pass_unchanged(
    transport: Transport,
    event: TransportEventView,
    message: MessageView,
    signal: SignalView,
)
    ensures
        answer(transport, event) == Some(TransportActionView::Write(message))
            <==> transport.phase == TransportPhase::Polling && event
            == TransportEventView::Polled(Some(message)),
        answer(transport, event) == Some(
            TransportActionView::Emit(SignalView::Message(message)),
        ) <==> transport.phase == TransportPhase::Decoding && event
            == TransportEventView::Decoded(Some(message)),
        answer(transport, event) == Some(TransportActionView::Emit(signal)) ==> signal
            is Message || signal is LostConnection,
{
}

/// Every round pauses: the outgoing queue is polled again only after a pause,
/// and every pause lasts as many milliseconds as the poll rate says.
pub proof fn lemma_every_round_pauses(transport: Transport, event: TransportEventView)
    ensures
        answer(transport, event) == Some(TransportActionView::Poll) <==> transport.phase
            == TransportPhase::Sleeping && event == TransportEventView::Slept,
        answer(transport, event) matches Some(TransportActionView::Sleep(millis)) ==> millis
            == transport.poll_rate,
{
}

/// Once the connection is known to be lost it stays so, whatever comes.
pub proof fn lemma_loss_is_final(
    transport: Transport,
    events: Seq<TransportEventView>,
    from: int,
    to: int,
)
    requires
        0 <= from <= to <= events.len(),
        lost(after(transport, events.take(from)).phase),
    ensures
        lost(after(transport, events.take(to)).phase),
    decreases to - from,
{
    if from < to {
        lemma_loss_is_final(transport, events, from, to - 1);
        assert(events.take(to).drop_last() =~= events.take(to - 1));
    }
}

/// When the connection is known to be lost, nothing is done any more: no
/// event gets an answer but to leave. No write, no read, no signal.
pub proof fn lemma_quiet_after_loss(
    transport: Transport,
    events: Seq<TransportEventView>,
    index: int,
)
    requires
        lost(transport.phase),
        0 <= index < events.len(),
    ensures
        quiet(answer_at(transport, events, index)),
{
    lemma_loss_is_final(transport, events, 0, index);
}

/// The loss of the connection is reported once: every event that comes after
/// the one that was answered with the report gets no answer but to leave.
/// So no second report follows, and no message is passed on after it.
pub proof fn lemma_loss_reported_once(
    transport: Transport,
    events: Seq<TransportEventView>,
    first: int,
    later: int,
)
    requires
        0 <= first < later < events.len(),
        answer_at(transport, events, first) == Some(
            TransportActionView::Emit(SignalView::LostConnection),
        ),
    ensures
        quiet(answer_at(transport, events, later)),
{
    assert(events.take(first + 1).drop_last() =~= events.take(first));
    lemma_loss_is_final(transport, events, first + 1, later);
}

} // verus!
