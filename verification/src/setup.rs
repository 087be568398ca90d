//! How the one connection of a session comes about.
//!
//! A listener binds its address and takes the first peer that connects; it
//! never accepts a second. A connector dials once. Either way there is one
//! attempt: it ends with the session beginning on a live connection, or with
//! no session at all.
//!
//! As with the network cycle, the sockets are someone else's. This module is
//! told how each step went and says what comes next.

use vstd::prelude::*;

verus! {

/// Which end of the connection this side is.
#[derive(Debug, Clone, Copy, PartialEq, Eq, Structural)]
pub enum Role {
    /// Waits for the peer to connect.
    Listener,
    /// Connects to a waiting peer.
    Connector,
}

/// What the setup waits for.
#[derive(Debug, Clone, Copy, PartialEq, Eq, Structural)]
pub enum SetupPhase {
    /// The outcome of binding the address.
    Binding,
    /// A peer to connect.
    Accepting,
    /// The outcome of dialling the peer.
    Dialling,
    /// Nothing: the attempt is over.
    Done,
}

/// How a step of the setup went.
#[derive(Debug, Clone, Copy, PartialEq, Eq, Structural)]
pub enum SetupEvent {
    /// The address was bound, or could not be.
    Bound(bool),
    /// A peer connected and was accepted, or accepting failed.
    Accepted(bool),
    /// The peer was reached, or could not be.
    Dialled(bool),
}

/// What the setup is to do next.
#[derive(Debug, Clone, Copy, PartialEq, Eq, Structural)]
pub enum SetupAction {
    /// Announce the attempt and bind the address.
    Bind,
    /// Wait for one peer to connect and accept it.
    Accept,
    /// Announce the attempt and dial the peer.
    Dial,
    /// Announce the connection and begin the session on it.
    Begin,
    /// Fail the whole process.
    Abort,
    /// Say that the peer could not be reached and end with no session.
    GiveUp,
}

/// The state of the setup.
#[derive(Debug, Clone, Copy, PartialEq, Eq, Structural)]
pub struct Setup {
    pub phase: SetupPhase,
}

/// The first action of a side in `role`.
pub open spec fn first_action(role: Role) -> SetupAction {
    match role {
        Role::Listener => SetupAction::Bind,
        Role::Connector => SetupAction::Dial,
    }
}

/// The phase in which the setup waits for the outcome of `action`.
pub open spec fn awaiting(action: SetupAction) -> SetupPhase {
    match action {
        SetupAction::Bind => SetupPhase::Binding,
        SetupAction::Accept => SetupPhase::Accepting,
        SetupAction::Dial => SetupPhase::Dialling,
        SetupAction::Begin => SetupPhase::Done,
        SetupAction::Abort => SetupPhase::Done,
        SetupAction::GiveUp => SetupPhase::Done,
    }
}

/// The answer to `event` in `phase`. A listener that cannot bind or accept
/// fails the process; a connector that cannot reach its peer gives up. An
/// event that is no outcome of what the setup waits for gets no answer.
pub open spec fn answer(phase: SetupPhase, event: SetupEvent) -> Option<SetupAction> {
    match (phase, event) {
        (SetupPhase::Binding, SetupEvent::Bound(true)) => Some(SetupAction::Accept),
        (SetupPhase::Binding, SetupEvent::Bound(false)) => Some(SetupAction::Abort),
        (SetupPhase::Accepting, SetupEvent::Accepted(true)) => Some(SetupAction::Begin),
        (SetupPhase::Accepting, SetupEvent::Accepted(false)) => Some(SetupAction::Abort),
        (SetupPhase::Dialling, SetupEvent::Dialled(true)) => Some(SetupAction::Begin),
        (SetupPhase::Dialling, SetupEvent::Dialled(false)) => Some(SetupAction::GiveUp),
        _ => None,
    }
}

/// The state after `event`: unchanged by an event that gets no answer, else
/// waiting for the outcome of the answer.
pub open spec fn stepped(setup: Setup, event: SetupEvent) -> Setup {
    match answer(setup.phase, event) {
        Some(action) => Setup { phase: awaiting(action) },
        None => setup,
    }
}

impl Setup {
    /// The setup of a side in `role`, and its first action: a listener binds,
    /// a connector dials.
    pub fn start(role: Role) -> (begun: (Setup, SetupAction))
        ensures
            begun.1 == first_action(role),
            begun.0 == (Setup { phase: awaiting(first_action(role)) }),
    {
        match role {
            Role::Listener => (Setup { phase: SetupPhase::Binding }, SetupAction::Bind),
            Role::Connector => (Setup { phase: SetupPhase::Dialling }, SetupAction::Dial),
        }
    }

    /// Takes the outcome of the last action and gives the next action. An
    /// event that is no outcome of what the setup waits for changes nothing
    /// and gets no answer.
    pub fn step(&mut self, event: SetupEvent) -> (action: Option<SetupAction>)
        ensures
            action == answer(old(self).phase, event),
            *final(self) == stepped(*old(self), event),
    {
        let action = match (self.phase, event) {
            (SetupPhase::Binding, SetupEvent::Bound(true)) => SetupAction::Accept,
            (SetupPhase::Binding, SetupEvent::Bound(false)) => SetupAction::Abort,
            (SetupPhase::Accepting, SetupEvent::Accepted(true)) => SetupAction::Begin,
            (SetupPhase::Accepting, SetupEvent::Accepted(false)) => SetupAction::Abort,
            (SetupPhase::Dialling, SetupEvent::Dialled(true)) => SetupAction::Begin,
            (SetupPhase::Dialling, SetupEvent::Dialled(false)) => SetupAction::GiveUp,
            _ => {
                return None;
            },
        };
        self.phase = match action {
            SetupAction::Accept => SetupPhase::Accepting,
            _ => SetupPhase::Done,
        };
        Some(action)
    }
}

/// The state after the events of `events`, first to last.
pub open spec fn after(setup: Setup, events: Seq<SetupEvent>) -> Setup
    decreases events.len(),
{
    if events.len() == 0 {
        setup
    } else {
        stepped(after(setup, events.drop_last()), events.last())
    }
}

/// The answer that the event at `index` gets when `events` come in order.
pub open spec fn answer_at(setup: Setup, events: Seq<SetupEvent>, index: int) -> Option<
    SetupAction,
> {
    answer(after(setup, events.take(index)).phase, events[index])
}

/// Whether the address is bound in `phase`, so that binding is behind.
pub open spec fn past_binding(phase: SetupPhase) -> bool {
    phase == SetupPhase::Accepting || phase == SetupPhase::Done
}

/// There is one attempt: no answer ever asks to bind or to dial again.
pub proof fn lemma_no_second_attempt(phase: SetupPhase, event: SetupEvent)
    ensures
        answer(phase, event) != Some(SetupAction::Bind),
        answer(phase, event) != Some(SetupAction::Dial),
{
}

/// Once the address is bound, the setup never waits for a binding again.
pub proof fn lemma_binding_is_behind(setup: Setup, events: Seq<SetupEvent>, from: int, to: int)
    requires
        0 <= from <= to <= events.len(),
        past_binding(after(setup, events.take(from)).phase),
    ensures
        past_binding(after(setup, events.take(to)).phase),
    decreases to - from,
{
    if from < to {
        lemma_binding_is_behind(setup, events, from, to - 1);
        assert(events.take(to).drop_last() =~= events.take(to - 1));
    }
}

/// A listener accepts once: after the answer that asked to accept, no later
/// answer asks for it again.
pub proof fn lemma_accepts_once(setup: Setup, events: Seq<SetupEvent>, first: int, later: int)
    requires
        0 <= first < later < events.len(),
        answer_at(setup, events, first) == Some(SetupAction::Accept),
    ensures
        answer_at(setup, events, later) != Some(SetupAction::Accept),
{
    assert(events.take(first + 1).drop_last() =~= events.take(first));
    lemma_binding_is_behind(setup, events, first + 1, later);
}

/// Once the attempt is over it stays over, whatever comes.
pub proof fn lemma_done_is_final(setup: Setup, events: Seq<SetupEvent>, from: int, to: int)
    requires
        0 <= from <= to <= events.len(),
        after(setup, events.take(from)).phase == SetupPhase::Done,
    ensures
        after(setup, events.take(to)).phase == SetupPhase::Done,
    decreases to - from,
{
    if from < to {
        lemma_done_is_final(setup, events, from, to - 1);
        assert(events.take(to).drop_last() =~= events.take(to - 1));
    }
}

/// The attempt has one outcome: after the answer that began the session,
/// failed the process or gave up, no later event gets any answer.
pub proof fn lemma_one_outcome(setup: Setup, events: Seq<SetupEvent>, first: int, later: int)
    requires
        0 <= first < later < events.len(),
        answer_at(setup, events, first) matches Some(action) && awaiting(action)
            == SetupPhase::Done,
    ensures
        answer_at(setup, events, later) is None,
{
    assert(events.take(first + 1).drop_last() =~= events.take(first));
    lemma_done_is_final(setup, events, first + 1, later);
}

} // verus!
