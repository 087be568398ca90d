//! What the interface is told: a message from the peer, a terminal event, or
//! the loss of the connection.

use vstd::prelude::*;
use crate::keys::KeyInput;
use crate::message::{Message, MessageView};

verus! {

/// One thing for the interface to react to.
#[derive(Debug)]
pub enum Signal {
    /// The peer sent a message.
    Message(Message),
    /// The terminal reported an event. Every event is passed on, whatever it
    /// is; what it asks for is for the interface to decide.
    KeyPress(KeyInput),
    /// The peer is gone.
    LostConnection,
}

/// A signal with its message as character sequences.
pub enum SignalView {
    Message(MessageView),
    KeyPress(KeyInput),
    LostConnection,
}

impl View for Signal {
    type V = SignalView;

    open spec fn view(&self) -> SignalView {
        match *self {
            Signal::Message(message) => SignalView::Message(message@),
            Signal::KeyPress(key) => SignalView::KeyPress(key),
            Signal::LostConnection => SignalView::LostConnection,
        }
    }
}

} // verus!
