//! The logic of a two-party terminal chat: the conversation state that the
//! interface keeps, the key bindings that change it, and the cycle that the
//! network side walks through between the socket and the two queues.
//!
//! Nothing here touches a terminal or a socket. Each decision is a function
//! from the state and what just happened to the next state and what to do
//! next; the program around this library performs that and reports back.

pub mod entry;
pub mod keys;
pub mod message;
pub mod setup;
pub mod signal;
pub mod transport;
pub mod ui;
