//! Event-synchronization core of a terminal chat client.
//!
//! The library reconciles three independent, asynchronous sources — a push
//! stream of incoming messages, user-issued interface commands, and on-demand
//! history fetches — into one consistent conversation model. It guarantees
//! that each conversation's history is fetched at most once, that live
//! messages are never lost or duplicated, that the currently selected
//! conversation is always well defined, and that registered observers see a
//! coherent, ordered sequence of state-change notifications.
//!
//! Wire-level backend access, rendering and the async event loop are outside
//! collaborators: they live in the surrounding application and talk to this
//! library through plain values.

pub mod controller;
pub mod state;
pub mod types;
