//! A verified core for real-time tabletop game sessions: who is connected to
//! which session, who may change the shared state, whose turn it is, and what
//! a dice expression comes to.
//!
//! The library performs no I/O. Persistence, sockets and locks belong to the
//! program around it. The message router is a step function: it names the
//! persistence query it needs next and is resumed with the answer. A
//! broadcast puts encoded frames into the outbound queues of a session's
//! members, from where the program writes them to the sockets.
//!
//! - [`dice`]: dice notation and rolling.
//! - [`turn`]: the turn order and the round counter.
//! - [`registry`]: sessions, their members and their outbound queues.
//! - [`router`]: authorization and handling of each message.
//! - [`models`], [`messages`]: the records and the wire messages.
//! - [`identity`], [`generation`]: who a request comes from, and generated text.
//! - [`clock`], [`ids`], [`json`], [`text`], [`outbox`]: what the rest stands on.

pub mod clock;
pub mod dice;
pub mod generation;
pub mod identity;
pub mod ids;
pub mod json;
pub mod messages;
pub mod models;
pub mod outbox;
pub mod registry;
pub mod router;
pub mod text;
pub mod turn;
