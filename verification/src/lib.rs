//! A verified interpreter for data-driven conversational contract sessions.
//!
//! The engine fetches a graph of contexts and actions from a contract-call
//! service, then drives a session: it switches between contexts, replays
//! instant actions, dispatches user-chosen actions, renders templated text,
//! and keeps a local snapshot of the remote account state in sync with every
//! simulated call.  The call service, the front end and the utility-routine
//! registry are collaborators reached through traits.

pub mod state;
pub mod strutil;
pub mod value;
pub mod codec;
pub mod jsonext;
pub mod routines;
pub mod action;
pub mod engine;
