//! A weighted-membership governance engine.
//!
//! A fixed set of voters, each holding an integer weight, jointly approve or
//! reject proposed actions through a threshold/quorum vote. The engine decides,
//! after every vote, whether a proposal is still undecided, has passed, or has
//! failed, and gates execution of the proposal's opaque payload on that
//! outcome. Durable storage, payload dispatch, and the wire layer are the
//! host's concern: the engine owns its state as plain values and consumes the
//! block context (height and time) as an input.

pub mod contract;
pub mod error;
pub mod expiration;
pub mod laws;
pub mod msg;
pub mod query;
pub mod state;
pub mod threshold;
