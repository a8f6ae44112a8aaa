//! Client side of the RCON remote console protocol: the frame codec and the
//! session rules built on it. All transport is left to the caller, who sends
//! the bytes this library produces and hands back the bytes that arrived.

pub mod error;
pub mod message;
pub mod session;
pub mod text;
pub mod word;
