//! Message protocol engine of a ground station that talks to a remote
//! vehicle over a half-duplex packet radio.
//!
//! The crate holds the message catalogue, the wire codec and the transport
//! session. The session is a state machine: it never touches the radio
//! itself, it is told what the radio did and answers with what to do next.
//!
//! - [`message`]: the five kinds of message, their fields and their bounds.
//! - [`codec`]: a message as a frame of bytes and back, with the proof that
//!   a frame decodes to the message it was made from.
//! - [`session`]: the steps of a send and of a receive.
//! - [`runs`]: what those steps add up to: who is acknowledged, how often
//!   the link is used, when a silent link times out.
//! - [`clock`]: the time of day that a message is stamped with.
//! - [`tuning`]: the carrier frequency, from the transceiver's registers.
//! - [`error`]: what can go wrong.

pub mod clock;
pub mod codec;
pub mod error;
pub mod message;
pub mod runs;
pub mod session;
pub mod tuning;
