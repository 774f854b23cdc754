//! What can go wrong between a message value and the radio link.

use vstd::prelude::*;
use crate::message::MessageKind;

verus! {

/// Why an encode, a decode, a send or a receive failed.
#[derive(Debug, Clone, PartialEq, Eq)]
pub enum ProtocolError {
    /// The frame would be longer than the payload budget allows.
    MessageTooLong,
    /// A bounded string holds a character outside ASCII.
    NonAsciiText,
    /// The transceiver reported a failure other than a timeout; the text is
    /// the driver's account of it.
    LinkError(String),
    /// No frame arrived before the overall deadline.
    ReceiveTimedOut,
    /// The frame is tagged as another kind than the one waited for.
    WrongMessageKind { expected: MessageKind, actual: u8 },
    /// The frame is shorter than the fixed layout of the expected kind.
    DecodeError,
    /// The session was told of something it was not waiting for.
    UnexpectedEvent,
}

} // verus!
