//! The message catalogue: the five message kinds and their typed fields.

use vstd::prelude::*;
use vstd::utf8::*;
use crate::codec::{fixed_len, frame_len};
use crate::error::ProtocolError;

verus! {

/// Tag of a telemetry message on the wire.
pub const MESSAGE_TELEMETRY: u8 = 0;

/// Tag of a telemetry acknowledgement on the wire.
pub const MESSAGE_TELEMETRY_ACK: u8 = 1;

/// Tag of a command-ready handshake on the wire.
pub const MESSAGE_COMMAND_READY: u8 = 2;

/// Tag of a command message on the wire.
pub const MESSAGE_COMMAND: u8 = 3;

/// Tag of a command acknowledgement on the wire.
pub const MESSAGE_COMMAND_ACK: u8 = 4;

/// The longest frame that may be sent while the link encrypts.
pub const ENCRYPTED_BUDGET: usize = 60;

/// The longest frame that may be sent while the link does not encrypt.
pub const PLAIN_BUDGET: usize = 251;

/// The payload budget: the longest frame that may be sent, length byte and
/// routing header counted, under the given setting of link encryption.
pub open spec fn spec_payload_budget(encryption_enabled: bool) -> usize {
    if encryption_enabled {
        ENCRYPTED_BUDGET
    } else {
        PLAIN_BUDGET
    }
}

/// The payload budget: the longest frame that may be sent, length byte and
/// routing header counted, under the given setting of link encryption.
#[verifier::when_used_as_spec(spec_payload_budget)]
pub fn payload_budget(encryption_enabled: bool) -> (budget: usize)
    ensures
        budget == spec_payload_budget(encryption_enabled),
{
    if encryption_enabled {
        ENCRYPTED_BUDGET
    } else {
        PLAIN_BUDGET
    }
}

/// The longest string that a message of the given kind can carry within the
/// payload budget, in bytes: what the budget leaves after the fixed-width
/// fields and the closing NUL. 0 for a kind without a string.
pub open spec fn spec_text_budget(kind: MessageKind, encryption_enabled: bool) -> usize {
    match kind {
        MessageKind::Telemetry | MessageKind::CommandMessage => (spec_payload_budget(
            encryption_enabled,
        ) - fixed_len(kind) - 1) as usize,
        _ => 0,
    }
}

/// The longest string that a message of the given kind can carry within the
/// payload budget, in bytes: what the budget leaves after the fixed-width
/// fields and the closing NUL. 0 for a kind without a string.
#[verifier::when_used_as_spec(spec_text_budget)]
pub fn text_budget(kind: MessageKind, encryption_enabled: bool) -> (longest: usize)
    ensures
        longest == spec_text_budget(kind, encryption_enabled),
{
    match kind {
        MessageKind::Telemetry | MessageKind::CommandMessage => payload_budget(encryption_enabled)
            - fixed_len(kind) - 1,
        _ => 0,
    }
}

/// Which of the five message variants a frame holds.
#[derive(Debug, Clone, Copy, PartialEq, Eq, Structural)]
pub enum MessageKind {
    Telemetry,
    TelemetryAck,
    CommandReady,
    CommandMessage,
    CommandAck,
}

impl MessageKind {
    /// The tag byte that stands for this kind on the wire.
    pub open spec fn spec_tag(self) -> u8 {
        match self {
            MessageKind::Telemetry => MESSAGE_TELEMETRY,
            MessageKind::TelemetryAck => MESSAGE_TELEMETRY_ACK,
            MessageKind::CommandReady => MESSAGE_COMMAND_READY,
            MessageKind::CommandMessage => MESSAGE_COMMAND,
            MessageKind::CommandAck => MESSAGE_COMMAND_ACK,
        }
    }

    /// The tag byte that stands for this kind on the wire.
    #[verifier::when_used_as_spec(spec_tag)]
    pub fn tag(self) -> (t: u8)
        ensures
            t == self.spec_tag(),
            t <= 4,
    {
        match self {
            MessageKind::Telemetry => MESSAGE_TELEMETRY,
            MessageKind::TelemetryAck => MESSAGE_TELEMETRY_ACK,
            MessageKind::CommandReady => MESSAGE_COMMAND_READY,
            MessageKind::CommandMessage => MESSAGE_COMMAND,
            MessageKind::CommandAck => MESSAGE_COMMAND_ACK,
        }
    }
}

/// Time of day at which a message was made.
#[derive(Debug, Clone, Copy, PartialEq, Eq, Structural)]
pub struct RoverTimestamp {
    pub hour: u8,
    pub minute: u8,
    pub second: u8,
}

/// Where the vehicle is and how it moves.
///
/// Latitude, longitude, altitude and speed are single-precision numbers.
/// Each is held as its IEEE 754 bit pattern, which is what travels on the
/// wire: `f32::to_bits` makes one, `f32::from_bits` reads one.
#[derive(Debug, Clone, Copy, PartialEq, Eq, Structural)]
pub struct RoverLocData {
    pub gps_lat: u32,
    pub gps_long: u32,
    pub gps_alt: u32,
    pub gps_speed: u32,
    pub gps_sats: u8,
    pub mag_hdg: u16,
}

impl Default for RoverLocData {
    /// The sample with every field zero.
    fn default() -> (loc: RoverLocData)
        ensures
            loc == (RoverLocData {
                gps_lat: 0,
                gps_long: 0,
                gps_alt: 0,
                gps_speed: 0,
                gps_sats: 0,
                mag_hdg: 0,
            }),
    {
        RoverLocData { gps_lat: 0, gps_long: 0, gps_alt: 0, gps_speed: 0, gps_sats: 0, mag_hdg: 0 }
    }
}

/// A message between station and vehicle.
///
/// The two strings, `status` and `command`, are bounded by the payload
/// budget and travel as ASCII.
#[derive(Debug, Clone, PartialEq, Eq)]
pub enum RoverMessage {
    /// Sent by the vehicle to tell where it is and how it fares.
    TelemetryMessage {
        timestamp: RoverTimestamp,
        location: RoverLocData,
        signal_strength: i16,
        free_memory: u16,
        status: String,
    },
    /// Sent by the station to acknowledge a telemetry message, and to say
    /// whether a command is waiting.
    TelemetryAck { timestamp: RoverTimestamp, ack: bool, command_waiting: bool },
    /// Sent by the vehicle to say that it is ready for commands.
    CommandReady { timestamp: RoverTimestamp, ready: bool },
    /// Sent by the station: one part of a command sequence.
    CommandMessage { timestamp: RoverTimestamp, sequence_complete: bool, command: String },
    /// Sent by the vehicle to acknowledge a command message.
    CommandAck { timestamp: RoverTimestamp, ack: bool },
}

/// What a message is, with each string as the sequence of its characters.
pub enum MessageView {
    TelemetryMessage {
        timestamp: RoverTimestamp,
        location: RoverLocData,
        signal_strength: i16,
        free_memory: u16,
        status: Seq<char>,
    },
    TelemetryAck { timestamp: RoverTimestamp, ack: bool, command_waiting: bool },
    CommandReady { timestamp: RoverTimestamp, ready: bool },
    CommandMessage { timestamp: RoverTimestamp, sequence_complete: bool, command: Seq<char> },
    CommandAck { timestamp: RoverTimestamp, ack: bool },
}

impl MessageView {
    /// The kind of the message.
    pub open spec fn kind(self) -> MessageKind {
        match self {
            MessageView::TelemetryMessage { .. } => MessageKind::Telemetry,
            MessageView::TelemetryAck { .. } => MessageKind::TelemetryAck,
            MessageView::CommandReady { .. } => MessageKind::CommandReady,
            MessageView::CommandMessage { .. } => MessageKind::CommandMessage,
            MessageView::CommandAck { .. } => MessageKind::CommandAck,
        }
    }

    /// The time at which the message was made.
    pub open spec fn timestamp(self) -> RoverTimestamp {
        match self {
            MessageView::TelemetryMessage { timestamp, .. } => timestamp,
            MessageView::TelemetryAck { timestamp, .. } => timestamp,
            MessageView::CommandReady { timestamp, .. } => timestamp,
            MessageView::CommandMessage { timestamp, .. } => timestamp,
            MessageView::CommandAck { timestamp, .. } => timestamp,
        }
    }

    /// The bounded string of the message; empty for a kind that has none.
    pub open spec fn text(self) -> Seq<char> {
        match self {
            MessageView::TelemetryMessage { status, .. } => status,
            MessageView::CommandMessage { command, .. } => command,
            _ => Seq::empty(),
        }
    }

    /// The message of the given kind in which every number is zero, every
    /// flag false and every string empty.
    pub open spec fn empty(kind: MessageKind, timestamp: RoverTimestamp) -> MessageView {
        match kind {
            MessageKind::Telemetry => MessageView::TelemetryMessage {
                timestamp,
                location: RoverLocData {
                    gps_lat: 0,
                    gps_long: 0,
                    gps_alt: 0,
                    gps_speed: 0,
                    gps_sats: 0,
                    mag_hdg: 0,
                },
                signal_strength: 0,
                free_memory: 0,
                status: Seq::empty(),
            },
            MessageKind::TelemetryAck => MessageView::TelemetryAck {
                timestamp,
                ack: false,
                command_waiting: false,
            },
            MessageKind::CommandReady => MessageView::CommandReady { timestamp, ready: false },
            MessageKind::CommandMessage => MessageView::CommandMessage {
                timestamp,
                sequence_complete: false,
                command: Seq::empty(),
            },
            MessageKind::CommandAck => MessageView::CommandAck { timestamp, ack: false },
        }
    }
}

impl View for RoverMessage {
    type V = MessageView;

    open spec fn view(&self) -> MessageView {
        match self {
            RoverMessage::TelemetryMessage {
                timestamp,
                location,
                signal_strength,
                free_memory,
                status,
            } => MessageView::TelemetryMessage {
                timestamp: *timestamp,
                location: *location,
                signal_strength: *signal_strength,
                free_memory: *free_memory,
                status: status@,
            },
            RoverMessage::TelemetryAck { timestamp, ack, command_waiting } => {
                MessageView::TelemetryAck {
                    timestamp: *timestamp,
                    ack: *ack,
                    command_waiting: *command_waiting,
                }
            },
            RoverMessage::CommandReady { timestamp, ready } => MessageView::CommandReady {
                timestamp: *timestamp,
                ready: *ready,
            },
            RoverMessage::CommandMessage { timestamp, sequence_complete, command } => {
                MessageView::CommandMessage {
                    timestamp: *timestamp,
                    sequence_complete: *sequence_complete,
                    command: command@,
                }
            },
            RoverMessage::CommandAck { timestamp, ack } => MessageView::CommandAck {
                timestamp: *timestamp,
                ack: *ack,
            },
        }
    }
}

impl RoverMessage {
    /// The kind of this message.
    pub fn kind(&self) -> (kind: MessageKind)
        ensures
            kind == self@.kind(),
    {
        match self {
            RoverMessage::TelemetryMessage { .. } => MessageKind::Telemetry,
            RoverMessage::TelemetryAck { .. } => MessageKind::TelemetryAck,
            RoverMessage::CommandReady { .. } => MessageKind::CommandReady,
            RoverMessage::CommandMessage { .. } => MessageKind::CommandMessage,
            RoverMessage::CommandAck { .. } => MessageKind::CommandAck,
        }
    }

    /// The tag byte that stands for this message's kind on the wire.
    pub fn get_message_id(&self) -> (id: u8)
        ensures
            id == self@.kind().spec_tag(),
    {
        match self {
            RoverMessage::TelemetryMessage { .. } => MESSAGE_TELEMETRY,
            RoverMessage::TelemetryAck { .. } => MESSAGE_TELEMETRY_ACK,
            RoverMessage::CommandReady { .. } => MESSAGE_COMMAND_READY,
            RoverMessage::CommandMessage { .. } => MESSAGE_COMMAND,
            RoverMessage::CommandAck { .. } => MESSAGE_COMMAND_ACK,
        }
    }

    /// The name of the kind that a tag byte stands for, for a log line.
    pub fn get_message_type(id: u8) -> (name: &'static str)
        ensures
            name@ == Self::spec_message_type(id),
    {
        if id == MESSAGE_TELEMETRY {
            "MESSAGE_TELEMETRY"
        } else if id == MESSAGE_TELEMETRY_ACK {
            "MESSAGE_TELEMETRY_ACK"
        } else if id == MESSAGE_COMMAND_READY {
            "MESSAGE_COMMAND_READY"
        } else if id == MESSAGE_COMMAND {
            "MESSAGE_COMMAND"
        } else if id == MESSAGE_COMMAND_ACK {
            "MESSAGE_COMMAND_ACK"
        } else {
            "MESSAGE_UNKNOWN"
        }
    }

    /// The name of the kind that a tag byte stands for.
    pub open spec fn spec_message_type(id: u8) -> Seq<char> {
        if id == MESSAGE_TELEMETRY {
            "MESSAGE_TELEMETRY"@
        } else if id == MESSAGE_TELEMETRY_ACK {
            "MESSAGE_TELEMETRY_ACK"@
        } else if id == MESSAGE_COMMAND_READY {
            "MESSAGE_COMMAND_READY"@
        } else if id == MESSAGE_COMMAND {
            "MESSAGE_COMMAND"@
        } else if id == MESSAGE_COMMAND_ACK {
            "MESSAGE_COMMAND_ACK"@
        } else {
            "MESSAGE_UNKNOWN"@
        }
    }

    /// A telemetry message, validated as it is made: fails with
    /// `NonAsciiText` if and only if `status` holds a character outside
    /// ASCII.
    pub fn telemetry(
        timestamp: RoverTimestamp,
        location: RoverLocData,
        signal_strength: i16,
        free_memory: u16,
        status: String,
    ) -> (r: Result<RoverMessage, ProtocolError>)
        ensures
            match r {
                Ok(message) => is_ascii_chars(status@) && message
                    == (RoverMessage::TelemetryMessage {
                    timestamp,
                    location,
                    signal_strength,
                    free_memory,
                    status,
                }),
                Err(e) => !is_ascii_chars(status@) && e == ProtocolError::NonAsciiText,
            },
    {
        if status.as_str().is_ascii() {
            Ok(
                RoverMessage::TelemetryMessage {
                    timestamp,
                    location,
                    signal_strength,
                    free_memory,
                    status,
                },
            )
        } else {
            Err(ProtocolError::NonAsciiText)
        }
    }

    /// A command message, validated as it is made: fails with
    /// `NonAsciiText` if and only if `command` holds a character outside
    /// ASCII.
    pub fn command(timestamp: RoverTimestamp, sequence_complete: bool, command: String) -> (r:
        Result<RoverMessage, ProtocolError>)
        ensures
            match r {
                Ok(message) => is_ascii_chars(command@) && message
                    == (RoverMessage::CommandMessage { timestamp, sequence_complete, command }),
                Err(e) => !is_ascii_chars(command@) && e == ProtocolError::NonAsciiText,
            },
    {
        if command.as_str().is_ascii() {
            Ok(RoverMessage::CommandMessage { timestamp, sequence_complete, command })
        } else {
            Err(ProtocolError::NonAsciiText)
        }
    }

    /// Tests the message against the payload budget before it is sent.
    ///
    /// Fails with `MessageTooLong` if and only if the frame of the message
    /// would be longer than the budget; a frame of exactly the budget
    /// passes.
    pub fn validate_send(&self, encryption_enabled: bool) -> (r: Result<(), ProtocolError>)
        ensures
            r == (if frame_len(self@) > payload_budget(encryption_enabled) {
                Err::<(), ProtocolError>(ProtocolError::MessageTooLong)
            } else {
                Ok::<(), ProtocolError>(())
            }),
    {
        if self.fits(payload_budget(encryption_enabled)) {
            Ok(())
        } else {
            Err(ProtocolError::MessageTooLong)
        }
    }

    /// The empty message of the given kind, stamped with the given time: the
    /// shell that a receive fills.
    pub fn empty_at(kind: MessageKind, timestamp: RoverTimestamp) -> (message: RoverMessage)
        ensures
            message@ == MessageView::empty(kind, timestamp),
    {
        match kind {
            MessageKind::Telemetry => RoverMessage::TelemetryMessage {
                timestamp,
                location: RoverLocData::default(),
                signal_strength: 0,
                free_memory: 0,
                status: String::new(),
            },
            MessageKind::TelemetryAck => RoverMessage::TelemetryAck {
                timestamp,
                ack: false,
                command_waiting: false,
            },
            MessageKind::CommandReady => RoverMessage::CommandReady { timestamp, ready: false },
            MessageKind::CommandMessage => RoverMessage::CommandMessage {
                timestamp,
                sequence_complete: false,
                command: String::new(),
            },
            MessageKind::CommandAck => RoverMessage::CommandAck { timestamp, ack: false },
        }
    }

    /// The empty message of the given kind, stamped with the local time of
    /// day.
    pub fn empty(kind: MessageKind) -> (message: RoverMessage)
        ensures
            message@.timestamp().is_time_of_day(),
            message@ == MessageView::empty(kind, message@.timestamp()),
    {
        RoverMessage::empty_at(kind, RoverTimestamp::default())
    }
}

} // verus!
