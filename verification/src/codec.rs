//! The wire codec: a message as a frame of bytes, and back.
//!
//! A frame is laid out as follows.
//!
//! | bytes | content |
//! |---|---|
//! | 0 | length of the whole frame, this byte counted |
//! | 1 to 4 | routing header: to, from, id, flags |
//! | 5 | kind tag |
//! | 6 to 8 | timestamp: hour, minute, second |
//! | 9 and on | the fields of the kind, in the order of their declaration |
//!
//! Numbers are little-endian and of fixed width, a flag is one byte, and a
//! string is its bytes followed by a NUL. Kind by kind, the fields from byte
//! 9 on are these.
//!
//! | kind | tag | fields |
//! |---|---|---|
//! | telemetry | 0 | location at 9, signal strength at 28, free memory at 30, status from 32 |
//! | telemetry acknowledgement | 1 | ack at 9, command waiting at 10 |
//! | command ready | 2 | ready at 9 |
//! | command message | 3 | sequence complete at 9, command from 10 |
//! | command acknowledgement | 4 | ack at 9 |
//!
//! A location is nineteen bytes: latitude, longitude, altitude and speed as
//! four bytes each, the satellite count as one, and the heading as two.

use vstd::prelude::*;
use vstd::slice::slice_subrange;
use vstd::utf8::*;
use crate::error::ProtocolError;
use crate::message::{
    payload_budget, text_budget, MessageKind, MessageView, RoverLocData, RoverMessage,
    RoverTimestamp,
};

verus! {

/// Routing header, first byte: the address the frame goes to (broadcast).
pub const ROUTING_TO: u8 = 0xff;

/// Routing header, second byte: the address the frame comes from (broadcast).
pub const ROUTING_FROM: u8 = 0xff;

/// Routing header, third byte: the frame's id.
pub const ROUTING_ID: u8 = 0x00;

/// Routing header, fourth byte: the frame's flags.
pub const ROUTING_FLAGS: u8 = 0x00;

/// Where the kind tag stands in a frame.
pub const TAG_OFFSET: usize = 5;

/// Where the timestamp, the first field of every kind, stands in a frame.
pub const PAYLOAD_OFFSET: usize = 6;

/// The longest frame whose length the length byte can state.
pub const MAX_FRAME_LEN: usize = 255;

/// The two bytes of a 16-bit number, low byte first.
pub open spec fn u16_bytes(x: u16) -> Seq<u8> {
    seq![(x % 256) as u8, (x / 256) as u8]
}

/// The 16-bit number whose two bytes, low byte first, start `bytes`.
pub open spec fn u16_from(bytes: Seq<u8>) -> u16 {
    (bytes[0] + 256 * bytes[1]) as u16
}

/// The two's complement pattern of a signed 16-bit number.
pub open spec fn i16_pattern(x: i16) -> u16 {
    if x < 0 {
        (x + 0x1_0000) as u16
    } else {
        x as u16
    }
}

/// The signed 16-bit number that a two's complement pattern stands for.
pub open spec fn i16_from_pattern(pattern: u16) -> i16 {
    if pattern >= 0x8000 {
        (pattern - 0x1_0000) as i16
    } else {
        pattern as i16
    }
}

/// The two bytes of a signed 16-bit number, low byte first.
pub open spec fn i16_bytes(x: i16) -> Seq<u8> {
    u16_bytes(i16_pattern(x))
}

/// The signed 16-bit number whose two bytes, low byte first, start `bytes`.
pub open spec fn i16_from(bytes: Seq<u8>) -> i16 {
    i16_from_pattern(u16_from(bytes))
}

/// The four bytes of a 32-bit number, low byte first.
pub open spec fn u32_bytes(x: u32) -> Seq<u8> {
    seq![
        (x % 256) as u8,
        ((x / 0x100) % 256) as u8,
        ((x / 0x1_0000) % 256) as u8,
        (x / 0x100_0000) as u8,
    ]
}

/// The 32-bit number whose four bytes, low byte first, start `bytes`.
pub open spec fn u32_from(bytes: Seq<u8>) -> u32 {
    (bytes[0] + 0x100 * bytes[1] + 0x1_0000 * bytes[2] + 0x100_0000 * bytes[3]) as u32
}

/// The byte of a flag: 1 for true, 0 for false.
pub open spec fn bool_byte(b: bool) -> u8 {
    if b {
        1
    } else {
        0
    }
}

/// The flag that a byte stands for: any byte but 0 is true.
pub open spec fn bool_from(byte: u8) -> bool {
    byte > 0
}

/// The three bytes of a timestamp.
pub open spec fn timestamp_bytes(t: RoverTimestamp) -> Seq<u8> {
    seq![t.hour, t.minute, t.second]
}

/// The timestamp whose three bytes start `bytes`.
pub open spec fn timestamp_from(bytes: Seq<u8>) -> RoverTimestamp {
    RoverTimestamp { hour: bytes[0], minute: bytes[1], second: bytes[2] }
}

/// How many bytes a location sample takes.
pub const LOCATION_LEN: usize = 19;

/// The nineteen bytes of a location sample.
pub open spec fn location_bytes(l: RoverLocData) -> Seq<u8> {
    u32_bytes(l.gps_lat) + u32_bytes(l.gps_long) + u32_bytes(l.gps_alt) + u32_bytes(l.gps_speed)
        + seq![l.gps_sats] + u16_bytes(l.mag_hdg)
}

/// The location sample whose nineteen bytes start `bytes`.
pub open spec fn location_from(bytes: Seq<u8>) -> RoverLocData {
    RoverLocData {
        gps_lat: u32_from(bytes.subrange(0, 4)),
        gps_long: u32_from(bytes.subrange(4, 8)),
        gps_alt: u32_from(bytes.subrange(8, 12)),
        gps_speed: u32_from(bytes.subrange(12, 16)),
        gps_sats: bytes[16],
        mag_hdg: u16_from(bytes.subrange(17, 19)),
    }
}

/// The bytes of a string on the wire: its UTF-8 bytes, which for ASCII text
/// are its characters one by one, and a closing NUL.
pub open spec fn text_bytes(s: Seq<char>) -> Seq<u8> {
    encode_utf8(s).push(0)
}

/// True of a string that comes back from the wire as it went: every
/// character is ASCII and none is NUL.
pub open spec fn is_wire_text(s: Seq<char>) -> bool {
    forall|i: int| 0 <= i < s.len() ==> '\u{1}' <= #[trigger] s[i] <= '\u{7f}'
}

/// How many bytes stand before the first NUL of `bytes`; all of them if it
/// holds no NUL.
pub open spec fn text_end(bytes: Seq<u8>) -> nat
    decreases bytes.len(),
{
    if bytes.len() == 0 || bytes[0] == 0 {
        0
    } else {
        1 + text_end(bytes.drop_first())
    }
}

/// The string that starts `bytes`: one character for each byte before the
/// first NUL, or up to the end where there is no NUL.
pub open spec fn text_from(bytes: Seq<u8>) -> Seq<char> {
    Seq::new(text_end(bytes), |i: int| bytes[i] as char)
}

/// `text_end` is the one position up to which no byte is NUL and at which
/// the bytes end or a NUL stands.
pub proof fn lemma_text_end(bytes: Seq<u8>, n: int)
    requires
        0 <= n <= bytes.len(),
        forall|i: int| 0 <= i < n ==> bytes[i] != 0,
        n == bytes.len() || bytes[n] == 0,
    ensures
        text_end(bytes) == n,
    decreases n,
{
    if n > 0 {
        lemma_text_end(bytes.drop_first(), n - 1);
    }
}

/// The bytes of an ASCII string are its characters one by one.
pub proof fn lemma_ascii_text_bytes(s: Seq<char>)
    requires
        is_ascii_chars(s),
    ensures
        text_bytes(s).len() == s.len() + 1,
        forall|i: int| 0 <= i < s.len() ==> #[trigger] text_bytes(s)[i] == s[i] as u8,
        text_bytes(s)[s.len() as int] == 0,
{
    is_ascii_chars_encode_utf8(s);
}

/// A string without NUL or non-ASCII characters is read back from its bytes
/// unchanged, whatever follows them.
pub proof fn lemma_text_roundtrip(s: Seq<char>, tail: Seq<u8>)
    requires
        is_wire_text(s),
    ensures
        text_from(text_bytes(s) + tail) =~= s,
{
    lemma_ascii_text_bytes(s);
    lemma_text_end(text_bytes(s) + tail, s.len() as int);
}

/// Appends a flag to `buf`: 1 for true, 0 for false.
pub fn serialize_bool(b: bool, buf: &mut Vec<u8>)
    ensures
        final(buf)@ == old(buf)@.push(bool_byte(b)),
{
    if b {
        buf.push(1);
    } else {
        buf.push(0);
    }
}

/// The flag that a byte stands for: any byte but 0 is true.
pub fn deserialize_bool(byte: u8) -> (b: bool)
    ensures
        b == bool_from(byte),
{
    byte > 0
}

/// Appends a 16-bit number to `buf`, low byte first.
pub fn serialize_u16(i: u16, buf: &mut Vec<u8>)
    ensures
        final(buf)@ == old(buf)@ + u16_bytes(i),
{
    buf.push((i % 256) as u8);
    buf.push((i / 256) as u8);
}

/// Reads the 16-bit number whose two bytes, low byte first, start `buf`.
pub fn deserialize_u16(buf: &[u8]) -> (i: u16)
    requires
        buf@.len() >= 2,
    ensures
        i == u16_from(buf@),
{
    let low: u16 = buf[0] as u16;
    let high: u16 = buf[1] as u16;
    low + 256 * high
}

/// Appends a signed 16-bit number to `buf` in two's complement, low byte
/// first.
pub fn serialize_i16(i: i16, buf: &mut Vec<u8>)
    ensures
        final(buf)@ == old(buf)@ + i16_bytes(i),
{
    let pattern: u16 = if i < 0 {
        (i as i32 + 0x1_0000) as u16
    } else {
        i as u16
    };
    serialize_u16(pattern, buf);
}

/// Reads the signed 16-bit number whose two bytes, low byte first, start
/// `buf`.
pub fn deserialize_i16(buf: &[u8]) -> (i: i16)
    requires
        buf@.len() >= 2,
    ensures
        i == i16_from(buf@),
{
    let pattern: u16 = deserialize_u16(buf);
    if pattern >= 0x8000 {
        (pattern as i32 - 0x1_0000) as i16
    } else {
        pattern as i16
    }
}

/// Appends a 32-bit number to `buf`, low byte first.
pub fn serialize_u32(i: u32, buf: &mut Vec<u8>)
    ensures
        final(buf)@ == old(buf)@ + u32_bytes(i),
{
    buf.push((i % 256) as u8);
    buf.push(((i / 0x100) % 256) as u8);
    buf.push(((i / 0x1_0000) % 256) as u8);
    buf.push((i / 0x100_0000) as u8);
}

/// Reads the 32-bit number whose four bytes, low byte first, start `buf`.
pub fn deserialize_u32(buf: &[u8]) -> (i: u32)
    requires
        buf@.len() >= 4,
    ensures
        i == u32_from(buf@),
{
    let b0: u32 = buf[0] as u32;
    let b1: u32 = buf[1] as u32;
    let b2: u32 = buf[2] as u32;
    let b3: u32 = buf[3] as u32;
    b0 + 0x100 * b1 + 0x1_0000 * b2 + 0x100_0000 * b3
}

/// Appends the bytes of a string and a closing NUL to `buf`.
pub fn serialize_string(s: &String, buf: &mut Vec<u8>)
    ensures
        final(buf)@ == old(buf)@ + text_bytes(s@),
{
    let bytes = s.as_str().as_bytes();
    buf.extend_from_slice(bytes);
    buf.push(0);
}

/// Appends one character to a string, by `String::push`.
///
/// Nothing is proved of this function. Its contract says what the standard
/// library documents: the string afterwards is the string before with the
/// character at its end.
#[verifier::external_body]
fn push_char(s: &mut String, c: char)
    ensures
        final(s)@ == old(s)@.push(c),
{
    s.push(c);
}

/// Appends to `s` the string that starts `buf`: one character for each byte
/// before the first NUL, or up to the end of `buf` where it holds no NUL.
pub fn deserialize_string(s: &mut String, buf: &[u8])
    ensures
        final(s)@ == old(s)@ + text_from(buf@),
{
    let mut i: usize = 0;
    while i < buf.len() && buf[i] != 0
        invariant
            i <= buf@.len(),
            forall|j: int| 0 <= j < i ==> buf@[j] != 0,
            s@.len() == old(s)@.len() + i,
            forall|j: int| 0 <= j < old(s)@.len() ==> s@[j] == old(s)@[j],
            forall|j: int| 0 <= j < i ==> s@[old(s)@.len() + j] == buf@[j] as char,
        decreases buf@.len() - i,
    {
        push_char(s, buf[i] as char);
        i = i + 1;
    }
    proof {
        lemma_text_end(buf@, i as int);
    }
}

impl RoverTimestamp {
    /// Appends the three bytes of the timestamp to `buf`.
    pub fn serialize(&self, buf: &mut Vec<u8>)
        ensures
            final(buf)@ == old(buf)@ + timestamp_bytes(*self),
    {
        buf.push(self.hour);
        buf.push(self.minute);
        buf.push(self.second);
    }

    /// Sets the timestamp to the one whose three bytes start `buf`.
    pub fn deserialize(&mut self, buf: &[u8])
        requires
            buf@.len() >= 3,
        ensures
            *final(self) == timestamp_from(buf@),
    {
        self.hour = buf[0];
        self.minute = buf[1];
        self.second = buf[2];
    }
}

impl RoverLocData {
    /// Appends the nineteen bytes of the sample to `buf`.
    pub fn serialize(&self, buf: &mut Vec<u8>)
        ensures
            final(buf)@ == old(buf)@ + location_bytes(*self),
    {
        serialize_u32(self.gps_lat, buf);
        serialize_u32(self.gps_long, buf);
        serialize_u32(self.gps_alt, buf);
        serialize_u32(self.gps_speed, buf);
        buf.push(self.gps_sats);
        serialize_u16(self.mag_hdg, buf);
    }

    /// Sets the sample to the one whose nineteen bytes start `buf`.
    pub fn deserialize(&mut self, buf: &[u8])
        requires
            buf@.len() >= LOCATION_LEN,
        ensures
            *final(self) == location_from(buf@),
    {
        self.gps_lat = deserialize_u32(slice_subrange(buf, 0, 4));
        self.gps_long = deserialize_u32(slice_subrange(buf, 4, 8));
        self.gps_alt = deserialize_u32(slice_subrange(buf, 8, 12));
        self.gps_speed = deserialize_u32(slice_subrange(buf, 12, 16));
        self.gps_sats = buf[16];
        self.mag_hdg = deserialize_u16(slice_subrange(buf, 17, 19));
    }
}

/// The routing header that every frame carries; its values are fixed.
pub open spec fn routing_header() -> Seq<u8> {
    seq![ROUTING_TO, ROUTING_FROM, ROUTING_ID, ROUTING_FLAGS]
}

/// The bytes that follow the kind tag: the timestamp and the fields of the
/// kind, in the order of their declaration.
pub open spec fn payload(m: MessageView) -> Seq<u8> {
    match m {
        MessageView::TelemetryMessage {
            timestamp,
            location,
            signal_strength,
            free_memory,
            status,
        } => timestamp_bytes(timestamp) + location_bytes(location) + i16_bytes(signal_strength)
            + u16_bytes(free_memory) + text_bytes(status),
        MessageView::TelemetryAck { timestamp, ack, command_waiting } => timestamp_bytes(timestamp)
            + seq![bool_byte(ack), bool_byte(command_waiting)],
        MessageView::CommandReady { timestamp, ready } => timestamp_bytes(timestamp)
            + seq![bool_byte(ready)],
        MessageView::CommandMessage { timestamp, sequence_complete, command } => timestamp_bytes(
            timestamp,
        ) + seq![bool_byte(sequence_complete)] + text_bytes(command),
        MessageView::CommandAck { timestamp, ack } => timestamp_bytes(timestamp)
            + seq![bool_byte(ack)],
    }
}

/// The length of the frame of a message: length byte, routing header and
/// kind tag, then the payload.
pub open spec fn frame_len(m: MessageView) -> nat {
    PAYLOAD_OFFSET as nat + payload(m).len()
}

/// The frame of a message. The length byte states the true length for a
/// frame of at most `MAX_FRAME_LEN` bytes.
pub open spec fn frame(m: MessageView) -> Seq<u8> {
    seq![frame_len(m) as u8] + routing_header() + seq![m.kind().spec_tag()] + payload(m)
}

/// The length of a frame up to the end of the fixed-width fields of a kind:
/// a frame of that kind cannot be shorter, and the string of a kind that
/// has one starts there.
pub open spec fn spec_fixed_len(kind: MessageKind) -> usize {
    match kind {
        MessageKind::Telemetry => 32,
        MessageKind::TelemetryAck => 11,
        MessageKind::CommandReady => 10,
        MessageKind::CommandMessage => 10,
        MessageKind::CommandAck => 10,
    }
}

/// The length of a frame up to the end of the fixed-width fields of a kind:
/// a frame of that kind cannot be shorter, and the string of a kind that
/// has one starts there.
#[verifier::when_used_as_spec(spec_fixed_len)]
pub fn fixed_len(kind: MessageKind) -> (len: usize)
    ensures
        len == spec_fixed_len(kind),
{
    match kind {
        MessageKind::Telemetry => 32,
        MessageKind::TelemetryAck => 11,
        _ => 10,
    }
}

/// The message of the given kind that a frame holds, each field read at its
/// place. A string runs to the first NUL, or to the end of the frame.
pub open spec fn decoded(bytes: Seq<u8>, kind: MessageKind) -> MessageView {
    let timestamp = timestamp_from(bytes.subrange(6, 9));
    match kind {
        MessageKind::Telemetry => MessageView::TelemetryMessage {
            timestamp,
            location: location_from(bytes.subrange(9, 28)),
            signal_strength: i16_from(bytes.subrange(28, 30)),
            free_memory: u16_from(bytes.subrange(30, 32)),
            status: text_from(bytes.subrange(32, bytes.len() as int)),
        },
        MessageKind::TelemetryAck => MessageView::TelemetryAck {
            timestamp,
            ack: bool_from(bytes[9]),
            command_waiting: bool_from(bytes[10]),
        },
        MessageKind::CommandReady => MessageView::CommandReady {
            timestamp,
            ready: bool_from(bytes[9]),
        },
        MessageKind::CommandMessage => MessageView::CommandMessage {
            timestamp,
            sequence_complete: bool_from(bytes[9]),
            command: text_from(bytes.subrange(10, bytes.len() as int)),
        },
        MessageKind::CommandAck => MessageView::CommandAck { timestamp, ack: bool_from(bytes[9]) },
    }
}

/// What decoding `bytes` as a message of kind `expected` gives.
///
/// Bytes too few to hold a kind tag are a decode error. A tag other than
/// that of `expected` is a wrong-kind error that names both. Bytes too few
/// for the fixed-width fields of the kind are a decode error. Anything else
/// decodes, and the length byte and routing header are not looked at.
pub open spec fn spec_decode(bytes: Seq<u8>, expected: MessageKind) -> Result<
    MessageView,
    ProtocolError,
> {
    if bytes.len() <= TAG_OFFSET {
        Err(ProtocolError::DecodeError)
    } else if bytes[TAG_OFFSET as int] != expected.spec_tag() {
        Err(ProtocolError::WrongMessageKind { expected, actual: bytes[TAG_OFFSET as int] })
    } else if bytes.len() < fixed_len(expected) {
        Err(ProtocolError::DecodeError)
    } else {
        Ok(decoded(bytes, expected))
    }
}

/// The length of a frame: the fixed-width fields of its kind, and for a
/// kind with a string the bytes of the string and its NUL.
pub proof fn lemma_frame_len(m: MessageView)
    ensures
        frame(m).len() == frame_len(m),
        frame_len(m) == if m is TelemetryMessage || m is CommandMessage {
            fixed_len(m.kind()) + encode_utf8(m.text()).len() + 1
        } else {
            fixed_len(m.kind()) as int
        },
{
}

impl RoverMessage {
    /// Whether the bounded string of the message, if it has one, is ASCII.
    pub fn has_ascii_text(&self) -> (b: bool)
        ensures
            b == is_ascii_chars(self@.text()),
    {
        match self {
            RoverMessage::TelemetryMessage { status, .. } => status.as_str().is_ascii(),
            RoverMessage::CommandMessage { command, .. } => command.as_str().is_ascii(),
            _ => true,
        }
    }

    /// Whether the frame of the message is at most `budget` bytes long.
    pub fn fits(&self, budget: usize) -> (b: bool)
        ensures
            b == (frame_len(self@) <= budget),
    {
        proof {
            lemma_frame_len(self@);
        }
        let fixed: usize = fixed_len(self.kind());
        match self {
            RoverMessage::TelemetryMessage { status, .. } => {
                budget > fixed && status.as_str().as_bytes().len() <= budget - fixed - 1
            },
            RoverMessage::CommandMessage { command, .. } => {
                budget > fixed && command.as_str().as_bytes().len() <= budget - fixed - 1
            },
            _ => budget >= fixed,
        }
    }

    /// Appends the payload of the message to `buf`: its timestamp and the
    /// fields of its kind, in the order of their declaration.
    pub fn serialize(&self, buf: &mut Vec<u8>)
        ensures
            final(buf)@ == old(buf)@ + payload(self@),
    {
        match self {
            RoverMessage::TelemetryMessage {
                timestamp,
                location,
                signal_strength,
                free_memory,
                status,
            } => {
                timestamp.serialize(buf);
                location.serialize(buf);
                serialize_i16(*signal_strength, buf);
                serialize_u16(*free_memory, buf);
                serialize_string(status, buf);
            },
            RoverMessage::TelemetryAck { timestamp, ack, command_waiting } => {
                timestamp.serialize(buf);
                serialize_bool(*ack, buf);
                serialize_bool(*command_waiting, buf);
            },
            RoverMessage::CommandReady { timestamp, ready } => {
                timestamp.serialize(buf);
                serialize_bool(*ready, buf);
            },
            RoverMessage::CommandMessage { timestamp, sequence_complete, command } => {
                timestamp.serialize(buf);
                serialize_bool(*sequence_complete, buf);
                serialize_string(command, buf);
            },
            RoverMessage::CommandAck { timestamp, ack } => {
                timestamp.serialize(buf);
                serialize_bool(*ack, buf);
            },
        }
        assert(buf@ =~= old(buf)@ + payload(self@));
    }

    /// The frame of the message.
    ///
    /// Fails with `NonAsciiText` where a string holds a character outside
    /// ASCII, and otherwise with `MessageTooLong` where the frame would be
    /// longer than the length byte can state.
    pub fn encode(&self) -> (r: Result<Vec<u8>, ProtocolError>)
        ensures
            match r {
                Ok(bytes) => is_ascii_chars(self@.text()) && frame_len(self@) <= MAX_FRAME_LEN
                    && bytes@ == frame(self@),
                Err(e) => if !is_ascii_chars(self@.text()) {
                    e == ProtocolError::NonAsciiText
                } else {
                    frame_len(self@) > MAX_FRAME_LEN && e == ProtocolError::MessageTooLong
                },
            },
    {
        if !self.has_ascii_text() {
            return Err(ProtocolError::NonAsciiText);
        }
        if !self.fits(MAX_FRAME_LEN) {
            return Err(ProtocolError::MessageTooLong);
        }
        // The length byte goes in last, once the length is known.
        let mut buf: Vec<u8> = Vec::new();
        buf.push(ROUTING_TO);
        buf.push(ROUTING_FROM);
        buf.push(ROUTING_ID);
        buf.push(ROUTING_FLAGS);
        buf.push(self.get_message_id());
        self.serialize(&mut buf);
        let length: usize = buf.len() + 1;
        buf.insert(0, length as u8);
        assert(buf@ =~= frame(self@));
        Ok(buf)
    }

    /// Decodes `bytes` as a message of kind `expected`.
    ///
    /// The caller commits to a kind before decoding: a frame does not say
    /// more of itself than its tag.
    pub fn decode(bytes: &[u8], expected: MessageKind) -> (r: Result<RoverMessage, ProtocolError>)
        ensures
            match r {
                Ok(m) => spec_decode(bytes@, expected) == Ok::<MessageView, ProtocolError>(m@),
                Err(e) => spec_decode(bytes@, expected) == Err::<MessageView, ProtocolError>(e),
            },
            r matches Ok(m) ==> m@.kind() == expected,
    {
        let n: usize = bytes.len();
        if n <= TAG_OFFSET {
            return Err(ProtocolError::DecodeError);
        }
        let tag: u8 = bytes[TAG_OFFSET];
        if tag != expected.tag() {
            return Err(ProtocolError::WrongMessageKind { expected, actual: tag });
        }
        if n < fixed_len(expected) {
            return Err(ProtocolError::DecodeError);
        }
        let mut timestamp = RoverTimestamp { hour: 0, minute: 0, second: 0 };
        timestamp.deserialize(slice_subrange(bytes, 6, 9));
        let message = match expected {
            MessageKind::Telemetry => {
                let mut location = RoverLocData::default();
                location.deserialize(slice_subrange(bytes, 9, 28));
                let signal_strength: i16 = deserialize_i16(slice_subrange(bytes, 28, 30));
                let free_memory: u16 = deserialize_u16(slice_subrange(bytes, 30, 32));
                let mut status = String::new();
                deserialize_string(&mut status, slice_subrange(bytes, 32, n));
                RoverMessage::TelemetryMessage {
                    timestamp,
                    location,
                    signal_strength,
                    free_memory,
                    status,
                }
            },
            MessageKind::TelemetryAck => RoverMessage::TelemetryAck {
                timestamp,
                ack: deserialize_bool(bytes[9]),
                command_waiting: deserialize_bool(bytes[10]),
            },
            MessageKind::CommandReady => RoverMessage::CommandReady {
                timestamp,
                ready: deserialize_bool(bytes[9]),
            },
            MessageKind::CommandMessage => {
                let sequence_complete: bool = deserialize_bool(bytes[9]);
                let mut command = String::new();
                deserialize_string(&mut command, slice_subrange(bytes, 10, n));
                RoverMessage::CommandMessage { timestamp, sequence_complete, command }
            },
            MessageKind::CommandAck => RoverMessage::CommandAck {
                timestamp,
                ack: deserialize_bool(bytes[9]),
            },
        };
        Ok(message)
    }

    /// Decodes `buf` into this message, whose kind is the kind expected.
    /// Where decoding fails the message is left as it was.
    pub fn deserialize(&mut self, buf: &[u8]) -> (r: Result<(), ProtocolError>)
        ensures
            match r {
                Ok(_) => spec_decode(buf@, old(self)@.kind()) == Ok::<MessageView, ProtocolError>(
                    final(self)@,
                ),
                Err(e) => spec_decode(buf@, old(self)@.kind()) == Err::<MessageView, ProtocolError>(
                    e,
                ) && *final(self) == *old(self),
            },
            final(self)@.kind() == old(self)@.kind(),
    {
        match RoverMessage::decode(buf, self.kind()) {
            Ok(message) => {
                *self = message;
                Ok(())
            },
            Err(e) => Err(e),
        }
    }
}

/// A 16-bit number is read back from its two bytes.
pub proof fn lemma_u16_roundtrip(x: u16)
    ensures
        u16_from(u16_bytes(x)) == x,
{
}

/// A signed 16-bit number is read back from its two bytes.
pub proof fn lemma_i16_roundtrip(x: i16)
    ensures
        i16_from(i16_bytes(x)) == x,
{
    lemma_u16_roundtrip(i16_pattern(x));
}

/// A 32-bit number is read back from its four bytes.
pub proof fn lemma_u32_roundtrip(x: u32)
    ensures
        u32_from(u32_bytes(x)) == x,
{
}

/// A location sample is read back from its nineteen bytes.
pub proof fn lemma_location_roundtrip(l: RoverLocData)
    ensures
        location_bytes(l).len() == LOCATION_LEN,
        location_from(location_bytes(l)) == l,
{
    lemma_u32_roundtrip(l.gps_lat);
    lemma_u32_roundtrip(l.gps_long);
    lemma_u32_roundtrip(l.gps_alt);
    lemma_u32_roundtrip(l.gps_speed);
    lemma_u16_roundtrip(l.mag_hdg);
}

/// A telemetry message is read back from its frame.
proof fn lemma_telemetry_roundtrip(m: MessageView)
    requires
        m is TelemetryMessage,
        is_wire_text(m.text()),
    ensures
        spec_decode(frame(m), m.kind()) == Ok::<MessageView, ProtocolError>(m),
{
    let f = frame(m);
    lemma_frame_len(m);
    assert(f[TAG_OFFSET as int] == m.kind().spec_tag());
    match m {
        MessageView::TelemetryMessage {
            timestamp,
            location,
            signal_strength,
            free_memory,
            status,
        } => {
            lemma_location_roundtrip(location);
            lemma_i16_roundtrip(signal_strength);
            lemma_u16_roundtrip(free_memory);
            lemma_text_roundtrip(status, Seq::empty());
            assert(f.subrange(6, 9) =~= timestamp_bytes(timestamp));
            assert(f.subrange(9, 28) =~= location_bytes(location));
            assert(f.subrange(28, 30) =~= i16_bytes(signal_strength));
            assert(f.subrange(30, 32) =~= u16_bytes(free_memory));
            assert(f.subrange(32, f.len() as int) =~= text_bytes(status) + Seq::empty());
        },
        _ => {},
    }
}

/// A command message is read back from its frame.
proof fn lemma_command_roundtrip(m: MessageView)
    requires
        m is CommandMessage,
        is_wire_text(m.text()),
    ensures
        spec_decode(frame(m), m.kind()) == Ok::<MessageView, ProtocolError>(m),
{
    let f = frame(m);
    lemma_frame_len(m);
    assert(f[TAG_OFFSET as int] == m.kind().spec_tag());
    match m {
        MessageView::CommandMessage { timestamp, sequence_complete, command } => {
            lemma_text_roundtrip(command, Seq::empty());
            assert(f.subrange(6, 9) =~= timestamp_bytes(timestamp));
            assert(f[9] == bool_byte(sequence_complete));
            assert(f.subrange(10, f.len() as int) =~= text_bytes(command) + Seq::empty());
        },
        _ => {},
    }
}

/// A message without a string is read back from its frame.
proof fn lemma_flags_roundtrip(m: MessageView)
    requires
        m is TelemetryAck || m is CommandReady || m is CommandAck,
    ensures
        spec_decode(frame(m), m.kind()) == Ok::<MessageView, ProtocolError>(m),
{
    let f = frame(m);
    lemma_frame_len(m);
    assert(f[TAG_OFFSET as int] == m.kind().spec_tag());
    assert(f.subrange(6, 9) =~= timestamp_bytes(m.timestamp()));
    match m {
        MessageView::TelemetryAck { ack, command_waiting, .. } => {
            assert(f[9] == bool_byte(ack));
            assert(f[10] == bool_byte(command_waiting));
        },
        MessageView::CommandReady { ready, .. } => {
            assert(f[9] == bool_byte(ready));
        },
        MessageView::CommandAck { ack, .. } => {
            assert(f[9] == bool_byte(ack));
        },
        _ => {},
    }
}

/// Decoding the frame of a message as its own kind gives the message back.
///
/// This holds of every message whose string comes back from the wire as it
/// went: ASCII, and no NUL in it. A NUL inside a string would end it early.
pub proof fn lemma_decode_encode(m: MessageView)
    requires
        is_wire_text(m.text()),
    ensures
        spec_decode(frame(m), m.kind()) == Ok::<MessageView, ProtocolError>(m),
{
    match m {
        MessageView::TelemetryMessage { .. } => lemma_telemetry_roundtrip(m),
        MessageView::CommandMessage { .. } => lemma_command_roundtrip(m),
        _ => lemma_flags_roundtrip(m),
    }
}

/// The bound on a string is sharp, and nothing is cut short. A message
/// whose string is ASCII passes the payload budget if and only if the
/// string is no longer than the text budget of its kind. With a string of
/// exactly that length the frame is exactly the budget, and the message is
/// read back from it unchanged if the string holds no NUL; with one byte
/// more the frame is over the budget.
pub proof fn lemma_text_budget_is_sharp(m: MessageView, encryption_enabled: bool)
    requires
        m is TelemetryMessage || m is CommandMessage,
        is_ascii_chars(m.text()),
    ensures
        frame_len(m) <= payload_budget(encryption_enabled) <==> m.text().len() <= text_budget(
            m.kind(),
            encryption_enabled,
        ),
        m.text().len() == text_budget(m.kind(), encryption_enabled) ==> frame_len(m)
            == payload_budget(encryption_enabled) && (is_wire_text(m.text()) ==> spec_decode(
            frame(m),
            m.kind(),
        ) == Ok::<MessageView, ProtocolError>(m)),
        m.text().len() == text_budget(m.kind(), encryption_enabled) + 1 ==> frame_len(m)
            == payload_budget(encryption_enabled) + 1,
{
    lemma_frame_len(m);
    is_ascii_chars_encode_utf8(m.text());
    if is_wire_text(m.text()) {
        lemma_decode_encode(m);
    }
}

} // verus!
