use ground_control::codec::{fixed_len, MAX_FRAME_LEN};
use ground_control::error::ProtocolError;
use ground_control::message::{MessageKind, RoverLocData, RoverMessage, RoverTimestamp};

fn stamp() -> RoverTimestamp {
    RoverTimestamp { hour: 13, minute: 37, second: 59 }
}

fn stop_command() -> RoverMessage {
    RoverMessage::CommandMessage {
        timestamp: stamp(),
        sequence_complete: true,
        command: String::from("STOP"),
    }
}

#[test]
fn stop_command_encodes_to_fifteen_bytes() {
    let frame = stop_command().encode().unwrap();
    assert_eq!(frame.len(), 15);
    assert_eq!(
        frame,
        vec![15, 0xff, 0xff, 0x00, 0x00, 3, 13, 37, 59, 1, b'S', b'T', b'O', b'P', 0]
    );
}

#[test]
fn stop_command_decodes_to_itself() {
    let frame = stop_command().encode().unwrap();
    let back = RoverMessage::decode(&frame, MessageKind::CommandMessage).unwrap();
    match &back {
        RoverMessage::CommandMessage { sequence_complete, command, .. } => {
            assert!(*sequence_complete);
            assert_eq!(command, "STOP");
        }
        other => panic!("decoded as {:?}", other),
    }
    assert_eq!(back, stop_command());
}

#[test]
fn telemetry_frame_is_laid_out_byte_for_byte() {
    let message = RoverMessage::TelemetryMessage {
        timestamp: RoverTimestamp { hour: 1, minute: 2, second: 3 },
        location: RoverLocData {
            gps_lat: 1.0f32.to_bits(),
            gps_long: (-2.5f32).to_bits(),
            gps_alt: 0x0403_0201,
            gps_speed: 0,
            gps_sats: 7,
            mag_hdg: 0x1234,
        },
        signal_strength: -2,
        free_memory: 0xabcd,
        status: String::from("OK"),
    };
    let frame = message.encode().unwrap();
    let expected: Vec<u8> = vec![
        35, 0xff, 0xff, 0x00, 0x00, 0, // length, routing header, tag
        1, 2, 3, // timestamp
        0x00, 0x00, 0x80, 0x3f, // 1.0
        0x00, 0x00, 0x20, 0xc0, // -2.5
        0x01, 0x02, 0x03, 0x04, // altitude pattern
        0x00, 0x00, 0x00, 0x00, // speed
        7, // satellites
        0x34, 0x12, // heading
        0xfe, 0xff, // signal strength -2
        0xcd, 0xab, // free memory
        b'O', b'K', 0,
    ];
    assert_eq!(frame, expected);
    assert_eq!(RoverMessage::decode(&frame, MessageKind::Telemetry), Ok(message));
}

#[test]
fn frame_of_another_kind_is_rejected_with_both_kinds_named() {
    let frame = stop_command().encode().unwrap();
    assert_eq!(
        RoverMessage::decode(&frame, MessageKind::CommandAck),
        Err(ProtocolError::WrongMessageKind { expected: MessageKind::CommandAck, actual: 3 })
    );
}

fn sample_location() -> RoverLocData {
    RoverLocData {
        gps_lat: 47.6205f32.to_bits(),
        gps_long: (-122.3493f32).to_bits(),
        gps_alt: 158.5f32.to_bits(),
        gps_speed: 0.25f32.to_bits(),
        gps_sats: 9,
        mag_hdg: 271,
    }
}

fn round_trip(message: RoverMessage) {
    let kind = message.kind();
    let frame = message.encode().unwrap();
    assert_eq!(frame[0] as usize, frame.len());
    assert_eq!(&frame[1..5], &[0xff, 0xff, 0x00, 0x00]);
    assert_eq!(frame[5], kind.tag());
    assert_eq!(RoverMessage::decode(&frame, kind), Ok(message));
}

#[test]
fn telemetry_round_trips() {
    round_trip(RoverMessage::TelemetryMessage {
        timestamp: stamp(),
        location: sample_location(),
        signal_strength: -87,
        free_memory: 1536,
        status: String::from("all systems nominal"),
    });
    round_trip(RoverMessage::TelemetryMessage {
        timestamp: RoverTimestamp { hour: 255, minute: 255, second: 255 },
        location: RoverLocData {
            gps_lat: u32::MAX,
            gps_long: f32::NAN.to_bits(),
            gps_alt: f32::NEG_INFINITY.to_bits(),
            gps_speed: (-0.0f32).to_bits(),
            gps_sats: 255,
            mag_hdg: u16::MAX,
        },
        signal_strength: i16::MIN,
        free_memory: u16::MAX,
        status: String::new(),
    });
    round_trip(RoverMessage::TelemetryMessage {
        timestamp: RoverTimestamp { hour: 0, minute: 0, second: 0 },
        location: RoverLocData::default(),
        signal_strength: i16::MAX,
        free_memory: 0,
        status: String::from("\u{1}\u{7f} ~"),
    });
}

#[test]
fn location_floats_survive_the_wire() {
    let message = RoverMessage::TelemetryMessage {
        timestamp: stamp(),
        location: sample_location(),
        signal_strength: 0,
        free_memory: 0,
        status: String::new(),
    };
    let frame = message.encode().unwrap();
    match RoverMessage::decode(&frame, MessageKind::Telemetry).unwrap() {
        RoverMessage::TelemetryMessage { location, .. } => {
            assert_eq!(f32::from_bits(location.gps_lat), 47.6205f32);
            assert_eq!(f32::from_bits(location.gps_long), -122.3493f32);
            assert_eq!(f32::from_bits(location.gps_alt), 158.5f32);
            assert_eq!(f32::from_bits(location.gps_speed), 0.25f32);
            assert_eq!(location.gps_sats, 9);
            assert_eq!(location.mag_hdg, 271);
        }
        other => panic!("decoded as {:?}", other),
    }
    assert_eq!(&frame[9..13], &47.6205f32.to_le_bytes());
    assert_eq!(&frame[13..17], &(-122.3493f32).to_le_bytes());
}

#[test]
fn telemetry_ack_round_trips() {
    for ack in [false, true] {
        for command_waiting in [false, true] {
            round_trip(RoverMessage::TelemetryAck { timestamp: stamp(), ack, command_waiting });
        }
    }
}

#[test]
fn command_ready_round_trips() {
    round_trip(RoverMessage::CommandReady { timestamp: stamp(), ready: true });
    round_trip(RoverMessage::CommandReady { timestamp: stamp(), ready: false });
}

#[test]
fn command_message_round_trips() {
    round_trip(RoverMessage::CommandMessage {
        timestamp: stamp(),
        sequence_complete: false,
        command: String::from("FWD 10"),
    });
    round_trip(RoverMessage::CommandMessage {
        timestamp: stamp(),
        sequence_complete: true,
        command: String::new(),
    });
}

#[test]
fn command_ack_round_trips() {
    round_trip(RoverMessage::CommandAck { timestamp: stamp(), ack: true });
    round_trip(RoverMessage::CommandAck { timestamp: stamp(), ack: false });
}

#[test]
fn short_frames_are_laid_out_byte_for_byte() {
    assert_eq!(
        RoverMessage::TelemetryAck { timestamp: stamp(), ack: true, command_waiting: false }
            .encode(),
        Ok(vec![11, 0xff, 0xff, 0, 0, 1, 13, 37, 59, 1, 0])
    );
    assert_eq!(
        RoverMessage::CommandReady { timestamp: stamp(), ready: true }.encode(),
        Ok(vec![10, 0xff, 0xff, 0, 0, 2, 13, 37, 59, 1])
    );
    assert_eq!(
        RoverMessage::CommandAck { timestamp: stamp(), ack: false }.encode(),
        Ok(vec![10, 0xff, 0xff, 0, 0, 4, 13, 37, 59, 0])
    );
}

#[test]
fn frame_too_short_for_a_tag_is_a_decode_error() {
    for len in 0..=5usize {
        let bytes = vec![0u8; len];
        assert_eq!(
            RoverMessage::decode(&bytes, MessageKind::Telemetry),
            Err(ProtocolError::DecodeError)
        );
    }
}

#[test]
fn payload_is_the_frame_behind_the_tag() {
    for message in [
        stop_command(),
        RoverMessage::TelemetryAck { timestamp: stamp(), ack: true, command_waiting: true },
        RoverMessage::CommandReady { timestamp: stamp(), ready: false },
    ] {
        let frame = message.encode().unwrap();
        let mut payload = vec![0xaa_u8, 0xbb];
        message.serialize(&mut payload);
        assert_eq!(&payload[..2], &[0xaa, 0xbb]);
        assert_eq!(&payload[2..], &frame[6..]);
    }
    let mut payload = Vec::new();
    stop_command().serialize(&mut payload);
    assert_eq!(payload, vec![13, 37, 59, 1, b'S', b'T', b'O', b'P', 0]);
}

#[test]
fn frame_too_short_for_its_kind_is_a_decode_error() {
    assert_eq!(MAX_FRAME_LEN, 255);
    let cases = [
        (MessageKind::Telemetry, 32usize),
        (MessageKind::TelemetryAck, 11),
        (MessageKind::CommandReady, 10),
        (MessageKind::CommandMessage, 10),
        (MessageKind::CommandAck, 10),
    ];
    for (kind, needed) in cases {
        assert_eq!(fixed_len(kind), needed);
        let mut bytes = vec![0u8; needed];
        bytes[5] = kind.tag();
        assert!(RoverMessage::decode(&bytes, kind).is_ok(), "{:?} at {}", kind, needed);
        bytes.pop();
        assert_eq!(RoverMessage::decode(&bytes, kind), Err(ProtocolError::DecodeError));
    }
}

#[test]
fn wrong_kind_is_told_before_truncation() {
    let mut bytes = vec![0u8; 6];
    bytes[5] = 4;
    assert_eq!(
        RoverMessage::decode(&bytes, MessageKind::Telemetry),
        Err(ProtocolError::WrongMessageKind { expected: MessageKind::Telemetry, actual: 4 })
    );
    bytes[5] = 200;
    assert_eq!(
        RoverMessage::decode(&bytes, MessageKind::CommandAck),
        Err(ProtocolError::WrongMessageKind { expected: MessageKind::CommandAck, actual: 200 })
    );
}

#[test]
fn decode_ignores_length_byte_and_routing_header() {
    let bytes = [0u8, 1, 2, 3, 4, 2, 23, 59, 58, 1];
    assert_eq!(
        RoverMessage::decode(&bytes, MessageKind::CommandReady),
        Ok(RoverMessage::CommandReady {
            timestamp: RoverTimestamp { hour: 23, minute: 59, second: 58 },
            ready: true,
        })
    );
}

#[test]
fn any_byte_but_zero_is_a_true_flag() {
    for byte in 1..=255u8 {
        let bytes = [10u8, 0xff, 0xff, 0, 0, 4, 1, 2, 3, byte];
        assert_eq!(
            RoverMessage::decode(&bytes, MessageKind::CommandAck),
            Ok(RoverMessage::CommandAck {
                timestamp: RoverTimestamp { hour: 1, minute: 2, second: 3 },
                ack: true,
            })
        );
    }
}

#[test]
fn string_ends_at_the_first_nul() {
    let mut buffer = [0u8; 64];
    let frame = stop_command().encode().unwrap();
    buffer[..frame.len()].copy_from_slice(&frame);
    buffer[20] = b'X';
    assert_eq!(RoverMessage::decode(&buffer, MessageKind::CommandMessage), Ok(stop_command()));
}

#[test]
fn string_without_nul_runs_to_the_end_of_the_buffer() {
    let mut buffer = [b'a'; 64];
    buffer[5] = 3;
    buffer[9] = 0;
    match RoverMessage::decode(&buffer, MessageKind::CommandMessage).unwrap() {
        RoverMessage::CommandMessage { sequence_complete, command, .. } => {
            assert!(!sequence_complete);
            assert_eq!(command, "a".repeat(54));
        }
        other => panic!("decoded as {:?}", other),
    }
    buffer[5] = 0;
    match RoverMessage::decode(&buffer, MessageKind::Telemetry).unwrap() {
        RoverMessage::TelemetryMessage { status, .. } => assert_eq!(status, "a".repeat(32)),
        other => panic!("decoded as {:?}", other),
    }
}

#[test]
fn frame_that_ends_with_its_fixed_fields_holds_an_empty_string() {
    let mut bytes = vec![0u8; 10];
    bytes[5] = 3;
    bytes[9] = 1;
    assert_eq!(
        RoverMessage::decode(&bytes, MessageKind::CommandMessage),
        Ok(RoverMessage::CommandMessage {
            timestamp: RoverTimestamp { hour: 0, minute: 0, second: 0 },
            sequence_complete: true,
            command: String::new(),
        })
    );
}

#[test]
fn high_bytes_decode_to_the_characters_of_their_code() {
    let bytes = [0u8, 0xff, 0xff, 0, 0, 3, 0, 0, 0, 0, b'A', 0xe9, 0xff, 0];
    match RoverMessage::decode(&bytes, MessageKind::CommandMessage).unwrap() {
        RoverMessage::CommandMessage { command, .. } => assert_eq!(command, "A\u{e9}\u{ff}"),
        other => panic!("decoded as {:?}", other),
    }
}

#[test]
fn nul_inside_a_string_ends_it_early() {
    let message = RoverMessage::CommandMessage {
        timestamp: stamp(),
        sequence_complete: false,
        command: String::from("GO\0HOME"),
    };
    let frame = message.encode().unwrap();
    assert_eq!(frame.len(), 11 + 7);
    match RoverMessage::decode(&frame, MessageKind::CommandMessage).unwrap() {
        RoverMessage::CommandMessage { command, .. } => assert_eq!(command, "GO"),
        other => panic!("decoded as {:?}", other),
    }
}

#[test]
fn text_outside_ascii_is_not_encoded() {
    let message = RoverMessage::CommandMessage {
        timestamp: stamp(),
        sequence_complete: false,
        command: String::from("caf\u{e9}"),
    };
    assert_eq!(message.encode(), Err(ProtocolError::NonAsciiText));
    assert!(!message.has_ascii_text());
    let message = RoverMessage::TelemetryMessage {
        timestamp: stamp(),
        location: RoverLocData::default(),
        signal_strength: 0,
        free_memory: 0,
        status: String::from("\u{80}"),
    };
    assert_eq!(message.encode(), Err(ProtocolError::NonAsciiText));
    assert!(stop_command().has_ascii_text());
    assert!(RoverMessage::CommandAck { timestamp: stamp(), ack: true }.has_ascii_text());
}

#[test]
fn frame_longer_than_its_length_byte_can_say_is_not_encoded() {
    let command = |len: usize| RoverMessage::CommandMessage {
        timestamp: stamp(),
        sequence_complete: false,
        command: "c".repeat(len),
    };
    let longest = command(244).encode().unwrap();
    assert_eq!(longest.len(), 255);
    assert_eq!(longest[0], 255);
    assert_eq!(RoverMessage::decode(&longest, MessageKind::CommandMessage), Ok(command(244)));
    assert_eq!(command(245).encode(), Err(ProtocolError::MessageTooLong));
    let telemetry = |len: usize| RoverMessage::TelemetryMessage {
        timestamp: stamp(),
        location: RoverLocData::default(),
        signal_strength: 0,
        free_memory: 0,
        status: "s".repeat(len),
    };
    assert_eq!(telemetry(222).encode().unwrap().len(), 255);
    assert_eq!(telemetry(223).encode(), Err(ProtocolError::MessageTooLong));
}

#[test]
fn fits_compares_the_frame_with_the_budget() {
    let message = stop_command();
    assert!(message.fits(15));
    assert!(message.fits(255));
    assert!(!message.fits(14));
    assert!(!message.fits(0));
    let ack = RoverMessage::TelemetryAck { timestamp: stamp(), ack: true, command_waiting: true };
    assert!(ack.fits(11));
    assert!(!ack.fits(10));
}

#[test]
fn deserialize_fills_the_shell_in_place() {
    let frame = stop_command().encode().unwrap();
    let mut shell = RoverMessage::empty_at(
        MessageKind::CommandMessage,
        RoverTimestamp { hour: 0, minute: 0, second: 0 },
    );
    assert_eq!(shell.deserialize(&frame), Ok(()));
    assert_eq!(shell, stop_command());
}

#[test]
fn deserialize_leaves_the_shell_alone_when_it_fails() {
    let frame = stop_command().encode().unwrap();
    let before = RoverMessage::TelemetryMessage {
        timestamp: stamp(),
        location: sample_location(),
        signal_strength: 5,
        free_memory: 6,
        status: String::from("kept"),
    };
    let mut shell = before.clone();
    assert_eq!(
        shell.deserialize(&frame),
        Err(ProtocolError::WrongMessageKind { expected: MessageKind::Telemetry, actual: 3 })
    );
    assert_eq!(shell, before);
    assert_eq!(shell.deserialize(&frame[..3]), Err(ProtocolError::DecodeError));
    assert_eq!(shell, before);
}
