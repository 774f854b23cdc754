use ground_control::codec::{
    deserialize_bool, deserialize_i16, deserialize_string, deserialize_u16, deserialize_u32,
    serialize_bool, serialize_i16, serialize_string, serialize_u16, serialize_u32,
};
use ground_control::message::{RoverLocData, RoverTimestamp};

#[test]
fn flags_are_one_byte() {
    let mut buf = vec![9u8];
    serialize_bool(true, &mut buf);
    serialize_bool(false, &mut buf);
    assert_eq!(buf, vec![9, 1, 0]);
    assert!(!deserialize_bool(0));
    assert!(deserialize_bool(1));
    assert!(deserialize_bool(2));
    assert!(deserialize_bool(255));
}

#[test]
fn sixteen_bit_numbers_go_low_byte_first() {
    let mut buf = Vec::new();
    serialize_u16(0x1234, &mut buf);
    serialize_u16(0, &mut buf);
    serialize_u16(u16::MAX, &mut buf);
    assert_eq!(buf, vec![0x34, 0x12, 0, 0, 0xff, 0xff]);
    assert_eq!(deserialize_u16(&[0x34, 0x12]), 0x1234);
    assert_eq!(deserialize_u16(&[0xff, 0xff, 7]), u16::MAX);
    for value in [0u16, 1, 255, 256, 0x8000, 0xfffe, u16::MAX] {
        let mut buf = Vec::new();
        serialize_u16(value, &mut buf);
        assert_eq!(buf, value.to_le_bytes());
        assert_eq!(deserialize_u16(&buf), value);
    }
}

#[test]
fn signed_numbers_go_in_twos_complement() {
    let mut buf = Vec::new();
    serialize_i16(-1, &mut buf);
    serialize_i16(-2, &mut buf);
    serialize_i16(i16::MIN, &mut buf);
    serialize_i16(i16::MAX, &mut buf);
    assert_eq!(buf, vec![0xff, 0xff, 0xfe, 0xff, 0x00, 0x80, 0xff, 0x7f]);
    assert_eq!(deserialize_i16(&[0xff, 0xff]), -1);
    assert_eq!(deserialize_i16(&[0x00, 0x80]), i16::MIN);
    for value in [i16::MIN, -300, -1, 0, 1, 300, i16::MAX] {
        let mut buf = Vec::new();
        serialize_i16(value, &mut buf);
        assert_eq!(buf, value.to_le_bytes());
        assert_eq!(deserialize_i16(&buf), value);
    }
}

#[test]
fn thirty_two_bit_numbers_go_low_byte_first() {
    let mut buf = Vec::new();
    serialize_u32(0x0403_0201, &mut buf);
    assert_eq!(buf, vec![1, 2, 3, 4]);
    assert_eq!(deserialize_u32(&[1, 2, 3, 4]), 0x0403_0201);
    for value in [0u32, 1, 0xff, 0x100, 0xffff, 0x1_0000, 0x00ff_ffff, 0x0100_0000, u32::MAX] {
        let mut buf = Vec::new();
        serialize_u32(value, &mut buf);
        assert_eq!(buf, value.to_le_bytes());
        assert_eq!(deserialize_u32(&buf), value);
    }
    for value in [0.0f32, -0.0, 1.0, -2.5, 915_000_000.0, f32::MAX, f32::MIN_POSITIVE] {
        let mut buf = Vec::new();
        serialize_u32(value.to_bits(), &mut buf);
        assert_eq!(buf, value.to_le_bytes());
        assert_eq!(f32::from_bits(deserialize_u32(&buf)), value);
    }
}

#[test]
fn strings_are_closed_by_a_nul() {
    let mut buf = vec![7u8];
    serialize_string(&String::from("hi"), &mut buf);
    serialize_string(&String::new(), &mut buf);
    assert_eq!(buf, vec![7, b'h', b'i', 0, 0]);
}

#[test]
fn strings_are_read_up_to_the_nul_and_appended() {
    let mut s = String::from(">");
    deserialize_string(&mut s, b"abc\0def");
    assert_eq!(s, ">abc");
    deserialize_string(&mut s, b"xyz");
    assert_eq!(s, ">abcxyz");
    deserialize_string(&mut s, b"\0xyz");
    assert_eq!(s, ">abcxyz");
    deserialize_string(&mut s, b"");
    assert_eq!(s, ">abcxyz");
}

#[test]
fn timestamp_is_three_bytes() {
    let mut buf = Vec::new();
    RoverTimestamp { hour: 23, minute: 59, second: 58 }.serialize(&mut buf);
    assert_eq!(buf, vec![23, 59, 58]);
    let mut t = RoverTimestamp { hour: 0, minute: 0, second: 0 };
    t.deserialize(&[200, 100, 50, 25]);
    assert_eq!(t, RoverTimestamp { hour: 200, minute: 100, second: 50 });
}

#[test]
fn location_is_nineteen_bytes() {
    let location = RoverLocData {
        gps_lat: 0x0403_0201,
        gps_long: 0x0807_0605,
        gps_alt: 0x0c0b_0a09,
        gps_speed: 0x100f_0e0d,
        gps_sats: 0x11,
        mag_hdg: 0x1312,
    };
    let mut buf = Vec::new();
    location.serialize(&mut buf);
    assert_eq!(buf, (1..=19u8).collect::<Vec<u8>>());
    let mut back = RoverLocData::default();
    back.deserialize(&buf);
    assert_eq!(back, location);
}

#[test]
fn default_location_is_all_zero() {
    assert_eq!(
        RoverLocData::default(),
        RoverLocData { gps_lat: 0, gps_long: 0, gps_alt: 0, gps_speed: 0, gps_sats: 0, mag_hdg: 0 }
    );
    assert_eq!(f32::from_bits(RoverLocData::default().gps_lat), 0.0);
}
