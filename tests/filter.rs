use cynthionwhisperer::filter::{
    is_data_pid, packet_pid, parse_data_pid, parse_direction, parse_speed, payload_from_data_packet,
    Direction, PacketFilter, PacketMatcher,
};
use cynthionwhisperer::{Speed, PID};

#[test]
fn speed_names() {
    assert_eq!(parse_speed("auto"), Some(Speed::Auto));
    assert_eq!(parse_speed("HS"), Some(Speed::High));
    assert_eq!(parse_speed("High"), Some(Speed::High));
    assert_eq!(parse_speed("fs"), Some(Speed::Full));
    assert_eq!(parse_speed("FULL"), Some(Speed::Full));
    assert_eq!(parse_speed("low"), Some(Speed::Low));
    assert_eq!(parse_speed("Ls"), Some(Speed::Low));
    assert_eq!(parse_speed("super"), None);
    assert_eq!(parse_speed(""), None);
}

#[test]
fn direction_names() {
    assert_eq!(parse_direction("ANY"), Some(Direction::Any));
    assert_eq!(parse_direction("in"), Some(Direction::In));
    assert_eq!(parse_direction("Incoming"), Some(Direction::In));
    assert_eq!(parse_direction("out"), Some(Direction::Out));
    assert_eq!(parse_direction("OUTGOING"), Some(Direction::Out));
    assert_eq!(parse_direction("sideways"), None);
}

#[test]
fn data_pid_names() {
    assert_eq!(parse_data_pid("data0"), Some(PID::DATA0));
    assert_eq!(parse_data_pid("DATA1"), Some(PID::DATA1));
    assert_eq!(parse_data_pid("Data2"), Some(PID::DATA2));
    assert_eq!(parse_data_pid("mdata"), Some(PID::MDATA));
    assert_eq!(parse_data_pid("data3"), None);
}

#[test]
fn packet_pid_and_payload() {
    assert_eq!(packet_pid(&[]), None);
    assert_eq!(packet_pid(&[0xC3, 0x01]), Some(PID::DATA0));
    assert_eq!(packet_pid(&[0x69, 0x00, 0x10]), Some(PID::IN));
    assert!(is_data_pid(PID::MDATA));
    assert!(!is_data_pid(PID::IN));
    assert_eq!(payload_from_data_packet(&[0xC3, 1, 2, 3, 4, 5]), Some(&[1u8, 2, 3][..]));
    assert_eq!(payload_from_data_packet(&[0xC3, 4, 5]), Some(&[][..]));
    assert_eq!(payload_from_data_packet(&[0xC3, 4]), None);
}

#[test]
fn matcher_follows_token_direction() {
    let mut matcher = PacketMatcher::new(PacketFilter {
        direction: Direction::In,
        pattern: vec![0x20],
        data_pid: Some(PID::DATA1),
    });
    assert!(!matcher.offer(&[0xE1, 0x15, 0xEF]));
    assert!(!matcher.offer(&[0x4B, 0x20, 0x01, 0x00, 0x00]));
    assert!(!matcher.offer(&[0x69, 0x00, 0x10]));
    assert!(!matcher.offer(&[0xC3, 0x20, 0x01, 0x00, 0x00]));
    assert!(!matcher.offer(&[0x4B, 0x21, 0x01, 0x00, 0x00]));
    assert!(!matcher.offer(&[0xD2]));
    assert!(matcher.offer(&[0x4B, 0x20, 0x01, 0x00, 0x00]));
}

#[test]
fn matcher_accepts_either_direction_before_a_token() {
    let mut matcher = PacketMatcher::new(PacketFilter {
        direction: Direction::Out,
        pattern: vec![],
        data_pid: None,
    });
    assert!(matcher.offer(&[0x87, 0x00, 0x00]));
    assert!(!matcher.offer(&[0x87, 0x00]));
    assert!(!matcher.offer(&[]));
}
