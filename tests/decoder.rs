use cynthionwhisperer::clock::CLK_NS_EXACT_LIMIT;
use cynthionwhisperer::{clk_to_ns, CynthionStream, EventType, TimestampedEvent};

fn drain(stream: &mut CynthionStream) -> Vec<TimestampedEvent> {
    let mut events = Vec::new();
    while let Some(event) = stream.next_buffered_event() {
        events.push(event);
    }
    events
}

#[test]
fn clock_conversion_values() {
    assert_eq!(clk_to_ns(0), 0);
    assert_eq!(clk_to_ns(1), 16);
    assert_eq!(clk_to_ns(2), 33);
    assert_eq!(clk_to_ns(3), 50);
    assert_eq!(clk_to_ns(60), 1000);
    assert_eq!(clk_to_ns(10), 166);
}

#[test]
fn clock_conversion_is_monotonic_and_exact_to_the_limit() {
    let mut last = 0;
    for c in 0..1000u64 {
        let ns = clk_to_ns(c);
        assert_eq!(ns, (c / 3) * 50 + [0, 16, 33][(c % 3) as usize]);
        assert!(ns >= last);
        last = ns;
    }
    assert_eq!(clk_to_ns(CLK_NS_EXACT_LIMIT), 18446744073709551600);
    assert!(clk_to_ns(CLK_NS_EXACT_LIMIT - 1) <= clk_to_ns(CLK_NS_EXACT_LIMIT));
}

#[test]
fn event_frame_decodes() {
    let mut stream = CynthionStream::new();
    stream.push_bytes(&[0xFF, 0x01, 0x00, 0x0A]);
    assert_eq!(
        stream.next_buffered_event(),
        Some(TimestampedEvent::Event { timestamp_ns: 166, event_type: EventType::SpeedDetected })
    );
    assert_eq!(stream.buffered_len(), 0);
    assert!(!stream.padding_due());
    assert_eq!(stream.next_buffered_event(), None);
}

#[test]
fn odd_length_packet_is_followed_by_a_pad_byte() {
    let mut stream = CynthionStream::new();
    stream.push_bytes(&[0x00, 0x03, 0x00, 0x06, 0xE1, 0x00, 0x10, 0xAA]);
    assert_eq!(
        stream.next_buffered_event(),
        Some(TimestampedEvent::Packet { timestamp_ns: 100, bytes: vec![0xE1, 0x00, 0x10] })
    );
    assert!(stream.padding_due());
    assert_eq!(stream.buffered_len(), 1);
    assert_eq!(stream.next_buffered_event(), None);
    assert!(!stream.padding_due());
    assert_eq!(stream.buffered_len(), 0);
}

#[test]
fn pad_byte_waits_for_data() {
    let mut stream = CynthionStream::new();
    stream.push_bytes(&[0x00, 0x01, 0x00, 0x03, 0xD2, 0x00]);
    assert_eq!(
        stream.next_buffered_event(),
        Some(TimestampedEvent::Packet { timestamp_ns: 50, bytes: vec![0xD2] })
    );
    assert!(stream.padding_due());
    assert_eq!(stream.next_buffered_event(), None);
    stream.push_bytes(&[0xFF, 0x02, 0x00, 0x03]);
    assert_eq!(
        stream.next_buffered_event(),
        Some(TimestampedEvent::Event { timestamp_ns: 100, event_type: EventType::Suspend })
    );
}

#[test]
fn unknown_event_advances_the_clock_silently() {
    let mut stream = CynthionStream::new();
    stream.push_bytes(&[0xFF, 0x7F, 0x00, 0x03, 0xFF, 0x01, 0x00, 0x03]);
    assert_eq!(
        stream.next_buffered_event(),
        Some(TimestampedEvent::Event { timestamp_ns: 100, event_type: EventType::SpeedDetected })
    );
    assert_eq!(stream.total_clk_cycles(), 6);
    let mut only_unknown = CynthionStream::new();
    only_unknown.push_bytes(&[0xFF, 0x7F, 0x00, 0x09]);
    assert_eq!(only_unknown.next_buffered_event(), None);
    assert_eq!(only_unknown.total_clk_cycles(), 9);
    assert_eq!(only_unknown.buffered_len(), 0);
}

#[test]
fn packet_waits_for_one_byte_beyond_it() {
    let mut stream = CynthionStream::new();
    stream.push_bytes(&[0x00, 0x02, 0x00, 0x01, 0xAA, 0xBB]);
    assert_eq!(stream.next_buffered_event(), None);
    assert_eq!(stream.buffered_len(), 6);
    stream.push_bytes(&[0x00]);
    assert_eq!(
        stream.next_buffered_event(),
        Some(TimestampedEvent::Packet { timestamp_ns: 16, bytes: vec![0xAA, 0xBB] })
    );
    assert!(!stream.padding_due());
    assert_eq!(stream.buffered_len(), 1);
}

#[test]
fn big_endian_header_fields() {
    let mut payload = vec![0x01, 0x00, 0x01, 0x00];
    payload.extend(std::iter::repeat(0x5A).take(256));
    payload.push(0x00);
    let mut stream = CynthionStream::new();
    stream.push_bytes(&payload);
    match stream.next_buffered_event() {
        Some(TimestampedEvent::Packet { timestamp_ns, bytes }) => {
            assert_eq!(bytes.len(), 256);
            assert_eq!(timestamp_ns, clk_to_ns(256));
        }
        other => panic!("unexpected {other:?}"),
    }
}

fn sample_stream() -> Vec<u8> {
    vec![
        0xFF, 0x01, 0x00, 0x0A, // speed detected
        0x00, 0x03, 0x00, 0x06, 0xE1, 0x00, 0x10, 0xAA, // OUT token with pad
        0xFF, 0x33, 0x01, 0x00, // unknown event
        0x00, 0x01, 0x00, 0x02, 0xD2, 0x00, // ACK with pad
        0x00, 0x02, 0x12, 0x34, 0xC3, 0x00, // two-byte packet
        0xFF, 0x04, 0xFF, 0xFF, // reset
        0x00, 0x00, 0x00, 0x01, // empty packet
        0x00, // one byte beyond
    ]
}

#[test]
fn chunking_does_not_change_events() {
    let bytes = sample_stream();
    let mut whole = CynthionStream::new();
    whole.push_bytes(&bytes);
    let expected = drain(&mut whole);
    assert_eq!(expected.len(), 6);
    for chunk_len in 1..=bytes.len() {
        let mut stream = CynthionStream::new();
        let mut events = Vec::new();
        for chunk in bytes.chunks(chunk_len) {
            stream.push_bytes(chunk);
            events.extend(drain(&mut stream));
        }
        assert_eq!(events, expected, "chunks of {chunk_len}");
        assert_eq!(stream.total_clk_cycles(), whole.total_clk_cycles());
    }
}

#[test]
fn decoded_timestamps_never_decrease() {
    let mut stream = CynthionStream::new();
    stream.push_bytes(&sample_stream());
    let events = drain(&mut stream);
    let stamps: Vec<u64> = events.iter().map(|e| e.timestamp_ns()).collect();
    assert!(stamps.windows(2).all(|w| w[0] <= w[1]));
    assert_eq!(stamps[0], 166);
}

#[test]
fn event_codes_round_trip() {
    for event in [
        EventType::SpeedDetected,
        EventType::Suspend,
        EventType::Resume,
        EventType::Reset,
        EventType::Disconnect,
    ] {
        assert_eq!(EventType::from_code(event.code()), Some(event));
    }
    assert_eq!(EventType::from_code(0x00), None);
    assert_eq!(EventType::from_code(0x01), Some(EventType::SpeedDetected));
    assert_eq!(EventType::SpeedDetected.description(), "Speed detected");
}
