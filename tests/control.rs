use cynthionwhisperer::device::negotiate_power;
use cynthionwhisperer::{CaptureStream, ControlState, PowerConfig, Speed, State, TestConfig, WaitResult, CapturePoll, TimestampedEvent};

fn vbus_count(s: State) -> usize {
    [s.target_c_vbus_en(), s.control_vbus_en(), s.aux_vbus_en()]
        .iter()
        .filter(|b| **b)
        .count()
}

#[test]
fn power_exclusivity() {
    let (state, power) = negotiate_power(State::from_bits(0), 1, 1);
    assert_eq!(power, Some(PowerConfig { source_index: 0, on_now: true, start_on: false, stop_off: false }));
    let mut control = ControlState::new(state, power);
    let byte = control.set_power_config(PowerConfig {
        source_index: 2,
        on_now: true,
        start_on: false,
        stop_off: false,
    });
    let s = State::from_bits(byte);
    assert!(!s.target_c_vbus_en());
    assert!(!s.control_vbus_en());
    assert!(s.aux_vbus_en());
    assert!(!s.target_a_discharge());
    assert!(s.power_control_enable());
    assert_eq!(byte, 0b1010_0000);
    assert_eq!(control.state(), s);
}

#[test]
fn every_state_write_has_at_most_one_rail() {
    for bits in [0u8, 0b1000_1000, 0b1001_0000, 0b1010_0001] {
        for index in 0..4usize {
            for on in [false, true] {
                let mut control = ControlState::new(State::from_bits(bits), None);
                let byte = control.set_power_config(PowerConfig {
                    source_index: index,
                    on_now: on,
                    start_on: true,
                    stop_off: true,
                });
                assert!(vbus_count(State::from_bits(byte)) <= 1);
                let byte = control.start_capture(Speed::Full);
                assert!(vbus_count(State::from_bits(byte)) <= 1);
                let byte = control.stop_capture();
                assert_eq!(vbus_count(State::from_bits(byte)), 0);
            }
        }
    }
}

#[test]
fn power_off_discharges_target_a() {
    let mut control = ControlState::new(State::from_bits(0), None);
    let byte = control.set_power_config(PowerConfig {
        source_index: 1,
        on_now: false,
        start_on: false,
        stop_off: false,
    });
    assert_eq!(byte, 0b1100_0000);
}

#[test]
fn start_capture_sets_speed_enable_and_rail() {
    let power = PowerConfig { source_index: 1, on_now: false, start_on: true, stop_off: false };
    let mut control = ControlState::new(State::from_bits(0b1100_0000), Some(power));
    let byte = control.start_capture(Speed::Low);
    let s = State::from_bits(byte);
    assert!(s.enable());
    assert_eq!(s.speed(), Speed::Low);
    assert!(s.control_vbus_en());
    assert!(!s.target_a_discharge());
    assert_eq!(byte, 0b1001_0101);
    assert_eq!(control.power(), Some(PowerConfig { on_now: true, ..power }));
}

#[test]
fn start_capture_without_power_change_keeps_rails() {
    let mut control = ControlState::new(State::from_bits(0b1000_1000), None);
    let byte = control.start_capture(Speed::Auto);
    assert_eq!(byte, 0b1000_1111);
    let byte = control.stop_capture();
    assert_eq!(byte, 0b1000_1110);
}

#[test]
fn stop_capture_switches_power_off_when_asked() {
    let power = PowerConfig { source_index: 0, on_now: true, start_on: false, stop_off: true };
    let mut control = ControlState::new(State::from_bits(0b1000_1001), Some(power));
    let byte = control.stop_capture();
    assert_eq!(byte, 0b1100_0000);
    assert_eq!(control.power(), Some(PowerConfig { on_now: false, ..power }));
}

#[test]
fn state_setters_touch_one_field() {
    let mut s = State::from_bits(0);
    s.set_speed(Speed::Auto);
    assert_eq!(s.bits(), 0b0000_0110);
    s.set_enable(true);
    s.set_target_a_discharge(true);
    assert_eq!(s.bits(), 0b0100_0111);
    s.set_speed(Speed::High);
    assert_eq!(s.bits(), 0b0100_0001);
    s.set_power_control_enable(true);
    s.set_enable(false);
    assert_eq!(s.bits(), 0b1100_0000);
}

#[test]
fn test_config_encoding() {
    assert_eq!(TestConfig::new(None).bits(), 0);
    assert_eq!(TestConfig::new(Some(Speed::High)).bits(), 0b001);
    assert_eq!(TestConfig::new(Some(Speed::Full)).bits(), 0b011);
    assert_eq!(TestConfig::new(Some(Speed::Low)).bits(), 0b101);
    assert_eq!(TestConfig::new(Some(Speed::Auto)).bits(), 0b111);
}

#[test]
fn stop_twice_succeeds_and_second_is_noop() {
    let mut stream = CaptureStream::new();
    stream.poll_next(WaitResult::Received(&[0x00, 0x02]));
    assert!(stream.stop());
    assert!(stream.is_ended());
    assert!(!stream.stop());
    assert!(stream.is_ended());
    assert!(matches!(stream.poll_next(WaitResult::Timeout), Some(CapturePoll::Ended)));
    assert_eq!(stream.next_buffered(), None);
}

#[test]
fn capture_stream_polling() {
    let mut stream = CaptureStream::new();
    assert_eq!(stream.next_buffered(), None);
    assert!(stream.poll_next(WaitResult::Received(&[0xFF, 0x01])).is_none());
    match stream.poll_next(WaitResult::Received(&[0x00, 0x0A])) {
        Some(CapturePoll::Event(event)) => assert_eq!(
            event,
            TimestampedEvent::Event {
                timestamp_ns: 166,
                event_type: cynthionwhisperer::EventType::SpeedDetected
            }
        ),
        other => panic!("unexpected {other:?}"),
    }
    assert!(matches!(stream.poll_next(WaitResult::Timeout), Some(CapturePoll::Timeout)));
    assert!(!stream.is_ended());
    assert!(matches!(stream.poll_next(WaitResult::Ended), Some(CapturePoll::Ended)));
    assert!(stream.is_ended());
    assert!(matches!(stream.poll_next(WaitResult::Received(&[0xFF, 0x01, 0x00, 0x01])), Some(CapturePoll::Ended)));
}
