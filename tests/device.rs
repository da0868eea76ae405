use cynthionwhisperer::device::{
    decode_speeds, find_analyzer_interface, hardware_revision, negotiate_power, parse_byte_response,
    power_sources, InterfaceDescriptor,
};
use cynthionwhisperer::{Error, PowerConfig, Speed, State};

fn alt(class: u8, subclass: u8, protocol: u8) -> InterfaceDescriptor {
    InterfaceDescriptor { interface_number: 0, alternate_setting: 0, class, subclass, protocol }
}

#[test]
fn interface_selection() {
    assert_eq!(find_analyzer_interface(&[]), Err(Error::NoCompatibleInterface));
    assert_eq!(find_analyzer_interface(&[alt(0xFF, 0x00, 1), alt(0xFF, 0x10, 1)]), Ok(1));
    assert_eq!(
        find_analyzer_interface(&[alt(0xFF, 0x10, 2), alt(0xFF, 0x10, 1)]),
        Err(Error::GatewareTooNew { found: 2, supported: 1 })
    );
    assert_eq!(
        find_analyzer_interface(&[alt(0xFF, 0x10, 0)]),
        Err(Error::GatewareTooOld { found: 0, supported: 1 })
    );
    assert_eq!(find_analyzer_interface(&[alt(0x08, 0x10, 1)]), Err(Error::NoCompatibleInterface));
}

#[test]
fn speeds_bitmap() {
    assert_eq!(decode_speeds(0b1111), vec![Speed::Auto, Speed::High, Speed::Full, Speed::Low]);
    assert_eq!(decode_speeds(0b1010), vec![Speed::High, Speed::Low]);
    assert_eq!(decode_speeds(0), vec![]);
    assert_eq!(decode_speeds(0b1111_0000), vec![]);
}

#[test]
fn power_negotiation() {
    let (state, power) = negotiate_power(State::from_bits(0b1000_1000), 1, 0);
    assert_eq!(state.bits(), 0b0000_1000);
    assert_eq!(power, None);

    let (state, power) = negotiate_power(State::from_bits(0b0101_0000), 1, 1);
    assert_eq!(state.bits(), 0b1000_1000);
    assert_eq!(power, Some(PowerConfig { source_index: 0, on_now: true, start_on: false, stop_off: false }));

    let (state, power) = negotiate_power(State::from_bits(0b1001_0000), 1, 2);
    assert_eq!(state.bits(), 0b1001_0000);
    assert_eq!(power, Some(PowerConfig { source_index: 1, on_now: true, start_on: false, stop_off: false }));

    let (_, power) = negotiate_power(State::from_bits(0b1010_0000), 1, 2);
    assert_eq!(power.map(|p| (p.source_index, p.on_now)), Some((2, true)));

    let (_, power) = negotiate_power(State::from_bits(0b1100_0000), 1, 2);
    assert_eq!(power.map(|p| (p.source_index, p.on_now)), Some((0, false)));
}

#[test]
fn power_source_names() {
    assert_eq!(power_sources(0x0006, false), None);
    assert_eq!(power_sources(0x0006, true), Some(&["TARGET-C", "CONTROL", "AUX"][..]));
    assert_eq!(power_sources(0x0005, true), Some(&["TARGET-C", "HOST"][..]));
}

#[test]
fn hardware_revision_from_bcd() {
    assert_eq!(hardware_revision(0x0104), (1, 4));
    assert_eq!(hardware_revision(0x0006), (0, 6));
}

#[test]
fn single_byte_responses() {
    assert_eq!(parse_byte_response(&[0x2A]), Ok(0x2A));
    assert_eq!(
        parse_byte_response(&[]),
        Err(Error::UnexpectedPayloadLength { expected: 1, got: 0 })
    );
    assert_eq!(
        parse_byte_response(&[1, 2]),
        Err(Error::UnexpectedPayloadLength { expected: 1, got: 2 })
    );
}
