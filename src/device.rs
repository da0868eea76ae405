//! The decisions made while opening an analyzer: which interface to use,
//! which speeds it supports, and how power control starts out.

use vstd::prelude::*;

use crate::control::PowerConfig;
use crate::error::Error;
use crate::state::{vbus_exclusive, State, StateView};
use crate::usb::Speed;

verus! {

/// The analyzer's USB vendor ID.
pub const VENDOR_ID: u16 = 0x1d50;

/// The analyzer's USB product ID.
pub const PRODUCT_ID: u16 = 0x615b;

/// The class of the analyzer's interface.
pub const CLASS: u8 = 0xff;

/// The subclass of the analyzer's interface.
pub const SUBCLASS: u8 = 0x10;

/// The major protocol version that this library speaks.
pub const PROTOCOL: u8 = 0x01;

/// The bulk IN endpoint that carries captured data.
pub const ENDPOINT: u8 = 0x81;

/// The size of each bulk transfer.
pub const READ_LEN: usize = 0x4000;

/// The number of bulk transfers kept in flight.
pub const NUM_TRANSFERS: usize = 4;

/// Vendor request: read the state register.
pub const REQUEST_GET_STATE: u8 = 0;

/// Vendor request: write the state register.
pub const REQUEST_SET_STATE: u8 = 1;

/// Vendor request: read the bitmap of supported speeds.
pub const REQUEST_GET_SPEEDS: u8 = 2;

/// Vendor request: write the test device configuration.
pub const REQUEST_SET_TEST_CONFIG: u8 = 3;

/// Vendor request: read the minor protocol version.
pub const REQUEST_GET_MINOR_VERSION: u8 = 4;

/// Vendor request: read the trigger capabilities.
pub const REQUEST_GET_TRIGGER_CAPS: u8 = 5;

/// Vendor request: write the trigger control.
pub const REQUEST_SET_TRIGGER_CONTROL: u8 = 6;

/// Vendor request: write a trigger stage.
pub const REQUEST_SET_TRIGGER_STAGE: u8 = 7;

/// Vendor request: read the trigger status.
pub const REQUEST_GET_TRIGGER_STATUS: u8 = 9;

/// Vendor request: arm the trigger.
pub const REQUEST_ARM_TRIGGER: u8 = 10;

/// Vendor request: disarm the trigger.
pub const REQUEST_DISARM_TRIGGER: u8 = 11;

/// Vendor request: read a trigger stage.
pub const REQUEST_GET_TRIGGER_STAGE: u8 = 12;

/// Reads a response that must be a single byte.
pub fn parse_byte_response(data: &[u8]) -> (r: Result<u8, Error>)
    ensures
        data@.len() == 1 ==> r == Ok::<u8, Error>(data@[0]),
        data@.len() != 1 ==> r == Err::<u8, Error>(
            Error::UnexpectedPayloadLength { expected: 1, got: data@.len() as usize },
        ),
{
    if data.len() != 1 {
        return Err(Error::UnexpectedPayloadLength { expected: 1, got: data.len() });
    }
    Ok(data[0])
}

/// The fields of an interface alternate setting that opening looks at.
#[derive(Clone, Copy, Debug, PartialEq, Eq, Structural)]
pub struct InterfaceDescriptor {
    pub interface_number: u8,
    pub alternate_setting: u8,
    pub class: u8,
    pub subclass: u8,
    pub protocol: u8,
}

/// Whether an alternate setting has the analyzer's class and subclass.
pub open spec fn is_analyzer(d: InterfaceDescriptor) -> bool {
    d.class == CLASS && d.subclass == SUBCLASS
}

/// Whether `i` is the first alternate setting with the analyzer's class and
/// subclass.
pub open spec fn is_first_analyzer(alts: Seq<InterfaceDescriptor>, i: int) -> bool {
    &&& 0 <= i < alts.len()
    &&& is_analyzer(alts[i])
    &&& forall|j: int| 0 <= j < i ==> !is_analyzer(#[trigger] alts[j])
}

/// Picks the analyzer's interface among the alternate settings of the
/// active configuration, in order: the first with the analyzer's class and
/// subclass, if its protocol is the one this library speaks.
pub fn find_analyzer_interface(alts: &[InterfaceDescriptor]) -> (r: Result<usize, Error>)
    ensures
        match r {
            Ok(i) => is_first_analyzer(alts@, i as int) && alts@[i as int].protocol == PROTOCOL,
            Err(Error::NoCompatibleInterface) => forall|j: int|
                0 <= j < alts@.len() ==> !is_analyzer(#[trigger] alts@[j]),
            Err(Error::GatewareTooNew { found, supported }) => supported == PROTOCOL && found > PROTOCOL
                && exists|i: int| is_first_analyzer(alts@, i) && alts@[i].protocol == found,
            Err(Error::GatewareTooOld { found, supported }) => supported == PROTOCOL && found < PROTOCOL
                && exists|i: int| is_first_analyzer(alts@, i) && alts@[i].protocol == found,
            Err(_) => false,
        },
{
    let mut i: usize = 0;
    while i < alts.len()
        invariant
            i <= alts@.len(),
            forall|j: int| 0 <= j < i ==> !is_analyzer(#[trigger] alts@[j]),
        decreases alts@.len() - i,
    {
        let alt = alts[i];
        if alt.class == CLASS && alt.subclass == SUBCLASS {
            let protocol = alt.protocol;
            assert(is_first_analyzer(alts@, i as int));
            if protocol > PROTOCOL {
                return Err(Error::GatewareTooNew { found: protocol, supported: PROTOCOL });
            } else if protocol < PROTOCOL {
                return Err(Error::GatewareTooOld { found: protocol, supported: PROTOCOL });
            }
            return Ok(i);
        }
        i = i + 1;
    }
    Err(Error::NoCompatibleInterface)
}

/// The speeds in a bitmap of supported speeds, in the order Auto, High,
/// Full, Low.
pub open spec fn spec_decode_speeds(bitmap: u8) -> Seq<Speed> {
    let auto = if bitmap & Speed::Auto.spec_mask() != 0 { seq![Speed::Auto] } else { seq![] };
    let high = if bitmap & Speed::High.spec_mask() != 0 { seq![Speed::High] } else { seq![] };
    let full = if bitmap & Speed::Full.spec_mask() != 0 { seq![Speed::Full] } else { seq![] };
    let low = if bitmap & Speed::Low.spec_mask() != 0 { seq![Speed::Low] } else { seq![] };
    auto + high + full + low
}

/// Lists the speeds that the analyzer's bitmap of supported speeds holds.
pub fn decode_speeds(bitmap: u8) -> (r: Vec<Speed>)
    ensures
        r@ == spec_decode_speeds(bitmap),
{
    let mut speeds: Vec<Speed> = Vec::new();
    if bitmap & Speed::Auto.mask() != 0 {
        speeds.push(Speed::Auto);
    }
    if bitmap & Speed::High.mask() != 0 {
        speeds.push(Speed::High);
    }
    if bitmap & Speed::Full.mask() != 0 {
        speeds.push(Speed::Full);
    }
    if bitmap & Speed::Low.mask() != 0 {
        speeds.push(Speed::Low);
    }
    proof {
        assert(speeds@ =~= spec_decode_speeds(bitmap));
    }
    speeds
}

/// Whether the protocol version `(major, minor)` supports power control,
/// which came with version 1.1.
pub open spec fn power_supported(protocol: u8, protocol_minor: u8) -> bool {
    protocol > 1 || (protocol == 1 && protocol_minor >= 1)
}

/// The register and power configuration with which an opened analyzer
/// starts out, from the register read at opening.
pub open spec fn spec_negotiate_power(s: StateView, protocol: u8, protocol_minor: u8) -> (
    StateView,
    Option<PowerConfig>,
) {
    if !power_supported(protocol, protocol_minor) {
        (StateView { power_control_enable: false, ..s }, None)
    } else if !s.power_control_enable {
        (
            StateView {
                power_control_enable: true,
                target_c_vbus_en: true,
                control_vbus_en: false,
                aux_vbus_en: false,
                target_a_discharge: false,
                ..s
            },
            Some(PowerConfig { source_index: 0, on_now: true, start_on: false, stop_off: false }),
        )
    } else {
        let (source_index, on_now) = if s.target_c_vbus_en {
            (0usize, true)
        } else if s.control_vbus_en {
            (1usize, true)
        } else if s.aux_vbus_en {
            (2usize, true)
        } else {
            (0usize, false)
        };
        (s, Some(PowerConfig { source_index, on_now, start_on: false, stop_off: false }))
    }
}

/// Works out the power configuration of an analyzer being opened: none
/// before protocol 1.1; otherwise the one the register shows, or, where the
/// host has not yet taken power control, VBUS on from TARGET-C.
pub fn negotiate_power(state: State, protocol: u8, protocol_minor: u8) -> (r: (State, Option<PowerConfig>))
    ensures
        (r.0@, r.1) == spec_negotiate_power(state@, protocol, protocol_minor),
        vbus_exclusive(state@) ==> vbus_exclusive(r.0@),
        r.1 is Some && !state@.power_control_enable ==> vbus_exclusive(r.0@),
{
    let mut state = state;
    if !(protocol > 1 || (protocol == 1 && protocol_minor >= 1)) {
        state.set_power_control_enable(false);
        return (state, None);
    }
    let (source_index, on_now) = if !state.power_control_enable() {
        state.set_power_control_enable(true);
        state.set_target_c_vbus_en(true);
        state.set_control_vbus_en(false);
        state.set_aux_vbus_en(false);
        state.set_target_a_discharge(false);
        (0, true)
    } else if state.target_c_vbus_en() {
        (0, true)
    } else if state.control_vbus_en() {
        (1, true)
    } else if state.aux_vbus_en() {
        (2, true)
    } else {
        (0, false)
    };
    (state, Some(PowerConfig { source_index, on_now, start_on: false, stop_off: false }))
}

/// The ports that can source VBUS: none without power control; TARGET-C,
/// CONTROL and AUX from hardware revision 0.6; TARGET-C and HOST before.
pub fn power_sources(device_version: u16, power_supported: bool) -> (r: Option<&'static [&'static str]>)
    ensures
        r is None <==> !power_supported,
        power_supported && device_version >= 0x0006 ==> r->Some_0@.len() == 3 && r->Some_0@[0]@
            == "TARGET-C"@ && r->Some_0@[1]@ == "CONTROL"@ && r->Some_0@[2]@ == "AUX"@,
        power_supported && device_version < 0x0006 ==> r->Some_0@.len() == 2 && r->Some_0@[0]@
            == "TARGET-C"@ && r->Some_0@[1]@ == "HOST"@,
{
    if !power_supported {
        None
    } else if device_version >= 0x0006 {
        Some(&["TARGET-C", "CONTROL", "AUX"])
    } else {
        Some(&["TARGET-C", "HOST"])
    }
}

/// The hardware revision `(major, minor)` in a binary-coded device version.
pub fn hardware_revision(device_version: u16) -> (r: (u8, u8))
    ensures
        r.0 as int == device_version as int / 256,
        r.1 as int == device_version as int % 256,
{
    ((device_version / 256) as u8, (device_version % 256) as u8)
}

} // verus!
