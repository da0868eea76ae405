//! The host's copy of the analyzer's control state, and the rules by which
//! capture and power requests change it.

use vstd::prelude::*;

use crate::state::{state_view_of, vbus_exclusive, State, StateView};
use crate::usb::Speed;

verus! {

/// How the analyzer powers the target's VBUS.
#[derive(Clone, Copy, Debug, PartialEq, Eq, Structural)]
pub struct PowerConfig {
    /// The port that sources VBUS, as an index into the power sources.
    pub source_index: usize,
    /// Whether VBUS is on now.
    pub on_now: bool,
    /// Whether VBUS is switched on when a capture starts.
    pub start_on: bool,
    /// Whether VBUS is switched off when a capture stops.
    pub stop_off: bool,
}

/// The register with VBUS switched on at port `index` alone if `on`, or on
/// no port, discharging TARGET-A, if not.
pub open spec fn rails_set(s: StateView, index: usize, on: bool) -> StateView {
    StateView {
        target_c_vbus_en: on && index == 0,
        control_vbus_en: on && index == 1,
        aux_vbus_en: on && index == 2,
        target_a_discharge: !on,
        ..s
    }
}

/// The register and power configuration once a capture starts at `speed`.
pub open spec fn spec_start_capture(s: StateView, power: Option<PowerConfig>, speed: Speed) -> (
    StateView,
    Option<PowerConfig>,
) {
    let running = StateView { enable: true, speed: speed.spec_code(), ..s };
    match power {
        Some(p) => if p.start_on {
            (rails_set(running, p.source_index, true), Some(PowerConfig { on_now: true, ..p }))
        } else {
            (running, power)
        },
        None => (running, power),
    }
}

/// The register and power configuration once a capture stops.
pub open spec fn spec_stop_capture(s: StateView, power: Option<PowerConfig>) -> (
    StateView,
    Option<PowerConfig>,
) {
    let stopped = StateView { enable: false, ..s };
    match power {
        Some(p) => if p.stop_off {
            (rails_set(stopped, p.source_index, false), Some(PowerConfig { on_now: false, ..p }))
        } else {
            (stopped, power)
        },
        None => (stopped, power),
    }
}

/// The register once the host takes power control with configuration `p`.
pub open spec fn spec_set_power_config(s: StateView, p: PowerConfig) -> StateView {
    rails_set(StateView { power_control_enable: true, ..s }, p.source_index, p.on_now)
}

/// The state register as the host last wrote it, with the power
/// configuration that goes with it.
pub struct ControlState {
    state: State,
    power: Option<PowerConfig>,
}

impl ControlState {
    pub closed spec fn spec_state(&self) -> State {
        self.state
    }

    pub closed spec fn spec_power(&self) -> Option<PowerConfig> {
        self.power
    }

    /// The control state of a freshly opened analyzer.
    pub fn new(state: State, power: Option<PowerConfig>) -> (r: ControlState)
        ensures
            r.spec_state() == state,
            r.spec_power() == power,
    {
        ControlState { state, power }
    }

    /// The state register.
    pub fn state(&self) -> (r: State)
        ensures
            r == self.spec_state(),
    {
        self.state
    }

    /// The power configuration, if the analyzer supports power control.
    pub fn power(&self) -> (r: Option<PowerConfig>)
        ensures
            r == self.spec_power(),
    {
        self.power
    }

    /// Starts a capture at `speed`, switching VBUS on if the power
    /// configuration asks for it. Returns the register byte to write.
    pub fn start_capture(&mut self, speed: Speed) -> (r: u8)
        ensures
            (final(self).spec_state()@, final(self).spec_power()) == spec_start_capture(
                old(self).spec_state()@,
                old(self).spec_power(),
                speed,
            ),
            r == final(self).spec_state().spec_bits(),
            state_view_of(r) == final(self).spec_state()@,
            vbus_exclusive(old(self).spec_state()@) ==> vbus_exclusive(final(self).spec_state()@),
    {
        self.state.set_speed(speed);
        self.state.set_enable(true);
        match self.power {
            Some(p) => {
                if p.start_on {
                    let index = p.source_index;
                    self.state.set_target_c_vbus_en(index == 0);
                    self.state.set_control_vbus_en(index == 1);
                    self.state.set_aux_vbus_en(index == 2);
                    self.state.set_target_a_discharge(false);
                    self.power = Some(PowerConfig { on_now: true, ..p });
                }
            },
            None => {},
        }
        self.state.bits()
    }

    /// Stops a capture, switching VBUS off if the power configuration asks
    /// for it. Returns the register byte to write.
    pub fn stop_capture(&mut self) -> (r: u8)
        ensures
            (final(self).spec_state()@, final(self).spec_power()) == spec_stop_capture(
                old(self).spec_state()@,
                old(self).spec_power(),
            ),
            r == final(self).spec_state().spec_bits(),
            state_view_of(r) == final(self).spec_state()@,
            vbus_exclusive(old(self).spec_state()@) ==> vbus_exclusive(final(self).spec_state()@),
    {
        self.state.set_enable(false);
        match self.power {
            Some(p) => {
                if p.stop_off {
                    self.state.set_target_c_vbus_en(false);
                    self.state.set_control_vbus_en(false);
                    self.state.set_aux_vbus_en(false);
                    self.state.set_target_a_discharge(true);
                    self.power = Some(PowerConfig { on_now: false, ..p });
                }
            },
            None => {},
        }
        self.state.bits()
    }

    /// Takes power control and switches VBUS as `power` says. Returns the
    /// register byte to write.
    pub fn set_power_config(&mut self, power: PowerConfig) -> (r: u8)
        ensures
            final(self).spec_state()@ == spec_set_power_config(old(self).spec_state()@, power),
            final(self).spec_power() == Some(power),
            r == final(self).spec_state().spec_bits(),
            state_view_of(r) == final(self).spec_state()@,
            vbus_exclusive(final(self).spec_state()@),
    {
        let index = power.source_index;
        let on = power.on_now;
        self.state.set_power_control_enable(true);
        self.state.set_target_c_vbus_en(on && index == 0);
        self.state.set_control_vbus_en(on && index == 1);
        self.state.set_aux_vbus_en(on && index == 2);
        self.state.set_target_a_discharge(!on);
        self.power = Some(power);
        self.state.bits()
    }
}

/// A request that changes the state register.
pub enum ControlRequest {
    StartCapture(Speed),
    StopCapture,
    SetPowerConfig(PowerConfig),
}

/// The register and power configuration after a request.
pub open spec fn spec_apply(s: StateView, power: Option<PowerConfig>, req: ControlRequest) -> (
    StateView,
    Option<PowerConfig>,
) {
    match req {
        ControlRequest::StartCapture(speed) => spec_start_capture(s, power, speed),
        ControlRequest::StopCapture => spec_stop_capture(s, power),
        ControlRequest::SetPowerConfig(p) => (spec_set_power_config(s, p), Some(p)),
    }
}

/// The register written after each request of `reqs` in turn.
pub open spec fn spec_writes(s: StateView, power: Option<PowerConfig>, reqs: Seq<ControlRequest>) -> Seq<
    StateView,
>
    decreases reqs.len(),
{
    if reqs.len() == 0 {
        seq![]
    } else {
        let (s1, p1) = spec_apply(s, power, reqs[0]);
        seq![s1] + spec_writes(s1, p1, reqs.drop_first())
    }
}

/// From a register with at most one VBUS rail on, every register written
/// by any sequence of capture and power requests has at most one rail on.
pub proof fn lemma_writes_keep_vbus_exclusive(
    s: StateView,
    power: Option<PowerConfig>,
    reqs: Seq<ControlRequest>,
)
    requires
        vbus_exclusive(s),
    ensures
        spec_writes(s, power, reqs).len() == reqs.len(),
        forall|i: int| 0 <= i < reqs.len() ==> vbus_exclusive(#[trigger] spec_writes(s, power, reqs)[i]),
    decreases reqs.len(),
{
    if reqs.len() > 0 {
        let (s1, p1) = spec_apply(s, power, reqs[0]);
        lemma_writes_keep_vbus_exclusive(s1, p1, reqs.drop_first());
        let w = spec_writes(s, power, reqs);
        assert(w == seq![s1] + spec_writes(s1, p1, reqs.drop_first()));
        assert forall|i: int| 0 <= i < reqs.len() implies vbus_exclusive(#[trigger] w[i]) by {
            if i > 0 {
                assert(w[i] == spec_writes(s1, p1, reqs.drop_first())[i - 1]);
            }
        }
    }
}

} // verus!
