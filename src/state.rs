//! The analyzer's bit-packed registers and the rules that change them.

use vstd::prelude::*;

use crate::usb::Speed;

verus! {

/// Whether bit `i` of `b` is set.
pub open spec fn bit(b: u8, i: u8) -> bool {
    (b >> i) & 1 == 1
}

/// The two-bit speed code held in bits 1 and 2 of `b`.
pub open spec fn speed_bits(b: u8) -> u8 {
    ((if bit(b, 1) { 1int } else { 0int }) + (if bit(b, 2) { 2int } else { 0int })) as u8
}

/// Setting or clearing bit `i` changes that bit alone.
proof fn lemma_set_clear_bit(b: u8, i: u8)
    by (bit_vector)
    requires
        i < 8,
    ensures
        forall|j: u8| j < 8 ==> #[trigger] bit(b | (1u8 << i), j) == (j == i || bit(b, j)),
        forall|j: u8| j < 8 ==> #[trigger] bit(b & !(1u8 << i), j) == (j != i && bit(b, j)),
{
}

/// Writing a speed code into bits 1 and 2 changes those bits alone.
proof fn lemma_set_speed_bits(b: u8, code: u8)
    by (bit_vector)
    requires
        code < 4,
    ensures
        forall|j: u8|
            j < 8 && j != 1 && j != 2 ==> #[trigger] bit((b & 0xF9u8) | (code << 1u8), j) == bit(b, j),
        bit((b & 0xF9u8) | (code << 1u8), 1) == (code & 1 == 1),
        bit((b & 0xF9u8) | (code << 1u8), 2) == (code & 2 == 2),
{
}

/// Returns `b` with bit `i` set to `v`.
fn with_bit(b: u8, i: u8, v: bool) -> (r: u8)
    requires
        i < 8,
    ensures
        forall|j: u8| j < 8 ==> #[trigger] bit(r, j) == if j == i { v } else { bit(b, j) },
{
    proof {
        lemma_set_clear_bit(b, i);
    }
    if v {
        b | (1u8 << i)
    } else {
        b & !(1u8 << i)
    }
}

/// The fields of the analyzer's state register.
pub struct StateView {
    pub enable: bool,
    pub speed: u8,
    pub target_c_vbus_en: bool,
    pub control_vbus_en: bool,
    pub aux_vbus_en: bool,
    pub target_a_discharge: bool,
    pub power_control_enable: bool,
}

/// The state register as its bits give it.
pub open spec fn state_view_of(b: u8) -> StateView {
    StateView {
        enable: bit(b, 0),
        speed: speed_bits(b),
        target_c_vbus_en: bit(b, 3),
        control_vbus_en: bit(b, 4),
        aux_vbus_en: bit(b, 5),
        target_a_discharge: bit(b, 6),
        power_control_enable: bit(b, 7),
    }
}

/// At most one of the three VBUS rails is switched on.
pub open spec fn vbus_exclusive(s: StateView) -> bool {
    !(s.target_c_vbus_en && s.control_vbus_en) && !(s.target_c_vbus_en && s.aux_vbus_en) && !(
    s.control_vbus_en && s.aux_vbus_en)
}

/// The analyzer's state register: bit 0 enables capture, bits 1 and 2 hold
/// the speed, bits 3 to 5 switch on VBUS on the TARGET-C, CONTROL and AUX
/// ports, bit 6 discharges TARGET-A and bit 7 hands power control to the
/// host.
#[derive(Clone, Copy, Debug, PartialEq, Eq, Structural)]
pub struct State(u8);

impl View for State {
    type V = StateView;

    closed spec fn view(&self) -> StateView {
        state_view_of(self.0)
    }
}

impl State {
    /// The register's raw bits.
    pub closed spec fn spec_bits(self) -> u8 {
        self.0
    }

    /// The register holding the given bits.
    pub fn from_bits(bits: u8) -> (r: State)
        ensures
            r.spec_bits() == bits,
            r@ == state_view_of(bits),
    {
        State(bits)
    }

    /// The register's raw bits.
    pub fn bits(&self) -> (r: u8)
        ensures
            r == self.spec_bits(),
            state_view_of(r) == self@,
    {
        self.0
    }

    pub fn enable(&self) -> (r: bool)
        ensures
            r == self@.enable,
    {
        let b = self.0;
        assert((b & 1u8) == ((b >> 0u8) & 1u8)) by (bit_vector);
        (b & 1) == 1
    }

    pub fn speed(&self) -> (r: Speed)
        ensures
            r == Speed::spec_from_code(self@.speed),
    {
        let b = self.0;
        assert(((b >> 1u8) & 3u8) == speed_bits(b)) by (bit_vector);
        Speed::from_code((self.0 >> 1u8) & 3u8)
    }

    pub fn target_c_vbus_en(&self) -> (r: bool)
        ensures
            r == self@.target_c_vbus_en,
    {
        ((self.0 >> 3u8) & 1) == 1
    }

    pub fn control_vbus_en(&self) -> (r: bool)
        ensures
            r == self@.control_vbus_en,
    {
        ((self.0 >> 4u8) & 1) == 1
    }

    pub fn aux_vbus_en(&self) -> (r: bool)
        ensures
            r == self@.aux_vbus_en,
    {
        ((self.0 >> 5u8) & 1) == 1
    }

    pub fn target_a_discharge(&self) -> (r: bool)
        ensures
            r == self@.target_a_discharge,
    {
        ((self.0 >> 6u8) & 1) == 1
    }

    pub fn power_control_enable(&self) -> (r: bool)
        ensures
            r == self@.power_control_enable,
    {
        ((self.0 >> 7u8) & 1) == 1
    }

    /// Sets bit `i` to `v`, leaving the others.
    fn set_bit(&mut self, i: u8, v: bool)
        requires
            i < 8,
        ensures
            forall|j: u8|
                j < 8 ==> #[trigger] bit(final(self).0, j) == if j == i {
                    v
                } else {
                    bit(old(self).0, j)
                },
    {
        self.0 = with_bit(self.0, i, v);
    }

    pub fn set_enable(&mut self, v: bool)
        ensures
            final(self)@ == (StateView { enable: v, ..old(self)@ }),
    {
        self.set_bit(0, v);
    }

    pub fn set_speed(&mut self, speed: Speed)
        ensures
            final(self)@ == (StateView { speed: speed.spec_code(), ..old(self)@ }),
    {
        let code = speed.code();
        let b = self.0;
        proof {
            lemma_set_speed_bits(b, code);
            assert((code & 1 == 1) == (code == 1 || code == 3)) by (bit_vector)
                requires
                    code < 4,
            ;
            assert((code & 2 == 2) == (code == 2 || code == 3)) by (bit_vector)
                requires
                    code < 4,
            ;
        }
        self.0 = (b & 0xF9u8) | (code << 1u8);
        proof {
            assert(bit(self.0, 0) == bit(b, 0));
            assert(bit(self.0, 3) == bit(b, 3));
            assert(bit(self.0, 4) == bit(b, 4));
            assert(bit(self.0, 5) == bit(b, 5));
            assert(bit(self.0, 6) == bit(b, 6));
            assert(bit(self.0, 7) == bit(b, 7));
        }
    }

    pub fn set_target_c_vbus_en(&mut self, v: bool)
        ensures
            final(self)@ == (StateView { target_c_vbus_en: v, ..old(self)@ }),
    {
        self.set_bit(3, v);
    }

    pub fn set_control_vbus_en(&mut self, v: bool)
        ensures
            final(self)@ == (StateView { control_vbus_en: v, ..old(self)@ }),
    {
        self.set_bit(4, v);
    }

    pub fn set_aux_vbus_en(&mut self, v: bool)
        ensures
            final(self)@ == (StateView { aux_vbus_en: v, ..old(self)@ }),
    {
        self.set_bit(5, v);
    }

    pub fn set_target_a_discharge(&mut self, v: bool)
        ensures
            final(self)@ == (StateView { target_a_discharge: v, ..old(self)@ }),
    {
        self.set_bit(6, v);
    }

    pub fn set_power_control_enable(&mut self, v: bool)
        ensures
            final(self)@ == (StateView { power_control_enable: v, ..old(self)@ }),
    {
        self.set_bit(7, v);
    }
}

/// The bits of the test device configuration for `speed`: bit 0 connects
/// the test device, bits 1 and 2 hold its speed.
pub open spec fn spec_test_config_bits(speed: Option<Speed>) -> u8 {
    match speed {
        Some(s) => (1 + 2 * s.spec_code()) as u8,
        None => 0,
    }
}

/// The configuration register of the analyzer's built-in test device.
#[derive(Clone, Copy, Debug, PartialEq, Eq, Structural)]
pub struct TestConfig(u8);

impl TestConfig {
    pub closed spec fn spec_bits(self) -> u8 {
        self.0
    }

    /// The configuration that connects the test device at `speed`, or
    /// disconnects it where `speed` is `None`.
    pub fn new(speed: Option<Speed>) -> (r: TestConfig)
        ensures
            r.spec_bits() == spec_test_config_bits(speed),
            bit(r.spec_bits(), 0) == speed is Some,
            speed is Some ==> speed_bits(r.spec_bits()) == speed->Some_0.spec_code(),
    {
        match speed {
            Some(speed) => {
                let code = speed.code();
                let b: u8 = 1u8 | (code << 1u8);
                assert(b == 1 + 2 * code && bit(b, 0) && bit(b, 1) == (code & 1 == 1) && bit(b, 2) == (code
                    & 2 == 2)) by (bit_vector)
                    requires
                        code < 4,
                        b == 1u8 | (code << 1u8),
                ;
                assert((code & 1 == 1) == (code == 1 || code == 3)) by (bit_vector)
                    requires
                        code < 4,
                ;
                assert((code & 2 == 2) == (code == 2 || code == 3)) by (bit_vector)
                    requires
                        code < 4,
                ;
                TestConfig(b)
            },
            None => {
                assert(!bit(0u8, 0)) by (bit_vector);
                TestConfig(0)
            },
        }
    }

    /// The register's raw bits.
    pub fn bits(&self) -> (r: u8)
        ensures
            r == self.spec_bits(),
    {
        self.0
    }
}

} // verus!
