//! The USB packet identifiers and the packet validator.

use vstd::prelude::*;

verus! {

/// The speed of a USB link, as the analyzer's state register encodes it.
#[derive(Clone, Copy, Debug, PartialEq, Eq, Structural)]
pub enum Speed {
    High,
    Full,
    Low,
    Auto,
}

impl Speed {
    /// The speed that a two-bit register code stands for.
    pub open spec fn spec_from_code(code: u8) -> Speed {
        if code == 1 {
            Speed::Full
        } else if code == 2 {
            Speed::Low
        } else if code == 3 {
            Speed::Auto
        } else {
            Speed::High
        }
    }

    /// The register code of a speed.
    pub open spec fn spec_code(self) -> u8 {
        match self {
            Speed::High => 0,
            Speed::Full => 1,
            Speed::Low => 2,
            Speed::Auto => 3,
        }
    }

    /// The bit of a speed in the analyzer's bitmap of supported speeds.
    pub open spec fn spec_mask(self) -> u8 {
        match self {
            Speed::Auto => 0b0001,
            Speed::Low => 0b0010,
            Speed::Full => 0b0100,
            Speed::High => 0b1000,
        }
    }

    /// The speed for a register code; codes other than 0 to 3 give `High`.
    pub fn from_code(code: u8) -> (r: Speed)
        ensures
            r == Self::spec_from_code(code),
    {
        match code {
            1 => Speed::Full,
            2 => Speed::Low,
            3 => Speed::Auto,
            _ => Speed::High,
        }
    }

    /// The register code of this speed.
    pub fn code(&self) -> (r: u8)
        ensures
            r == self.spec_code(),
            r < 4,
            Self::spec_from_code(r) == *self,
    {
        match self {
            Speed::High => 0,
            Speed::Full => 1,
            Speed::Low => 2,
            Speed::Auto => 3,
        }
    }

    /// The bit of this speed in the bitmap of supported speeds.
    pub fn mask(&self) -> (r: u8)
        ensures
            r == self.spec_mask(),
    {
        match self {
            Speed::Auto => 0b0001,
            Speed::Low => 0b0010,
            Speed::Full => 0b0100,
            Speed::High => 0b1000,
        }
    }

    /// How this speed setting should be displayed.
    pub fn description(&self) -> (r: &'static str)
        ensures
            *self == Speed::Auto ==> r@ == "Auto"@,
            *self == Speed::High ==> r@ == "High (480Mbps)"@,
            *self == Speed::Full ==> r@ == "Full (12Mbps)"@,
            *self == Speed::Low ==> r@ == "Low (1.5Mbps)"@,
    {
        match self {
            Speed::Auto => "Auto",
            Speed::High => "High (480Mbps)",
            Speed::Full => "Full (12Mbps)",
            Speed::Low => "Low (1.5Mbps)",
        }
    }
}

impl From<u8> for Speed {
    fn from(code: u8) -> (r: Speed) {
        Speed::from_code(code)
    }
}

impl vstd::std_specs::convert::FromSpecImpl<u8> for Speed {
    open spec fn obeys_from_spec() -> bool {
        true
    }

    open spec fn from_spec(code: u8) -> Speed {
        Speed::spec_from_code(code)
    }
}

/// A USB packet identifier: the first byte of a packet.
#[allow(non_camel_case_types)]
#[derive(Clone, Copy, Debug, Default, PartialEq, Eq, Structural)]
pub enum PID {
    RSVD,
    OUT,
    ACK,
    DATA0,
    PING,
    SOF,
    NYET,
    DATA2,
    SPLIT,
    IN,
    NAK,
    DATA1,
    ERR,
    SETUP,
    STALL,
    MDATA,
    #[default]
    Malformed,
}

impl PID {
    /// The identifier that a byte stands for; bytes outside the table give
    /// `Malformed`.
    pub open spec fn spec_from_byte(b: u8) -> PID {
        if b == 0xF0 {
            PID::RSVD
        } else if b == 0xE1 {
            PID::OUT
        } else if b == 0xD2 {
            PID::ACK
        } else if b == 0xC3 {
            PID::DATA0
        } else if b == 0xB4 {
            PID::PING
        } else if b == 0xA5 {
            PID::SOF
        } else if b == 0x96 {
            PID::NYET
        } else if b == 0x87 {
            PID::DATA2
        } else if b == 0x78 {
            PID::SPLIT
        } else if b == 0x69 {
            PID::IN
        } else if b == 0x5A {
            PID::NAK
        } else if b == 0x4B {
            PID::DATA1
        } else if b == 0x3C {
            PID::ERR
        } else if b == 0x2D {
            PID::SETUP
        } else if b == 0x1E {
            PID::STALL
        } else if b == 0x0F {
            PID::MDATA
        } else {
            PID::Malformed
        }
    }

    /// The byte of an identifier.
    pub open spec fn spec_byte(self) -> u8 {
        match self {
            PID::RSVD => 0xF0,
            PID::OUT => 0xE1,
            PID::ACK => 0xD2,
            PID::DATA0 => 0xC3,
            PID::PING => 0xB4,
            PID::SOF => 0xA5,
            PID::NYET => 0x96,
            PID::DATA2 => 0x87,
            PID::SPLIT => 0x78,
            PID::IN => 0x69,
            PID::NAK => 0x5A,
            PID::DATA1 => 0x4B,
            PID::ERR => 0x3C,
            PID::SETUP => 0x2D,
            PID::STALL => 0x1E,
            PID::MDATA => 0x0F,
            PID::Malformed => 0x00,
        }
    }

    /// The identifier for a packet's first byte.
    pub fn from_byte(b: u8) -> (r: PID)
        ensures
            r == Self::spec_from_byte(b),
    {
        match b {
            0xF0 => PID::RSVD,
            0xE1 => PID::OUT,
            0xD2 => PID::ACK,
            0xC3 => PID::DATA0,
            0xB4 => PID::PING,
            0xA5 => PID::SOF,
            0x96 => PID::NYET,
            0x87 => PID::DATA2,
            0x78 => PID::SPLIT,
            0x69 => PID::IN,
            0x5A => PID::NAK,
            0x4B => PID::DATA1,
            0x3C => PID::ERR,
            0x2D => PID::SETUP,
            0x1E => PID::STALL,
            0x0F => PID::MDATA,
            _ => PID::Malformed,
        }
    }

    /// The byte of this identifier.
    pub fn byte(&self) -> (r: u8)
        ensures
            r == self.spec_byte(),
            Self::spec_from_byte(r) == *self,
    {
        match self {
            PID::RSVD => 0xF0,
            PID::OUT => 0xE1,
            PID::ACK => 0xD2,
            PID::DATA0 => 0xC3,
            PID::PING => 0xB4,
            PID::SOF => 0xA5,
            PID::NYET => 0x96,
            PID::DATA2 => 0x87,
            PID::SPLIT => 0x78,
            PID::IN => 0x69,
            PID::NAK => 0x5A,
            PID::DATA1 => 0x4B,
            PID::ERR => 0x3C,
            PID::SETUP => 0x2D,
            PID::STALL => 0x1E,
            PID::MDATA => 0x0F,
            PID::Malformed => 0x00,
        }
    }

    /// The name of this identifier, as it is written in the USB standard.
    pub fn name(&self) -> (r: &'static str)
        ensures
            *self == PID::IN ==> r@ == "IN"@,
            *self == PID::Malformed ==> r@ == "Malformed"@,
    {
        match self {
            PID::RSVD => "RSVD",
            PID::OUT => "OUT",
            PID::ACK => "ACK",
            PID::DATA0 => "DATA0",
            PID::PING => "PING",
            PID::SOF => "SOF",
            PID::NYET => "NYET",
            PID::DATA2 => "DATA2",
            PID::SPLIT => "SPLIT",
            PID::IN => "IN",
            PID::NAK => "NAK",
            PID::DATA1 => "DATA1",
            PID::ERR => "ERR",
            PID::SETUP => "SETUP",
            PID::STALL => "STALL",
            PID::MDATA => "MDATA",
            PID::Malformed => "Malformed",
        }
    }
}

impl From<u8> for PID {
    fn from(b: u8) -> (r: PID) {
        PID::from_byte(b)
    }
}

impl vstd::std_specs::convert::FromSpecImpl<u8> for PID {
    open spec fn obeys_from_spec() -> bool {
        true
    }

    open spec fn from_spec(b: u8) -> PID {
        PID::spec_from_byte(b)
    }
}

/// The shift register of the USB CRC-5 after feeding it `num_bits` bits of
/// `input`, least significant first, starting from `state`.
pub open spec fn crc5_register(input: u32, num_bits: nat, state: u32) -> u32
    decreases num_bits,
{
    if num_bits == 0 {
        state
    } else {
        let feedback = (input & 1) != (state & 1);
        let shifted = state >> 1;
        crc5_register(input >> 1, (num_bits - 1) as nat, if feedback { shifted ^ 0x14 } else { shifted })
    }
}

/// The USB CRC-5 of the low `num_bits` bits of `input`.
pub open spec fn spec_crc5(input: u32, num_bits: u32) -> u8 {
    (crc5_register(input, num_bits as nat, 0x1f) ^ 0x1f) as u8
}

/// Computes the USB CRC-5 over the low `num_bits` bits of `input`, least
/// significant bit first.
pub fn crc5(input: u32, num_bits: u32) -> (r: u8)
    ensures
        r == spec_crc5(input, num_bits),
{
    let ghost target = crc5_register(input, num_bits as nat, 0x1f);
    let mut input = input;
    let mut state: u32 = 0x1f;
    let mut i: u32 = 0;
    while i < num_bits
        invariant
            i <= num_bits,
            crc5_register(input, (num_bits - i) as nat, state) == target,
        decreases num_bits - i,
    {
        let cmp = (input & 1) != (state & 1);
        input = input >> 1;
        state = state >> 1;
        if cmp {
            state = state ^ 0x14;
        }
        i = i + 1;
    }
    (state ^ 0x1f) as u8
}

/// The CRC-16/USB checksum of a byte sequence.
pub uninterp spec fn crc16_usb(bytes: Seq<u8>) -> u16;

/// Relies on `crc::Crc::<u16>::checksum` with the `CRC_16_USB` algorithm:
/// the checksum depends on the bytes alone.
#[verifier::external_body]
fn crc16(bytes: &[u8]) -> (r: u16)
    ensures
        r == crc16_usb(bytes@),
{
    crc::Crc::<u16>::new(&crc::CRC_16_USB).checksum(bytes)
}

/// Token identifiers: three bytes, with an 11-bit payload under CRC-5.
pub open spec fn is_token(pid: PID) -> bool {
    pid == PID::SOF || pid == PID::SETUP || pid == PID::IN || pid == PID::OUT || pid == PID::PING
}

/// Data identifiers: a payload under CRC-16.
pub open spec fn is_data(pid: PID) -> bool {
    pid == PID::DATA0 || pid == PID::DATA1 || pid == PID::DATA2 || pid == PID::MDATA
}

/// Handshake identifiers: a single byte.
pub open spec fn is_handshake(pid: PID) -> bool {
    pid == PID::ACK || pid == PID::NAK || pid == PID::NYET || pid == PID::STALL || pid == PID::ERR
}

/// The 11 payload bits of a token: the second byte, then the low three bits
/// of the third.
pub open spec fn token_payload(b1: u8, b2: u8) -> u32 {
    (b1 as int + (b2 % 8) as int * 0x100) as u32
}

/// The 19 payload bits of a SPLIT packet: the second and third bytes, then
/// the low three bits of the fourth.
pub open spec fn split_payload(b1: u8, b2: u8, b3: u8) -> u32 {
    (b1 as int + b2 as int * 0x100 + (b3 % 8) as int * 0x1_0000) as u32
}

/// A little-endian 16-bit value.
pub open spec fn le_u16(lo: u8, hi: u8) -> u16 {
    (lo as int + hi as int * 0x100) as u16
}

/// Whether a packet, of at least one byte, is well formed for its
/// identifier, where `data_crc` is the CRC-16 of what a data packet holds
/// between its identifier and its last two bytes.
pub open spec fn packet_is_valid(p: Seq<u8>, data_crc: u16) -> bool {
    let pid = PID::spec_from_byte(p[0]);
    let len = p.len();
    if is_token(pid) {
        len == 3 && p[2] / 8 == spec_crc5(token_payload(p[1], p[2]), 11)
    } else if pid == PID::SPLIT {
        len == 4 && p[3] / 8 == spec_crc5(split_payload(p[1], p[2], p[3]), 19)
    } else if is_data(pid) {
        3 <= len <= 1027 && le_u16(p[len - 2], p[len - 1]) == data_crc
    } else if is_handshake(pid) {
        len == 1
    } else {
        false
    }
}

/// The outcome of validating a packet, given the CRC-16 of its data payload.
pub open spec fn spec_classify_packet(p: Seq<u8>, data_crc: u16) -> Result<PID, Option<PID>> {
    if p.len() == 0 {
        Err(None)
    } else if packet_is_valid(p, data_crc) {
        Ok(PID::spec_from_byte(p[0]))
    } else {
        Err(Some(PID::spec_from_byte(p[0])))
    }
}

/// The CRC-16/USB of what a packet holds between its first byte and its last
/// two bytes.
pub open spec fn data_crc_of(p: Seq<u8>) -> u16 {
    if p.len() >= 3 {
        crc16_usb(p.subrange(1, p.len() - 2))
    } else {
        0
    }
}

/// The outcome of validating a packet.
pub open spec fn spec_validate_packet(p: Seq<u8>) -> Result<PID, Option<PID>> {
    spec_classify_packet(p, data_crc_of(p))
}

/// Validates a packet against the length and check rules of its identifier,
/// given the CRC-16/USB of its data payload (used for data packets only):
/// `Ok` with the identifier if it is valid, `Err(Some(..))` with the
/// identifier if not, `Err(None)` for an empty packet.
pub fn classify_packet(packet: &[u8], data_crc: u16) -> (r: Result<PID, Option<PID>>)
    ensures
        r == spec_classify_packet(packet@, data_crc),
{
    let len = packet.len();
    if len == 0 {
        return Err(None);
    }
    let pid = PID::from_byte(packet[0]);
    let valid = match pid {
        PID::SOF | PID::SETUP | PID::IN | PID::OUT | PID::PING => {
            if len == 3 {
                let data: u32 = packet[1] as u32 + (packet[2] % 8) as u32 * 0x100;
                let crc = packet[2] / 8;
                crc == crc5(data, 11)
            } else {
                false
            }
        },
        PID::SPLIT => {
            if len == 4 {
                let data: u32 = packet[1] as u32 + packet[2] as u32 * 0x100 + (packet[3] % 8) as u32
                    * 0x1_0000;
                let crc = packet[3] / 8;
                crc == crc5(data, 19)
            } else {
                false
            }
        },
        PID::DATA0 | PID::DATA1 | PID::DATA2 | PID::MDATA => {
            if 3 <= len && len <= 1027 {
                let crc: u16 = packet[len - 2] as u16 + packet[len - 1] as u16 * 0x100;
                crc == data_crc
            } else {
                false
            }
        },
        PID::ACK | PID::NAK | PID::NYET | PID::STALL | PID::ERR => len == 1,
        _ => false,
    };
    if valid {
        Ok(pid)
    } else {
        Err(Some(pid))
    }
}

/// Validates a packet: `Ok` with its identifier if it is well formed,
/// `Err(Some(..))` with its identifier if not, `Err(None)` if it is empty.
pub fn validate_packet(packet: &[u8]) -> (r: Result<PID, Option<PID>>)
    ensures
        r == spec_validate_packet(packet@),
{
    let len = packet.len();
    let data_crc = if len >= 3 && len <= 1027 {
        let pid = PID::from_byte(packet[0]);
        match pid {
            PID::DATA0 | PID::DATA1 | PID::DATA2 | PID::MDATA => crc16(&packet[1..len - 2]),
            _ => 0,
        }
    } else {
        0
    };
    classify_packet(packet, data_crc)
}

/// A token or SPLIT packet is accepted exactly when the CRC-5 it carries
/// matches the CRC-5 computed over its payload bits.
pub proof fn lemma_crc5_packets_accepted_iff_crc_matches(p: Seq<u8>)
    requires
        p.len() > 0,
        is_token(PID::spec_from_byte(p[0])) || PID::spec_from_byte(p[0]) == PID::SPLIT,
    ensures
        is_token(PID::spec_from_byte(p[0])) && p.len() == 3 ==> (spec_validate_packet(p) is Ok <==> p[2]
            / 8 == spec_crc5(token_payload(p[1], p[2]), 11)),
        PID::spec_from_byte(p[0]) == PID::SPLIT && p.len() == 4 ==> (spec_validate_packet(p) is Ok
            <==> p[3] / 8 == spec_crc5(split_payload(p[1], p[2], p[3]), 19)),
        is_token(PID::spec_from_byte(p[0])) && p.len() != 3 ==> spec_validate_packet(p) == Err::<
            PID,
            Option<PID>,
        >(Some(PID::spec_from_byte(p[0]))),
        PID::spec_from_byte(p[0]) == PID::SPLIT && p.len() != 4 ==> spec_validate_packet(p) == Err::<
            PID,
            Option<PID>,
        >(Some(PID::SPLIT)),
{
}

} // verus!
