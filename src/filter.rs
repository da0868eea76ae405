//! Picking data packets out of a capture: the consumer-side filter that
//! waits for a data packet of a given direction, identifier and payload
//! prefix, and the parsing of its textual options.

use vstd::prelude::*;
use vstd::string::StringSliceAdditionalSpecFns;

use crate::usb::{is_data, validate_packet, Speed, PID};

verus! {

/// The direction of the data packets to wait for.
#[derive(Clone, Copy, Debug, PartialEq, Eq, Structural)]
pub enum Direction {
    Any,
    In,
    Out,
}

/// An ASCII byte in lower case; other bytes are unchanged.
pub open spec fn ascii_lower(b: u8) -> u8 {
    if 0x41 <= b <= 0x5A {
        (b + 0x20) as u8
    } else {
        b
    }
}

/// Whether `name` spells `word` (given in lower case), ignoring ASCII case.
pub open spec fn spells(name: Seq<u8>, word: Seq<u8>) -> bool {
    name.len() == word.len() && forall|i: int| 0 <= i < name.len() ==> ascii_lower(#[trigger] name[i]) == word[i]
}

/// Compares `name` with the lower-case `word`, ignoring ASCII case.
fn spells_word(name: &[u8], word: &[u8]) -> (r: bool)
    ensures
        r == spells(name@, word@),
{
    if name.len() != word.len() {
        return false;
    }
    let mut i: usize = 0;
    while i < name.len()
        invariant
            i <= name@.len(),
            name@.len() == word@.len(),
            forall|j: int| 0 <= j < i ==> ascii_lower(#[trigger] name@[j]) == word@[j],
        decreases name@.len() - i,
    {
        let b = name[i];
        let lower = if 0x41 <= b && b <= 0x5A {
            b + 0x20
        } else {
            b
        };
        if lower != word[i] {
            return false;
        }
        i = i + 1;
    }
    true
}

pub open spec fn word_auto() -> Seq<u8> {
    seq![0x61u8, 0x75, 0x74, 0x6f]
}

pub open spec fn word_high() -> Seq<u8> {
    seq![0x68u8, 0x69, 0x67, 0x68]
}

pub open spec fn word_hs() -> Seq<u8> {
    seq![0x68u8, 0x73]
}

pub open spec fn word_full() -> Seq<u8> {
    seq![0x66u8, 0x75, 0x6c, 0x6c]
}

pub open spec fn word_fs() -> Seq<u8> {
    seq![0x66u8, 0x73]
}

pub open spec fn word_low() -> Seq<u8> {
    seq![0x6cu8, 0x6f, 0x77]
}

pub open spec fn word_ls() -> Seq<u8> {
    seq![0x6cu8, 0x73]
}

/// The speed that a name stands for: "auto", "high" or "hs", "full" or
/// "fs", "low" or "ls", in any ASCII case.
pub open spec fn spec_parse_speed(name: Seq<u8>) -> Option<Speed> {
    if spells(name, word_auto()) {
        Some(Speed::Auto)
    } else if spells(name, word_high()) || spells(name, word_hs()) {
        Some(Speed::High)
    } else if spells(name, word_full()) || spells(name, word_fs()) {
        Some(Speed::Full)
    } else if spells(name, word_low()) || spells(name, word_ls()) {
        Some(Speed::Low)
    } else {
        None
    }
}

/// Reads a speed name; `None` where it is none of the known ones.
pub fn parse_speed(name: &str) -> (r: Option<Speed>)
    ensures
        r == spec_parse_speed(name.spec_bytes()),
{
    let b = name.as_bytes();
    let auto: [u8; 4] = [0x61, 0x75, 0x74, 0x6f];
    let high: [u8; 4] = [0x68, 0x69, 0x67, 0x68];
    let hs: [u8; 2] = [0x68, 0x73];
    let full: [u8; 4] = [0x66, 0x75, 0x6c, 0x6c];
    let fs: [u8; 2] = [0x66, 0x73];
    let low: [u8; 3] = [0x6c, 0x6f, 0x77];
    let ls: [u8; 2] = [0x6c, 0x73];
    assert(auto@ == word_auto() && high@ == word_high() && hs@ == word_hs() && full@ == word_full()
        && fs@ == word_fs() && low@ == word_low() && ls@ == word_ls());
    if spells_word(b, &auto) {
        Some(Speed::Auto)
    } else if spells_word(b, &high) || spells_word(b, &hs) {
        Some(Speed::High)
    } else if spells_word(b, &full) || spells_word(b, &fs) {
        Some(Speed::Full)
    } else if spells_word(b, &low) || spells_word(b, &ls) {
        Some(Speed::Low)
    } else {
        None
    }
}

pub open spec fn word_any() -> Seq<u8> {
    seq![0x61u8, 0x6e, 0x79]
}

pub open spec fn word_in() -> Seq<u8> {
    seq![0x69u8, 0x6e]
}

pub open spec fn word_incoming() -> Seq<u8> {
    seq![0x69u8, 0x6e, 0x63, 0x6f, 0x6d, 0x69, 0x6e, 0x67]
}

pub open spec fn word_out() -> Seq<u8> {
    seq![0x6fu8, 0x75, 0x74]
}

pub open spec fn word_outgoing() -> Seq<u8> {
    seq![0x6fu8, 0x75, 0x74, 0x67, 0x6f, 0x69, 0x6e, 0x67]
}

/// The direction that a name stands for: "any", "in" or "incoming", "out"
/// or "outgoing", in any ASCII case.
pub open spec fn spec_parse_direction(name: Seq<u8>) -> Option<Direction> {
    if spells(name, word_any()) {
        Some(Direction::Any)
    } else if spells(name, word_in()) || spells(name, word_incoming()) {
        Some(Direction::In)
    } else if spells(name, word_out()) || spells(name, word_outgoing()) {
        Some(Direction::Out)
    } else {
        None
    }
}

/// Reads a direction name; `None` where it is none of the known ones.
pub fn parse_direction(name: &str) -> (r: Option<Direction>)
    ensures
        r == spec_parse_direction(name.spec_bytes()),
{
    let b = name.as_bytes();
    let any: [u8; 3] = [0x61, 0x6e, 0x79];
    let inw: [u8; 2] = [0x69, 0x6e];
    let incoming: [u8; 8] = [0x69, 0x6e, 0x63, 0x6f, 0x6d, 0x69, 0x6e, 0x67];
    let out: [u8; 3] = [0x6f, 0x75, 0x74];
    let outgoing: [u8; 8] = [0x6f, 0x75, 0x74, 0x67, 0x6f, 0x69, 0x6e, 0x67];
    assert(any@ == word_any() && inw@ == word_in() && incoming@ == word_incoming() && out@ == word_out()
        && outgoing@ == word_outgoing());
    if spells_word(b, &any) {
        Some(Direction::Any)
    } else if spells_word(b, &inw) || spells_word(b, &incoming) {
        Some(Direction::In)
    } else if spells_word(b, &out) || spells_word(b, &outgoing) {
        Some(Direction::Out)
    } else {
        None
    }
}

pub open spec fn word_data0() -> Seq<u8> {
    seq![0x64u8, 0x61, 0x74, 0x61, 0x30]
}

pub open spec fn word_data1() -> Seq<u8> {
    seq![0x64u8, 0x61, 0x74, 0x61, 0x31]
}

pub open spec fn word_data2() -> Seq<u8> {
    seq![0x64u8, 0x61, 0x74, 0x61, 0x32]
}

pub open spec fn word_mdata() -> Seq<u8> {
    seq![0x6du8, 0x64, 0x61, 0x74, 0x61]
}

/// The data identifier that a name stands for: "data0", "data1", "data2"
/// or "mdata", in any ASCII case.
pub open spec fn spec_parse_data_pid(name: Seq<u8>) -> Option<PID> {
    if spells(name, word_data0()) {
        Some(PID::DATA0)
    } else if spells(name, word_data1()) {
        Some(PID::DATA1)
    } else if spells(name, word_data2()) {
        Some(PID::DATA2)
    } else if spells(name, word_mdata()) {
        Some(PID::MDATA)
    } else {
        None
    }
}

/// Reads a data identifier name; `None` where it is none of the known ones.
pub fn parse_data_pid(name: &str) -> (r: Option<PID>)
    ensures
        r == spec_parse_data_pid(name.spec_bytes()),
{
    let b = name.as_bytes();
    let data0: [u8; 5] = [0x64, 0x61, 0x74, 0x61, 0x30];
    let data1: [u8; 5] = [0x64, 0x61, 0x74, 0x61, 0x31];
    let data2: [u8; 5] = [0x64, 0x61, 0x74, 0x61, 0x32];
    let mdata: [u8; 5] = [0x6d, 0x64, 0x61, 0x74, 0x61];
    assert(data0@ == word_data0() && data1@ == word_data1() && data2@ == word_data2() && mdata@
        == word_mdata());
    if spells_word(b, &data0) {
        Some(PID::DATA0)
    } else if spells_word(b, &data1) {
        Some(PID::DATA1)
    } else if spells_word(b, &data2) {
        Some(PID::DATA2)
    } else if spells_word(b, &mdata) {
        Some(PID::MDATA)
    } else {
        None
    }
}

/// The identifier of a packet, valid or not; `None` for an empty packet.
pub open spec fn spec_packet_pid(bytes: Seq<u8>) -> Option<PID> {
    if bytes.len() == 0 {
        None
    } else {
        Some(PID::spec_from_byte(bytes[0]))
    }
}

/// The identifier of a packet as the validator reports it, whether or not
/// the packet is valid.
pub fn packet_pid(bytes: &[u8]) -> (r: Option<PID>)
    ensures
        r == spec_packet_pid(bytes@),
{
    match validate_packet(bytes) {
        Ok(pid) => Some(pid),
        Err(Some(pid)) => Some(pid),
        Err(None) => None,
    }
}

/// Whether an identifier is that of a data packet.
pub fn is_data_pid(pid: PID) -> (r: bool)
    ensures
        r == is_data(pid),
{
    match pid {
        PID::DATA0 | PID::DATA1 | PID::DATA2 | PID::MDATA => true,
        _ => false,
    }
}

/// The payload of a data packet: what lies between its identifier and its
/// CRC-16; `None` where the packet is shorter than three bytes.
pub fn payload_from_data_packet(bytes: &[u8]) -> (r: Option<&[u8]>)
    ensures
        bytes@.len() < 3 <==> r is None,
        r is Some ==> r->Some_0@ == bytes@.subrange(1, bytes@.len() - 2),
{
    if bytes.len() < 3 {
        None
    } else {
        Some(&bytes[1..bytes.len() - 2])
    }
}

/// Whether `prefix` begins `s`.
pub open spec fn starts_with(s: Seq<u8>, prefix: Seq<u8>) -> bool {
    prefix.len() <= s.len() && s.subrange(0, prefix.len() as int) == prefix
}

fn slice_starts_with(s: &[u8], prefix: &[u8]) -> (r: bool)
    ensures
        r == starts_with(s@, prefix@),
{
    if prefix.len() > s.len() {
        return false;
    }
    let mut i: usize = 0;
    while i < prefix.len()
        invariant
            i <= prefix@.len(),
            prefix@.len() <= s@.len(),
            forall|j: int| 0 <= j < i ==> s@[j] == prefix@[j],
        decreases prefix@.len() - i,
    {
        if s[i] != prefix[i] {
            assert(s@.subrange(0, prefix@.len() as int)[i as int] != prefix@[i as int]);
            return false;
        }
        i = i + 1;
    }
    assert(s@.subrange(0, prefix@.len() as int) =~= prefix@);
    true
}

/// What the filter waits for: a data packet in `direction`, with the
/// identifier `data_pid` if one is given, whose payload begins with
/// `pattern`.
pub struct PacketFilter {
    pub direction: Direction,
    pub pattern: Vec<u8>,
    pub data_pid: Option<PID>,
}

/// The filter's decision on one packet: whether it is the packet waited
/// for, and the direction of the last IN or OUT token seen after it.
///
/// Until a token has been seen, a data packet of either direction may match.
pub open spec fn spec_offer(
    direction: Direction,
    pattern: Seq<u8>,
    data_pid: Option<PID>,
    last: Option<Direction>,
    bytes: Seq<u8>,
) -> (bool, Option<Direction>) {
    match spec_packet_pid(bytes) {
        None => (false, last),
        Some(pid) => if pid == PID::IN {
            (false, Some(Direction::In))
        } else if pid == PID::OUT {
            (false, Some(Direction::Out))
        } else if !is_data(pid) {
            (false, last)
        } else if direction != Direction::Any && last is Some && last->Some_0 != direction {
            (false, last)
        } else if data_pid is Some && data_pid->Some_0 != pid {
            (false, last)
        } else if bytes.len() < 3 {
            (false, last)
        } else {
            (starts_with(bytes.subrange(1, bytes.len() - 2), pattern), last)
        },
    }
}

/// A filter in use: what it waits for, and the direction of the last token
/// it saw.
pub struct PacketMatcher {
    filter: PacketFilter,
    last_token_direction: Option<Direction>,
}

impl PacketMatcher {
    pub closed spec fn spec_filter(&self) -> PacketFilter {
        self.filter
    }

    pub closed spec fn spec_last_token_direction(&self) -> Option<Direction> {
        self.last_token_direction
    }

    /// A matcher that has seen no packet yet.
    pub fn new(filter: PacketFilter) -> (r: PacketMatcher)
        ensures
            r.spec_filter() == filter,
            r.spec_last_token_direction() is None,
    {
        PacketMatcher { filter, last_token_direction: None }
    }

    /// Looks at the next captured packet; `true` where it is the one waited for.
    pub fn offer(&mut self, bytes: &[u8]) -> (r: bool)
        ensures
            final(self).spec_filter() == old(self).spec_filter(),
            (r, final(self).spec_last_token_direction()) == spec_offer(
                old(self).spec_filter().direction,
                old(self).spec_filter().pattern@,
                old(self).spec_filter().data_pid,
                old(self).spec_last_token_direction(),
                bytes@,
            ),
    {
        let pid = match packet_pid(bytes) {
            Some(pid) => pid,
            None => return false,
        };
        if pid == PID::IN {
            self.last_token_direction = Some(Direction::In);
            return false;
        }
        if pid == PID::OUT {
            self.last_token_direction = Some(Direction::Out);
            return false;
        }
        if !is_data_pid(pid) {
            return false;
        }
        if self.filter.direction != Direction::Any {
            match self.last_token_direction {
                Some(observed) => {
                    if observed != self.filter.direction {
                        return false;
                    }
                },
                None => {},
            }
        }
        match self.filter.data_pid {
            Some(expected) => {
                if expected != pid {
                    return false;
                }
            },
            None => {},
        }
        let payload = match payload_from_data_packet(bytes) {
            Some(payload) => payload,
            None => return false,
        };
        slice_starts_with(payload, self.filter.pattern.as_slice())
    }
}

} // verus!
