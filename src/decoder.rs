//! Decoder of the analyzer's bulk stream into timestamped events.
//!
//! Each frame starts with a four-byte header: a big-endian 16-bit length and
//! a big-endian 16-bit count of clock cycles since the previous frame. A
//! length whose high byte is `0xFF` marks an event frame, whose low byte is
//! the event code and which carries nothing more. Any other length is the
//! size of the packet that follows the header; a packet of odd length is
//! followed by one padding byte.

use std::collections::VecDeque;

use vstd::prelude::*;

use crate::clock::{clk_ns, clk_to_ns};
use crate::event::{opt_event_view, EventType, EventView, TimestampedEvent};

verus! {

/// The state of a decoder: the bytes received and not yet decoded, whether
/// a padding byte is still to be skipped, and the cycle count so far.
pub struct DecoderView {
    pub buffer: Seq<u8>,
    pub padding_due: bool,
    pub total_clk_cycles: u64,
}

impl DecoderView {
    /// The decoder before any byte has arrived.
    pub open spec fn initial() -> DecoderView {
        DecoderView { buffer: Seq::empty(), padding_due: false, total_clk_cycles: 0 }
    }

    /// This state with `bytes` received after what it holds.
    pub open spec fn append(self, bytes: Seq<u8>) -> DecoderView {
        DecoderView {
            buffer: self.buffer + bytes,
            padding_due: self.padding_due,
            total_clk_cycles: self.total_clk_cycles,
        }
    }
}

/// A big-endian 16-bit value.
pub open spec fn be_u16(hi: u8, lo: u8) -> int {
    hi as int * 256 + lo as int
}

/// A 64-bit cycle count advanced by `delta`, wrapping.
pub open spec fn add_cycles(total: u64, delta: int) -> u64 {
    ((total as int + delta) % 0x1_0000_0000_0000_0000) as u64
}

/// The nanoseconds that `clk_to_ns` gives for a cycle count.
pub open spec fn ns_of(c: u64) -> u64 {
    (clk_ns(c as int) % 0x1_0000_0000_0000_0000) as u64
}

/// Decodes the frame at the start of the buffer, skipping event frames of
/// unknown code; `None` where more bytes are needed.
///
/// A packet is handed out only once at least one byte beyond it has arrived.
pub open spec fn decode_frames(v: DecoderView) -> (DecoderView, Option<EventView>)
    decreases v.buffer.len(),
{
    let buf = v.buffer;
    if buf.len() < 4 {
        (v, None)
    } else {
        let total = add_cycles(v.total_clk_cycles, be_u16(buf[2], buf[3]));
        if buf[0] == 0xFF {
            let rest = DecoderView {
                buffer: buf.subrange(4, buf.len() as int),
                padding_due: v.padding_due,
                total_clk_cycles: total,
            };
            match EventType::spec_from_code(buf[1]) {
                Some(t) => (rest, Some(EventView::Event { timestamp_ns: ns_of(total), event_type: t })),
                None => decode_frames(rest),
            }
        } else {
            let len = be_u16(buf[0], buf[1]);
            if buf.len() <= 4 + len {
                (v, None)
            } else {
                (
                    DecoderView {
                        buffer: buf.subrange(4 + len, buf.len() as int),
                        padding_due: v.padding_due || len % 2 == 1,
                        total_clk_cycles: total,
                    },
                    Some(EventView::Packet { timestamp_ns: ns_of(total), bytes: buf.subrange(4, 4 + len) }),
                )
            }
        }
    }
}

/// One decoding step: skip a due padding byte, then decode the next frame.
pub open spec fn decode_next(v: DecoderView) -> (DecoderView, Option<EventView>) {
    if v.padding_due {
        if v.buffer.len() == 0 {
            (v, None)
        } else {
            decode_frames(
                DecoderView {
                    buffer: v.buffer.drop_first(),
                    padding_due: false,
                    total_clk_cycles: v.total_clk_cycles,
                },
            )
        }
    } else {
        decode_frames(v)
    }
}

/// Converts received bytes into timestamped packets and events.
pub struct CynthionStream {
    buffer: VecDeque<u8>,
    padding_due: bool,
    total_clk_cycles: u64,
}

impl View for CynthionStream {
    type V = DecoderView;

    closed spec fn view(&self) -> DecoderView {
        DecoderView {
            buffer: self.buffer@,
            padding_due: self.padding_due,
            total_clk_cycles: self.total_clk_cycles,
        }
    }
}

/// Removes the first `n` bytes of `buf` and returns them.
fn take_front(buf: &mut VecDeque<u8>, n: usize) -> (r: Vec<u8>)
    requires
        n <= old(buf)@.len(),
    ensures
        r@ == old(buf)@.subrange(0, n as int),
        final(buf)@ == old(buf)@.subrange(n as int, old(buf)@.len() as int),
{
    let mut out: Vec<u8> = Vec::new();
    let mut i: usize = 0;
    while i < n
        invariant
            i <= n,
            n <= old(buf)@.len(),
            out@ == old(buf)@.subrange(0, i as int),
            buf@ == old(buf)@.subrange(i as int, old(buf)@.len() as int),
        decreases n - i,
    {
        match buf.pop_front() {
            Some(b) => out.push(b),
            None => {},
        }
        i = i + 1;
    }
    out
}

impl CynthionStream {
    /// A decoder that has received nothing yet.
    pub fn new() -> (r: CynthionStream)
        ensures
            r@ == DecoderView::initial(),
    {
        CynthionStream { buffer: VecDeque::new(), padding_due: false, total_clk_cycles: 0 }
    }

    /// Appends received bytes to the decoder's buffer.
    pub fn push_bytes(&mut self, bytes: &[u8])
        ensures
            final(self)@ == old(self)@.append(bytes@),
    {
        let mut i: usize = 0;
        while i < bytes.len()
            invariant
                i <= bytes@.len(),
                self@ == old(self)@.append(bytes@.subrange(0, i as int)),
            decreases bytes@.len() - i,
        {
            self.buffer.push_back(bytes[i]);
            i = i + 1;
            proof {
                assert(bytes@.subrange(0, i as int) == bytes@.subrange(0, i - 1).push(bytes@[i - 1]));
            }
        }
        proof {
            assert(bytes@.subrange(0, bytes@.len() as int) == bytes@);
        }
    }

    /// Discards the bytes received and not yet decoded.
    pub fn clear(&mut self)
        ensures
            final(self)@ == (DecoderView { buffer: Seq::empty(), ..old(self)@ }),
    {
        self.buffer.clear();
    }

    /// Whether a padding byte is still to be skipped.
    pub fn padding_due(&self) -> (r: bool)
        ensures
            r == self@.padding_due,
    {
        self.padding_due
    }

    /// The number of bytes received and not yet decoded.
    pub fn buffered_len(&self) -> (r: usize)
        ensures
            r == self@.buffer.len(),
    {
        self.buffer.len()
    }

    /// Clock cycles counted since the start of the capture, wrapping.
    pub fn total_clk_cycles(&self) -> (r: u64)
        ensures
            r == self@.total_clk_cycles,
    {
        self.total_clk_cycles
    }

    /// Adds the cycle delta of the frame header at the front of the buffer.
    fn update_cycle_count(&mut self)
        requires
            old(self)@.buffer.len() >= 4,
        ensures
            final(self)@ == (DecoderView {
                total_clk_cycles: add_cycles(
                    old(self)@.total_clk_cycles,
                    be_u16(old(self)@.buffer[2], old(self)@.buffer[3]),
                ),
                ..old(self)@
            }),
    {
        let clk_cycles: u64 = (self.buffer[2] as u64) * 256 + (self.buffer[3] as u64);
        self.total_clk_cycles = self.total_clk_cycles.wrapping_add(clk_cycles);
    }

    /// Decodes the next event from the bytes received so far; `None` where
    /// more bytes are needed. Event frames of unknown code are skipped.
    pub fn next_buffered_event(&mut self) -> (r: Option<TimestampedEvent>)
        ensures
            final(self)@ == decode_next(old(self)@).0,
            opt_event_view(r) == decode_next(old(self)@).1,
    {
        let ghost target = decode_next(self@);
        if self.padding_due {
            if self.buffer.len() == 0 {
                return None;
            } else {
                self.buffer.pop_front();
                self.padding_due = false;
            }
        }
        loop
            invariant
                target == decode_next(old(self)@),
                decode_frames(self@) == target,
            decreases self@.buffer.len(),
        {
            if self.buffer.len() < 4 {
                return None;
            }
            if self.buffer[0] == 0xFF {
                let event_code = self.buffer[1];
                self.update_cycle_count();
                let _ = take_front(&mut self.buffer, 4);
                match EventType::from_code(event_code) {
                    Some(event_type) => {
                        return Some(
                            TimestampedEvent::Event {
                                timestamp_ns: clk_to_ns(self.total_clk_cycles),
                                event_type,
                            },
                        );
                    },
                    None => {},
                }
            } else {
                let ghost v0 = self@;
                let packet_len: usize = (self.buffer[0] as usize) * 256 + (self.buffer[1] as usize);
                if self.buffer.len() <= 4 + packet_len {
                    return None;
                }
                self.update_cycle_count();
                let _ = take_front(&mut self.buffer, 4);
                if packet_len % 2 == 1 {
                    self.padding_due = true;
                }
                let bytes = take_front(&mut self.buffer, packet_len);
                proof {
                    let len = packet_len as int;
                    assert(bytes@ =~= v0.buffer.subrange(4, 4 + len));
                    assert(self@.buffer =~= v0.buffer.subrange(4 + len, v0.buffer.len() as int));
                }
                return Some(
                    TimestampedEvent::Packet { timestamp_ns: clk_to_ns(self.total_clk_cycles), bytes },
                );
            }
        }
    }
}

} // verus!
