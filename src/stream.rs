//! What the decoder does to a stream as a whole: the events that a reader
//! sees, which do not depend on how the bytes are split into arriving
//! chunks, and which come in order of time.

use vstd::prelude::*;

use crate::clock::{clk_ns, lemma_clk_ns_fits, lemma_clk_ns_monotonic, CLK_NS_EXACT_LIMIT};
use crate::decoder::{add_cycles, be_u16, decode_frames, decode_next, DecoderView};
use crate::event::{EventType, EventView};

verus! {

/// Every event that the buffered bytes allow, decoded in turn, and the state
/// where more bytes are needed.
pub open spec fn drain(v: DecoderView) -> (DecoderView, Seq<EventView>)
    decreases v.buffer.len(),
{
    let (v1, e) = decode_next(v);
    match e {
        Some(ev) => {
            proof {
                lemma_decode_next_consumes(v);
            }
            let (v2, evs) = drain(v1);
            (v2, seq![ev] + evs)
        },
        None => (v1, Seq::empty()),
    }
}

/// Decoding as a reader does it: it decodes all it can, then appends each
/// arriving chunk in turn and again decodes all it can.
pub open spec fn feed(v: DecoderView, chunks: Seq<Seq<u8>>) -> (DecoderView, Seq<EventView>)
    decreases chunks.len(),
{
    let (v1, e1) = drain(v);
    if chunks.len() == 0 {
        (v1, e1)
    } else {
        let (v2, e2) = feed(v1.append(chunks[0]), chunks.drop_first());
        (v2, e1 + e2)
    }
}

/// Decoding a frame consumes its bytes.
pub proof fn lemma_decode_frames_consumes(v: DecoderView)
    ensures
        decode_frames(v).0.buffer.len() <= v.buffer.len(),
        decode_frames(v).1 is Some ==> decode_frames(v).0.buffer.len() + 4 <= v.buffer.len(),
    decreases v.buffer.len(),
{
    let buf = v.buffer;
    if buf.len() >= 4 && buf[0] == 0xFF && EventType::spec_from_code(buf[1]) is None {
        let rest = DecoderView {
            buffer: buf.subrange(4, buf.len() as int),
            padding_due: v.padding_due,
            total_clk_cycles: add_cycles(v.total_clk_cycles, be_u16(buf[2], buf[3])),
        };
        lemma_decode_frames_consumes(rest);
    }
}

/// A decoding step that hands out an event consumes bytes.
pub proof fn lemma_decode_next_consumes(v: DecoderView)
    ensures
        decode_next(v).0.buffer.len() <= v.buffer.len(),
        decode_next(v).1 is Some ==> decode_next(v).0.buffer.len() < v.buffer.len(),
{
    if v.padding_due && v.buffer.len() > 0 {
        lemma_decode_frames_consumes(
            DecoderView { buffer: v.buffer.drop_first(), padding_due: false, total_clk_cycles: v.total_clk_cycles },
        );
    } else {
        lemma_decode_frames_consumes(v);
    }
}

/// Bytes that arrive later do not change the frame decoded now; where the
/// frame is incomplete, decoding resumes where it stopped.
pub proof fn lemma_decode_frames_append(v: DecoderView, b: Seq<u8>)
    ensures
        decode_frames(v).1 is Some ==> decode_frames(v.append(b)) == (
            decode_frames(v).0.append(b),
            decode_frames(v).1,
        ),
        decode_frames(v).1 is None ==> decode_frames(v.append(b)) == decode_frames(
            decode_frames(v).0.append(b),
        ),
    decreases v.buffer.len(),
{
    let buf = v.buffer;
    let w = v.append(b);
    let wb = w.buffer;
    if buf.len() >= 4 {
        assert(wb[0] == buf[0] && wb[1] == buf[1] && wb[2] == buf[2] && wb[3] == buf[3]);
        let total = add_cycles(v.total_clk_cycles, be_u16(buf[2], buf[3]));
        let rest = DecoderView {
            buffer: buf.subrange(4, buf.len() as int),
            padding_due: v.padding_due,
            total_clk_cycles: total,
        };
        assert(wb.subrange(4, wb.len() as int) =~= rest.buffer + b);
        if buf[0] == 0xFF {
            if EventType::spec_from_code(buf[1]) is None {
                lemma_decode_frames_append(rest, b);
            }
        } else {
            let len = be_u16(buf[0], buf[1]);
            if buf.len() > 4 + len {
                assert(wb.subrange(4, 4 + len) =~= buf.subrange(4, 4 + len));
                assert(wb.subrange(4 + len, wb.len() as int) =~= buf.subrange(4 + len, buf.len() as int)
                    + b);
            }
        }
    }
}

/// Bytes that arrive later do not change the event decoded now; where more
/// bytes are needed, decoding resumes where it stopped.
pub proof fn lemma_decode_next_append(v: DecoderView, b: Seq<u8>)
    ensures
        decode_next(v).1 is Some ==> decode_next(v.append(b)) == (
            decode_next(v).0.append(b),
            decode_next(v).1,
        ),
        decode_next(v).1 is None ==> decode_next(v.append(b)) == decode_next(
            decode_next(v).0.append(b),
        ),
{
    if v.padding_due {
        if v.buffer.len() == 0 {
            assert(v.append(b) == decode_next(v).0.append(b));
        } else {
            let u = DecoderView {
                buffer: v.buffer.drop_first(),
                padding_due: false,
                total_clk_cycles: v.total_clk_cycles,
            };
            assert(v.append(b).buffer.drop_first() =~= u.buffer + b);
            assert(decode_next(v.append(b)) == decode_frames(u.append(b)));
            lemma_decode_frames_append(u, b);
            lemma_decode_frames_consumes(u);
            let u1 = decode_frames(u).0;
            if decode_frames(u).1 is None {
                assert(!u1.padding_due) by {
                    lemma_decode_frames_keeps_padding_when_incomplete(u);
                }
            }
        }
    } else {
        lemma_decode_frames_append(v, b);
        if decode_frames(v).1 is None {
            lemma_decode_frames_keeps_padding_when_incomplete(v);
        }
    }
}

/// Where no frame is complete, the padding flag is left as it was.
proof fn lemma_decode_frames_keeps_padding_when_incomplete(v: DecoderView)
    ensures
        decode_frames(v).1 is None ==> decode_frames(v).0.padding_due == v.padding_due,
    decreases v.buffer.len(),
{
    let buf = v.buffer;
    if buf.len() >= 4 && buf[0] == 0xFF && EventType::spec_from_code(buf[1]) is None {
        let rest = DecoderView {
            buffer: buf.subrange(4, buf.len() as int),
            padding_due: v.padding_due,
            total_clk_cycles: add_cycles(v.total_clk_cycles, be_u16(buf[2], buf[3])),
        };
        lemma_decode_frames_keeps_padding_when_incomplete(rest);
    }
}

/// Decoding everything after more bytes arrived is decoding everything
/// before, then everything from where that stopped.
pub proof fn lemma_drain_append(v: DecoderView, b: Seq<u8>)
    ensures
        drain(v.append(b)) == (
            drain(drain(v).0.append(b)).0,
            drain(v).1 + drain(drain(v).0.append(b)).1,
        ),
    decreases v.buffer.len(),
{
    let (v1, e) = decode_next(v);
    lemma_decode_next_append(v, b);
    lemma_decode_next_consumes(v);
    match e {
        Some(ev) => {
            lemma_drain_append(v1, b);
            let w = drain(v1).0;
            assert(drain(v).1 == seq![ev] + drain(v1).1);
            assert(drain(v.append(b)).1 =~= seq![ev] + drain(v1.append(b)).1);
            assert(seq![ev] + (drain(v1).1 + drain(w.append(b)).1) =~= (seq![ev] + drain(v1).1) + drain(
                w.append(b),
            ).1);
        },
        None => {
            assert(drain(v.append(b)) == drain(v1.append(b)));
            assert(drain(v).1 + drain(v1.append(b)).1 =~= drain(v1.append(b)).1);
        },
    }
}

/// However the received bytes are split into arriving chunks, the reader
/// sees the same events and ends in the same state as if all of them had
/// arrived at once.
pub proof fn lemma_chunking_does_not_matter(v: DecoderView, chunks: Seq<Seq<u8>>)
    ensures
        feed(v, chunks) == drain(v.append(chunks.flatten())),
    decreases chunks.len(),
{
    if chunks.len() == 0 {
        assert(v.append(chunks.flatten()).buffer =~= v.buffer);
        assert(v.append(chunks.flatten()) == v);
    } else {
        let w = drain(v).0;
        let rest = chunks.drop_first();
        lemma_chunking_does_not_matter(w.append(chunks[0]), rest);
        assert(w.append(chunks[0]).append(rest.flatten()) == w.append(chunks.flatten())) by {
            assert(w.append(chunks[0]).append(rest.flatten()).buffer =~= w.append(chunks.flatten()).buffer);
        }
        lemma_drain_append(v, chunks.flatten());
    }
}

/// The clock cycles that the frames decoded by `decode_frames` add to the
/// count, without wrapping.
pub open spec fn frames_cycles(v: DecoderView) -> int
    decreases v.buffer.len(),
{
    let buf = v.buffer;
    if buf.len() < 4 {
        0
    } else {
        let delta = be_u16(buf[2], buf[3]);
        if buf[0] == 0xFF {
            match EventType::spec_from_code(buf[1]) {
                Some(_) => delta,
                None => delta + frames_cycles(
                    DecoderView {
                        buffer: buf.subrange(4, buf.len() as int),
                        padding_due: v.padding_due,
                        total_clk_cycles: add_cycles(v.total_clk_cycles, delta),
                    },
                ),
            }
        } else if buf.len() <= 4 + be_u16(buf[0], buf[1]) {
            0
        } else {
            delta
        }
    }
}

/// The clock cycles that a decoding step adds to the count, without wrapping.
pub open spec fn next_cycles(v: DecoderView) -> int {
    if v.padding_due {
        if v.buffer.len() == 0 {
            0
        } else {
            frames_cycles(
                DecoderView {
                    buffer: v.buffer.drop_first(),
                    padding_due: false,
                    total_clk_cycles: v.total_clk_cycles,
                },
            )
        }
    } else {
        frames_cycles(v)
    }
}

/// The clock cycles that decoding all buffered bytes adds to the count,
/// without wrapping.
pub open spec fn drain_cycles(v: DecoderView) -> int
    decreases v.buffer.len(),
{
    let (v1, e) = decode_next(v);
    match e {
        Some(_) => {
            proof {
                lemma_decode_next_consumes(v);
            }
            next_cycles(v) + drain_cycles(v1)
        },
        None => next_cycles(v),
    }
}

/// While the count stays within the exact range, a frame adds its cycles
/// without wrapping, and its timestamp is that of the new count.
proof fn lemma_decode_frames_cycles(v: DecoderView)
    requires
        v.total_clk_cycles as int + frames_cycles(v) <= CLK_NS_EXACT_LIMIT,
    ensures
        frames_cycles(v) >= 0,
        decode_frames(v).0.total_clk_cycles == v.total_clk_cycles as int + frames_cycles(v),
        decode_frames(v).1 is Some ==> decode_frames(v).1.unwrap().timestamp() == clk_ns(
            decode_frames(v).0.total_clk_cycles as int,
        ),
    decreases v.buffer.len(),
{
    let buf = v.buffer;
    if buf.len() >= 4 {
        let delta = be_u16(buf[2], buf[3]);
        let total = add_cycles(v.total_clk_cycles, delta);
        if buf[0] == 0xFF && EventType::spec_from_code(buf[1]) is None {
            let rest = DecoderView {
                buffer: buf.subrange(4, buf.len() as int),
                padding_due: v.padding_due,
                total_clk_cycles: total,
            };
            assert(total as int == v.total_clk_cycles as int + delta) by {
                lemma_frames_cycles_nonneg(rest);
                vstd::arithmetic::div_mod::lemma_small_mod(
                    (v.total_clk_cycles as int + delta) as nat,
                    0x1_0000_0000_0000_0000nat,
                );
            }
            lemma_decode_frames_cycles(rest);
        } else if buf[0] == 0xFF || buf.len() > 4 + be_u16(buf[0], buf[1]) {
            vstd::arithmetic::div_mod::lemma_small_mod(
                (v.total_clk_cycles as int + delta) as nat,
                0x1_0000_0000_0000_0000nat,
            );
            lemma_clk_ns_fits(total as int);
            vstd::arithmetic::div_mod::lemma_small_mod(clk_ns(total as int) as nat, 0x1_0000_0000_0000_0000nat);
        }
    }
}

/// The cycles of decoded frames are never negative.
proof fn lemma_frames_cycles_nonneg(v: DecoderView)
    ensures
        frames_cycles(v) >= 0,
    decreases v.buffer.len(),
{
    let buf = v.buffer;
    if buf.len() >= 4 && buf[0] == 0xFF && EventType::spec_from_code(buf[1]) is None {
        lemma_frames_cycles_nonneg(
            DecoderView {
                buffer: buf.subrange(4, buf.len() as int),
                padding_due: v.padding_due,
                total_clk_cycles: add_cycles(v.total_clk_cycles, be_u16(buf[2], buf[3])),
            },
        );
    }
}

/// A decoding step adds `next_cycles` without wrapping, within the range.
proof fn lemma_decode_next_cycles(v: DecoderView)
    requires
        v.total_clk_cycles as int + next_cycles(v) <= CLK_NS_EXACT_LIMIT,
    ensures
        next_cycles(v) >= 0,
        decode_next(v).0.total_clk_cycles == v.total_clk_cycles as int + next_cycles(v),
        decode_next(v).1 is Some ==> decode_next(v).1.unwrap().timestamp() == clk_ns(
            decode_next(v).0.total_clk_cycles as int,
        ),
{
    if v.padding_due && v.buffer.len() > 0 {
        lemma_decode_frames_cycles(
            DecoderView { buffer: v.buffer.drop_first(), padding_due: false, total_clk_cycles: v.total_clk_cycles },
        );
    } else if !v.padding_due {
        lemma_decode_frames_cycles(v);
    }
}

/// Decoding never takes cycles away from the count.
proof fn lemma_drain_cycles_nonneg(v: DecoderView)
    ensures
        next_cycles(v) >= 0,
        drain_cycles(v) >= next_cycles(v),
    decreases v.buffer.len(),
{
    if v.padding_due && v.buffer.len() > 0 {
        lemma_frames_cycles_nonneg(
            DecoderView { buffer: v.buffer.drop_first(), padding_due: false, total_clk_cycles: v.total_clk_cycles },
        );
    } else if !v.padding_due {
        lemma_frames_cycles_nonneg(v);
    }
    let (v1, e) = decode_next(v);
    if e is Some {
        lemma_decode_next_consumes(v);
        lemma_drain_cycles_nonneg(v1);
    }
}

/// So long as the cycle count stays within `CLK_NS_EXACT_LIMIT`, the events
/// decoded from the buffered bytes come in order of time, none earlier than
/// the count they start from.
pub proof fn lemma_drain_timestamps_nondecreasing(v: DecoderView)
    requires
        v.total_clk_cycles as int + drain_cycles(v) <= CLK_NS_EXACT_LIMIT,
    ensures
        ({
            let (w, evs) = drain(v);
            &&& w.total_clk_cycles == v.total_clk_cycles as int + drain_cycles(v)
            &&& forall|i: int|
                0 <= i < evs.len() ==> clk_ns(v.total_clk_cycles as int) <= #[trigger] evs[i].timestamp()
                    <= clk_ns(w.total_clk_cycles as int)
            &&& forall|i: int, j: int|
                0 <= i <= j < evs.len() ==> #[trigger] evs[i].timestamp() <= #[trigger] evs[j].timestamp()
        }),
    decreases v.buffer.len(),
{
    let (v1, e) = decode_next(v);
    lemma_drain_cycles_nonneg(v);
    lemma_decode_next_cycles(v);
    lemma_decode_next_consumes(v);
    match e {
        Some(ev) => {
            lemma_drain_timestamps_nondecreasing(v1);
            let (w, evs1) = drain(v1);
            let evs = seq![ev] + evs1;
            assert(drain(v).1 == evs);
            lemma_clk_ns_monotonic(v.total_clk_cycles as int, v1.total_clk_cycles as int);
            lemma_drain_cycles_nonneg(v1);
            lemma_clk_ns_monotonic(v1.total_clk_cycles as int, w.total_clk_cycles as int);
            assert forall|i: int|
                0 <= i < evs.len() implies clk_ns(v.total_clk_cycles as int) <= #[trigger] evs[i].timestamp()
                    <= clk_ns(w.total_clk_cycles as int) by {
                if i > 0 {
                    assert(evs[i] == evs1[i - 1]);
                }
            }
            assert forall|i: int, j: int|
                0 <= i <= j < evs.len() implies #[trigger] evs[i].timestamp()
                    <= #[trigger] evs[j].timestamp() by {
                if i > 0 {
                    assert(evs[i] == evs1[i - 1]);
                    assert(evs[j] == evs1[j - 1]);
                } else if j > 0 {
                    assert(evs[j] == evs1[j - 1]);
                }
            }
        },
        None => {},
    }
}

/// Whatever chunks the bytes arrive in, the reader sees events in order of
/// time, so long as the cycle count stays within `CLK_NS_EXACT_LIMIT`.
pub proof fn lemma_feed_timestamps_nondecreasing(v: DecoderView, chunks: Seq<Seq<u8>>)
    requires
        v.total_clk_cycles as int + drain_cycles(v.append(chunks.flatten())) <= CLK_NS_EXACT_LIMIT,
    ensures
        forall|i: int, j: int|
            0 <= i <= j < feed(v, chunks).1.len() ==> #[trigger] feed(v, chunks).1[i].timestamp()
                <= #[trigger] feed(v, chunks).1[j].timestamp(),
{
    lemma_chunking_does_not_matter(v, chunks);
    lemma_drain_timestamps_nondecreasing(v.append(chunks.flatten()));
}

} // verus!
