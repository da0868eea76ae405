//! The analyzer's pattern-match trigger: its capabilities, control and
//! status records, and the 68-byte layout of a trigger stage.

use vstd::prelude::*;
use vstd::slice::slice_to_vec;

use crate::error::Error;

verus! {

/// The longest pattern that a stage payload holds.
pub const TRIGGER_MAX_PATTERN_LEN: usize = 32;

/// The length of a trigger stage payload: a four-byte header, the pattern
/// and the mask.
pub const TRIGGER_STAGE_PAYLOAD_LEN: usize = 68;

/// The length of a trigger capabilities response.
pub const TRIGGER_CAPS_PAYLOAD_LEN: usize = 4;

/// The length of a trigger status response.
pub const TRIGGER_STATUS_PAYLOAD_LEN: usize = 5;

/// What the analyzer's trigger supports.
#[derive(Clone, Copy, Debug, PartialEq, Eq, Structural)]
pub struct TriggerCaps {
    pub max_stages: u8,
    pub max_pattern_len: u8,
    pub stage_payload_len: u16,
}

/// Whether the trigger is enabled, drives its output, and how many stages
/// it runs.
#[derive(Clone, Copy, Debug, PartialEq, Eq, Structural)]
pub struct TriggerControl {
    pub enable: bool,
    pub output_enable: bool,
    pub stage_count: u8,
}

/// One stage of the trigger: `length` bytes of `pattern`, compared where
/// `mask` has bits set, at `offset` into a packet.
#[derive(Clone, Debug, PartialEq, Eq)]
pub struct TriggerStage {
    pub offset: u16,
    pub length: u8,
    pub pattern: Vec<u8>,
    pub mask: Vec<u8>,
}

/// The mathematical value of a `TriggerStage`.
pub struct TriggerStageView {
    pub offset: u16,
    pub length: u8,
    pub pattern: Seq<u8>,
    pub mask: Seq<u8>,
}

impl View for TriggerStage {
    type V = TriggerStageView;

    open spec fn view(&self) -> TriggerStageView {
        TriggerStageView {
            offset: self.offset,
            length: self.length,
            pattern: self.pattern@,
            mask: self.mask@,
        }
    }
}

/// The trigger's state as the analyzer reports it.
#[derive(Clone, Copy, Debug, PartialEq, Eq, Structural)]
pub struct TriggerStatus {
    pub enable: bool,
    pub armed: bool,
    pub output_enable: bool,
    pub output_state: bool,
    pub sequence_stage: u8,
    pub fire_count: u16,
    pub stage_count: u8,
}

/// A little-endian 16-bit value.
pub open spec fn le16(lo: u8, hi: u8) -> u16 {
    (lo as int + hi as int * 256) as u16
}

/// The smaller of two integers.
pub open spec fn min(a: int, b: int) -> int {
    if a <= b {
        a
    } else {
        b
    }
}

/// Trigger requests need minor protocol version 2 or later.
pub fn ensure_trigger_supported(protocol_minor: u8) -> (r: Result<(), Error>)
    ensures
        protocol_minor >= 2 <==> r is Ok,
        protocol_minor < 2 ==> r == Err::<(), Error>(Error::TriggerUnsupported),
{
    if protocol_minor < 2 {
        Err(Error::TriggerUnsupported)
    } else {
        Ok(())
    }
}

/// The capabilities in a trigger capabilities response.
pub open spec fn spec_parse_trigger_caps(data: Seq<u8>) -> Result<TriggerCaps, Error> {
    if data.len() != TRIGGER_CAPS_PAYLOAD_LEN {
        Err(Error::UnexpectedPayloadLength { expected: TRIGGER_CAPS_PAYLOAD_LEN, got: data.len() as usize })
    } else {
        Ok(TriggerCaps { max_stages: data[0], max_pattern_len: data[1], stage_payload_len: le16(data[2], data[3]) })
    }
}

/// Reads a trigger capabilities response: the number of stages, the
/// longest pattern, and the stage payload length (little-endian).
pub fn parse_trigger_caps(data: &[u8]) -> (r: Result<TriggerCaps, Error>)
    ensures
        r == spec_parse_trigger_caps(data@),
{
    if data.len() != TRIGGER_CAPS_PAYLOAD_LEN {
        return Err(Error::UnexpectedPayloadLength { expected: TRIGGER_CAPS_PAYLOAD_LEN, got: data.len() });
    }
    Ok(
        TriggerCaps {
            max_stages: data[0],
            max_pattern_len: data[1],
            stage_payload_len: data[2] as u16 + data[3] as u16 * 256,
        },
    )
}

/// The trigger control payload: the flags (bit 0 enable, bit 1 output
/// enable), then the stage count, at most `max_stages`.
pub open spec fn spec_trigger_control_payload(control: TriggerControl, max_stages: u8) -> Seq<u8> {
    seq![
        ((if control.enable { 1int } else { 0int }) + (if control.output_enable { 2int } else { 0int })) as u8,
        min(control.stage_count as int, max_stages as int) as u8,
    ]
}

/// Builds the payload of a trigger control request.
pub fn trigger_control_payload(control: &TriggerControl, max_stages: u8) -> (r: Vec<u8>)
    ensures
        r@ == spec_trigger_control_payload(*control, max_stages),
{
    let stage_count = if control.stage_count < max_stages {
        control.stage_count
    } else {
        max_stages
    };
    let mut flags: u8 = 0;
    if control.enable {
        flags = flags + 1;
    }
    if control.output_enable {
        flags = flags + 2;
    }
    let payload = vec![flags, stage_count];
    proof {
        assert(payload@ =~= spec_trigger_control_payload(*control, max_stages));
    }
    payload
}

/// The number of pattern bytes that a stage payload carries: the stage's
/// length, cut to what the analyzer and the payload hold.
pub open spec fn clamped_stage_len(length: u8, caps: TriggerCaps) -> int {
    min(min(length as int, caps.max_pattern_len as int), TRIGGER_MAX_PATTERN_LEN as int)
}

/// The 68-byte payload of a stage: offset (little-endian), length, a zero
/// byte, the first `n` pattern bytes padded with zeros to 32, and the first
/// `n` mask bytes padded with 0xFF (match anything) to 32.
pub open spec fn stage_payload(offset: u16, n: int, pattern: Seq<u8>, mask: Seq<u8>) -> Seq<u8> {
    seq![(offset % 256) as u8, (offset / 256) as u8, n as u8, 0u8] + Seq::new(
        32,
        |i: int|
            if i < n {
                pattern[i]
            } else {
                0u8
            },
    ) + Seq::new(
        32,
        |i: int|
            if i < n {
                mask[i]
            } else {
                0xFFu8
            },
    )
}

/// The payload of a request to set stage `stage_index`, or why there is none.
pub open spec fn spec_trigger_stage_payload(stage_index: u8, stage: TriggerStageView, caps: TriggerCaps) -> Result<
    Seq<u8>,
    Error,
> {
    if stage_index >= caps.max_stages {
        Err(Error::StageIndexOutOfRange { index: stage_index, max_stages: caps.max_stages })
    } else if stage.pattern.len() < stage.length {
        Err(Error::PatternTooShort { pattern_len: stage.pattern.len() as usize, length: stage.length })
    } else if stage.mask.len() < stage.length {
        Err(Error::MaskTooShort { mask_len: stage.mask.len() as usize, length: stage.length })
    } else {
        Ok(stage_payload(stage.offset, clamped_stage_len(stage.length, caps), stage.pattern, stage.mask))
    }
}

/// Builds the payload of a request to set trigger stage `stage_index`.
pub fn trigger_stage_payload(stage_index: u8, stage: &TriggerStage, caps: &TriggerCaps) -> (r: Result<
    Vec<u8>,
    Error,
>)
    ensures
        match (r, spec_trigger_stage_payload(stage_index, stage@, *caps)) {
            (Ok(p), Ok(q)) => p@ == q,
            (Err(e), Err(f)) => e == f,
            _ => false,
        },
{
    if stage_index >= caps.max_stages {
        return Err(Error::StageIndexOutOfRange { index: stage_index, max_stages: caps.max_stages });
    }
    let max_len: usize = if (caps.max_pattern_len as usize) < TRIGGER_MAX_PATTERN_LEN {
        caps.max_pattern_len as usize
    } else {
        TRIGGER_MAX_PATTERN_LEN
    };
    if stage.pattern.len() < stage.length as usize {
        return Err(Error::PatternTooShort { pattern_len: stage.pattern.len(), length: stage.length });
    }
    if stage.mask.len() < stage.length as usize {
        return Err(Error::MaskTooShort { mask_len: stage.mask.len(), length: stage.length });
    }
    let clamped_len: usize = if (stage.length as usize) < max_len {
        stage.length as usize
    } else {
        max_len
    };
    let ghost n = clamped_len as int;
    let ghost expected = stage_payload(stage.offset, n, stage.pattern@, stage.mask@);
    let mut payload: Vec<u8> = Vec::new();
    payload.push((stage.offset % 256) as u8);
    payload.push((stage.offset / 256) as u8);
    payload.push(clamped_len as u8);
    payload.push(0);
    let mut i: usize = 0;
    while i < TRIGGER_MAX_PATTERN_LEN
        invariant
            i <= TRIGGER_MAX_PATTERN_LEN,
            n == clamped_len,
            clamped_len <= 32,
            clamped_len <= stage.pattern@.len(),
            expected == stage_payload(stage.offset, n, stage.pattern@, stage.mask@),
            payload@ =~= expected.subrange(0, 4 + i),
        decreases TRIGGER_MAX_PATTERN_LEN - i,
    {
        if i < clamped_len {
            payload.push(stage.pattern[i]);
        } else {
            payload.push(0);
        }
        i = i + 1;
    }
    let mut j: usize = 0;
    while j < TRIGGER_MAX_PATTERN_LEN
        invariant
            j <= TRIGGER_MAX_PATTERN_LEN,
            n == clamped_len,
            clamped_len <= 32,
            clamped_len <= stage.mask@.len(),
            expected == stage_payload(stage.offset, n, stage.pattern@, stage.mask@),
            payload@ =~= expected.subrange(0, 36 + j),
        decreases TRIGGER_MAX_PATTERN_LEN - j,
    {
        if j < clamped_len {
            payload.push(stage.mask[j]);
        } else {
            payload.push(0xFF);
        }
        j = j + 1;
    }
    proof {
        assert(expected.len() == 68);
        assert(payload@ =~= expected);
    }
    Ok(payload)
}

/// The stage in a 68-byte stage payload: offset, length (at most 32), and
/// that many pattern and mask bytes.
pub open spec fn spec_parse_trigger_stage(data: Seq<u8>) -> Result<TriggerStageView, Error> {
    if data.len() != TRIGGER_STAGE_PAYLOAD_LEN {
        Err(Error::UnexpectedPayloadLength { expected: TRIGGER_STAGE_PAYLOAD_LEN, got: data.len() as usize })
    } else {
        let n = min(data[2] as int, TRIGGER_MAX_PATTERN_LEN as int);
        Ok(
            TriggerStageView {
                offset: le16(data[0], data[1]),
                length: n as u8,
                pattern: data.subrange(4, 4 + n),
                mask: data.subrange(36, 36 + n),
            },
        )
    }
}

/// Reads a trigger stage response.
pub fn parse_trigger_stage(data: &[u8]) -> (r: Result<TriggerStage, Error>)
    ensures
        match (r, spec_parse_trigger_stage(data@)) {
            (Ok(s), Ok(t)) => s@ == t,
            (Err(e), Err(f)) => e == f,
            _ => false,
        },
{
    if data.len() != TRIGGER_STAGE_PAYLOAD_LEN {
        return Err(Error::UnexpectedPayloadLength { expected: TRIGGER_STAGE_PAYLOAD_LEN, got: data.len() });
    }
    let offset: u16 = data[0] as u16 + data[1] as u16 * 256;
    let length: u8 = if data[2] < TRIGGER_MAX_PATTERN_LEN as u8 {
        data[2]
    } else {
        TRIGGER_MAX_PATTERN_LEN as u8
    };
    let stage_len = length as usize;
    let pattern = slice_to_vec(&data[4..4 + stage_len]);
    let mask = slice_to_vec(&data[36..36 + stage_len]);
    Ok(TriggerStage { offset, length, pattern, mask })
}

/// The status in a five-byte trigger status response.
pub open spec fn spec_parse_trigger_status(data: Seq<u8>) -> Result<TriggerStatus, Error> {
    if data.len() != TRIGGER_STATUS_PAYLOAD_LEN {
        Err(Error::UnexpectedPayloadLength { expected: TRIGGER_STATUS_PAYLOAD_LEN, got: data.len() as usize })
    } else {
        let flags = data[0];
        Ok(
            TriggerStatus {
                enable: flags % 2 == 1,
                armed: (flags / 2) % 2 == 1,
                output_enable: (flags / 4) % 2 == 1,
                output_state: (flags / 8) % 2 == 1,
                sequence_stage: data[1],
                fire_count: le16(data[2], data[3]),
                stage_count: data[4],
            },
        )
    }
}

/// Reads a trigger status response: flags (bit 0 enable, bit 1 armed,
/// bit 2 output enable, bit 3 output state), the current stage, the fire
/// count (little-endian) and the stage count.
pub fn parse_trigger_status(data: &[u8]) -> (r: Result<TriggerStatus, Error>)
    ensures
        r == spec_parse_trigger_status(data@),
{
    if data.len() != TRIGGER_STATUS_PAYLOAD_LEN {
        return Err(Error::UnexpectedPayloadLength { expected: TRIGGER_STATUS_PAYLOAD_LEN, got: data.len() });
    }
    let flags = data[0];
    let r = TriggerStatus {
        enable: (flags & 0b0000_0001) != 0,
        armed: (flags & 0b0000_0010) != 0,
        output_enable: (flags & 0b0000_0100) != 0,
        output_state: (flags & 0b0000_1000) != 0,
        sequence_stage: data[1],
        fire_count: data[2] as u16 + data[3] as u16 * 256,
        stage_count: data[4],
    };
    assert(((flags & 1u8) != 0) == (flags % 2 == 1)) by (bit_vector);
    assert(((flags & 2u8) != 0) == ((flags / 2) % 2 == 1)) by (bit_vector);
    assert(((flags & 4u8) != 0) == ((flags / 4) % 2 == 1)) by (bit_vector);
    assert(((flags & 8u8) != 0) == ((flags / 8) % 2 == 1)) by (bit_vector);
    Ok(r)
}

/// A stage whose length fits the analyzer and the payload comes back
/// unchanged, cut to its length, from the payload built for it.
pub proof fn lemma_trigger_stage_round_trip(stage_index: u8, stage: TriggerStageView, caps: TriggerCaps)
    requires
        stage_index < caps.max_stages,
        stage.length <= caps.max_pattern_len,
        stage.length <= TRIGGER_MAX_PATTERN_LEN,
        stage.pattern.len() >= stage.length,
        stage.mask.len() >= stage.length,
    ensures
        spec_trigger_stage_payload(stage_index, stage, caps) is Ok,
        spec_parse_trigger_stage(spec_trigger_stage_payload(stage_index, stage, caps)->Ok_0) == Ok::<
            TriggerStageView,
            Error,
        >(
            TriggerStageView {
                offset: stage.offset,
                length: stage.length,
                pattern: stage.pattern.subrange(0, stage.length as int),
                mask: stage.mask.subrange(0, stage.length as int),
            },
        ),
{
    let n = stage.length as int;
    let p = stage_payload(stage.offset, n, stage.pattern, stage.mask);
    assert(clamped_stage_len(stage.length, caps) == n);
    assert(p.len() == 68);
    assert(le16(p[0], p[1]) == stage.offset);
    assert(p.subrange(4, 4 + n) =~= stage.pattern.subrange(0, n));
    assert(p.subrange(36, 36 + n) =~= stage.mask.subrange(0, n));
}

/// The view of optional bytes.
pub open spec fn opt_bytes_view(b: Option<Vec<u8>>) -> Option<Seq<u8>> {
    match b {
        Some(v) => Some(v@),
        None => None,
    }
}

/// The stage that `stage_from_parts` builds, or why it refuses.
pub open spec fn spec_stage_from_parts(
    offset: u16,
    pattern: Seq<u8>,
    mask: Option<Seq<u8>>,
    length: Option<u8>,
) -> Result<TriggerStageView, Error> {
    let requested = match length {
        Some(l) => l,
        None => pattern.len() as u8,
    };
    if pattern.len() > TRIGGER_MAX_PATTERN_LEN {
        Err(Error::PatternTooLong { pattern_len: pattern.len() as usize })
    } else if mask is Some && mask->Some_0.len() != pattern.len() {
        Err(Error::MaskLengthMismatch { mask_len: mask->Some_0.len() as usize, pattern_len: pattern.len() as usize })
    } else if requested > pattern.len() {
        Err(Error::LengthExceedsPattern { length: requested, pattern_len: pattern.len() as usize })
    } else {
        Ok(
            TriggerStageView {
                offset,
                length: requested,
                pattern,
                mask: match mask {
                    Some(m) => m,
                    None => Seq::new(pattern.len(), |i: int| 0xFFu8),
                },
            },
        )
    }
}

/// Builds a trigger stage from a pattern of at most 32 bytes, a mask of the
/// same length (by default all ones: every bit compared) and a length (by
/// default the pattern's), which may not exceed the pattern.
pub fn stage_from_parts(offset: u16, pattern: Vec<u8>, mask: Option<Vec<u8>>, length: Option<u8>) -> (r: Result<
    TriggerStage,
    Error,
>)
    ensures
        match (r, spec_stage_from_parts(offset, pattern@, opt_bytes_view(mask), length)) {
            (Ok(s), Ok(t)) => s@ == t,
            (Err(e), Err(f)) => e == f,
            _ => false,
        },
{
    if pattern.len() > TRIGGER_MAX_PATTERN_LEN {
        return Err(Error::PatternTooLong { pattern_len: pattern.len() });
    }
    let mask = match mask {
        Some(m) => {
            if m.len() != pattern.len() {
                return Err(Error::MaskLengthMismatch { mask_len: m.len(), pattern_len: pattern.len() });
            }
            m
        },
        None => {
            let mut m: Vec<u8> = Vec::new();
            let mut i: usize = 0;
            while i < pattern.len()
                invariant
                    i <= pattern@.len(),
                    m@ =~= Seq::new(i as nat, |k: int| 0xFFu8),
                decreases pattern@.len() - i,
            {
                m.push(0xFF);
                i = i + 1;
            }
            m
        },
    };
    let requested: u8 = match length {
        Some(l) => l,
        None => pattern.len() as u8,
    };
    if requested as usize > pattern.len() {
        return Err(Error::LengthExceedsPattern { length: requested, pattern_len: pattern.len() });
    }
    Ok(TriggerStage { offset, length: requested, pattern, mask })
}

} // verus!
