//! The errors of the analyzer's control plane.

use vstd::prelude::*;

verus! {

/// Why an operation on the analyzer failed.
#[derive(Clone, Copy, Debug, PartialEq, Eq, Structural)]
pub enum Error {
    /// No interface of the device has the analyzer's class and subclass.
    NoCompatibleInterface,
    /// The gateware speaks a newer major protocol version than this library.
    GatewareTooNew { found: u8, supported: u8 },
    /// The gateware speaks an older major protocol version than this library.
    GatewareTooOld { found: u8, supported: u8 },
    /// A control response had another length than the request calls for.
    UnexpectedPayloadLength { expected: usize, got: usize },
    /// The gateware is too old for trigger configuration.
    TriggerUnsupported,
    /// A trigger stage index is not below the number of stages.
    StageIndexOutOfRange { index: u8, max_stages: u8 },
    /// A trigger stage's pattern is shorter than its length.
    PatternTooShort { pattern_len: usize, length: u8 },
    /// A trigger stage's mask is shorter than its length.
    MaskTooShort { mask_len: usize, length: u8 },
    /// A trigger pattern is longer than a stage holds.
    PatternTooLong { pattern_len: usize },
    /// A trigger mask has another length than its pattern.
    MaskLengthMismatch { mask_len: usize, pattern_len: usize },
    /// A trigger stage length is longer than its pattern.
    LengthExceedsPattern { length: u8, pattern_len: usize },
}

} // verus!
