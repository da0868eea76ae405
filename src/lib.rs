//! Host-side driver logic for the Cynthion USB protocol analyzer.
//!
//! The library holds the analyzer's control-plane state machine, the
//! trigger payload codecs, the bulk stream frame decoder and the USB packet
//! validator. Device I/O is left to the caller, which hands the library the
//! bytes it read and sends the bytes the library computed.

pub mod clock;
pub mod event;
pub mod decoder;
pub mod stream;
pub mod usb;
pub mod state;
pub mod control;
pub mod error;
pub mod trigger;
pub mod device;
pub mod capture;
pub mod filter;

pub use crate::capture::{CaptureMetadata, CapturePoll, CaptureStream, WaitResult};
pub use crate::clock::clk_to_ns;
pub use crate::control::{ControlState, PowerConfig};
pub use crate::decoder::CynthionStream;
pub use crate::error::Error;
pub use crate::event::{EventType, TimestampedEvent};
pub use crate::state::{State, TestConfig};
pub use crate::trigger::{TriggerCaps, TriggerControl, TriggerStage, TriggerStatus};
pub use crate::usb::{crc5, validate_packet, Speed, PID};
