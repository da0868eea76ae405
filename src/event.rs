//! Link events reported by the analyzer, and the events of a capture.

use vstd::prelude::*;

verus! {

/// A link event that the analyzer reports in an event frame.
#[derive(Clone, Copy, Debug, PartialEq, Eq, Structural)]
pub enum EventType {
    SpeedDetected,
    Suspend,
    Resume,
    Reset,
    Disconnect,
}

impl EventType {
    /// The event with the given wire code, if the code is a known one.
    pub open spec fn spec_from_code(code: u8) -> Option<EventType> {
        if code == 0x01 {
            Some(EventType::SpeedDetected)
        } else if code == 0x02 {
            Some(EventType::Suspend)
        } else if code == 0x03 {
            Some(EventType::Resume)
        } else if code == 0x04 {
            Some(EventType::Reset)
        } else if code == 0x05 {
            Some(EventType::Disconnect)
        } else {
            None
        }
    }

    /// The wire code of an event.
    pub open spec fn spec_code(self) -> u8 {
        match self {
            EventType::SpeedDetected => 0x01,
            EventType::Suspend => 0x02,
            EventType::Resume => 0x03,
            EventType::Reset => 0x04,
            EventType::Disconnect => 0x05,
        }
    }

    /// Looks up the event with the given wire code; unknown codes give `None`.
    pub fn from_code(code: u8) -> (r: Option<EventType>)
        ensures
            r == Self::spec_from_code(code),
    {
        match code {
            0x01 => Some(EventType::SpeedDetected),
            0x02 => Some(EventType::Suspend),
            0x03 => Some(EventType::Resume),
            0x04 => Some(EventType::Reset),
            0x05 => Some(EventType::Disconnect),
            _ => None,
        }
    }

    /// The wire code of this event.
    pub fn code(&self) -> (r: u8)
        ensures
            r == self.spec_code(),
            Self::spec_from_code(r) == Some(*self),
    {
        match self {
            EventType::SpeedDetected => 0x01,
            EventType::Suspend => 0x02,
            EventType::Resume => 0x03,
            EventType::Reset => 0x04,
            EventType::Disconnect => 0x05,
        }
    }

    /// How this event should be displayed.
    pub fn description(&self) -> (r: &'static str)
        ensures
            *self == EventType::SpeedDetected ==> r@ == "Speed detected"@,
            *self == EventType::Suspend ==> r@ == "Suspend"@,
            *self == EventType::Resume ==> r@ == "Resume"@,
            *self == EventType::Reset ==> r@ == "Reset"@,
            *self == EventType::Disconnect ==> r@ == "Disconnect"@,
    {
        match self {
            EventType::SpeedDetected => "Speed detected",
            EventType::Suspend => "Suspend",
            EventType::Resume => "Resume",
            EventType::Reset => "Reset",
            EventType::Disconnect => "Disconnect",
        }
    }
}

/// An event of a capture, stamped with nanoseconds since the capture began.
#[derive(Clone, Debug, PartialEq, Eq)]
pub enum TimestampedEvent {
    Packet { timestamp_ns: u64, bytes: Vec<u8> },
    Event { timestamp_ns: u64, event_type: EventType },
}

/// The mathematical value of a `TimestampedEvent`.
pub enum EventView {
    Packet { timestamp_ns: u64, bytes: Seq<u8> },
    Event { timestamp_ns: u64, event_type: EventType },
}

impl EventView {
    pub open spec fn timestamp(self) -> u64 {
        match self {
            EventView::Packet { timestamp_ns, .. } => timestamp_ns,
            EventView::Event { timestamp_ns, .. } => timestamp_ns,
        }
    }
}

impl View for TimestampedEvent {
    type V = EventView;

    open spec fn view(&self) -> EventView {
        match self {
            TimestampedEvent::Packet { timestamp_ns, bytes } => EventView::Packet {
                timestamp_ns: *timestamp_ns,
                bytes: bytes@,
            },
            TimestampedEvent::Event { timestamp_ns, event_type } => EventView::Event {
                timestamp_ns: *timestamp_ns,
                event_type: *event_type,
            },
        }
    }
}

/// The view of an optional event.
pub open spec fn opt_event_view(e: Option<TimestampedEvent>) -> Option<EventView> {
    match e {
        Some(e) => Some(e@),
        None => None,
    }
}

impl TimestampedEvent {
    /// Nanoseconds since the start of the capture.
    pub fn timestamp_ns(&self) -> (r: u64)
        ensures
            r == self@.timestamp(),
    {
        match self {
            TimestampedEvent::Packet { timestamp_ns, .. } => *timestamp_ns,
            TimestampedEvent::Event { timestamp_ns, .. } => *timestamp_ns,
        }
    }
}

} // verus!
