//! A capture's metadata, and the decisions of a capture stream: what a
//! reader gets on each poll, and what stopping the capture must do.

use std::time::Duration;

use vstd::prelude::*;

use crate::decoder::{decode_next, CynthionStream, DecoderView};
use crate::event::{opt_event_view, EventView, TimestampedEvent};
use crate::usb::Speed;

verus! {

/// Metadata about the capture.
#[derive(Clone, Debug, Default)]
pub struct CaptureMetadata {
    pub application: Option<String>,
    pub os: Option<String>,
    pub hardware: Option<String>,
    pub comment: Option<String>,
    pub iface_desc: Option<String>,
    pub iface_hardware: Option<String>,
    pub iface_os: Option<String>,
    pub iface_speed: Option<Speed>,
    /// The snapshot length; never zero where present.
    pub iface_snaplen: Option<u32>,
    pub start_time: Option<Duration>,
    pub end_time: Option<Duration>,
    pub dropped: Option<u64>,
}

/// What a wait for the next bulk buffer gave.
pub enum WaitResult<'a> {
    /// A buffer arrived with these bytes.
    Received(&'a [u8]),
    /// Nothing arrived in time.
    Timeout,
    /// The capture worker has finished; nothing more will arrive.
    Ended,
}

/// What a poll of a capture stream gives.
#[derive(Debug)]
pub enum CapturePoll {
    Event(TimestampedEvent),
    Timeout,
    Ended,
}

/// The mathematical value of a `CapturePoll`.
pub enum CapturePollView {
    Event(EventView),
    Timeout,
    Ended,
}

pub open spec fn opt_poll_view(p: Option<CapturePoll>) -> Option<CapturePollView> {
    match p {
        Some(CapturePoll::Event(e)) => Some(CapturePollView::Event(e@)),
        Some(CapturePoll::Timeout) => Some(CapturePollView::Timeout),
        Some(CapturePoll::Ended) => Some(CapturePollView::Ended),
        None => None,
    }
}

/// The state of a capture stream: its decoder, whether the capture worker
/// still has to be told to stop, and whether the stream has ended.
pub struct CaptureView {
    pub decoder: DecoderView,
    pub stop_pending: bool,
    pub ended: bool,
}

/// The stream once stopped, and whether the worker must be told to stop now.
pub open spec fn spec_stop(v: CaptureView) -> (CaptureView, bool) {
    (
        CaptureView {
            decoder: DecoderView { buffer: Seq::empty(), ..v.decoder },
            stop_pending: false,
            ended: true,
        },
        v.stop_pending,
    )
}

/// The decoded part of a capture: the events decoded so far from what the
/// capture worker delivered, and the stream's lifecycle.
pub struct CaptureStream {
    decoder: CynthionStream,
    stop_pending: bool,
    ended: bool,
}

impl View for CaptureStream {
    type V = CaptureView;

    closed spec fn view(&self) -> CaptureView {
        CaptureView { decoder: self.decoder@, stop_pending: self.stop_pending, ended: self.ended }
    }
}

impl CaptureStream {
    /// The stream of a capture that has just started.
    pub fn new() -> (r: CaptureStream)
        ensures
            r@ == (CaptureView { decoder: DecoderView::initial(), stop_pending: true, ended: false }),
    {
        CaptureStream { decoder: CynthionStream::new(), stop_pending: true, ended: false }
    }

    /// Whether the stream has ended.
    pub fn is_ended(&self) -> (r: bool)
        ensures
            r == self@.ended,
    {
        self.ended
    }

    /// The next event that the bytes received so far allow, if the stream
    /// has not ended.
    pub fn next_buffered(&mut self) -> (r: Option<TimestampedEvent>)
        ensures
            old(self)@.ended ==> r is None && final(self)@ == old(self)@,
            !old(self)@.ended ==> final(self)@ == (CaptureView {
                decoder: decode_next(old(self)@.decoder).0,
                ..old(self)@
            }) && opt_event_view(r) == decode_next(old(self)@.decoder).1,
    {
        if self.ended {
            return None;
        }
        self.decoder.next_buffered_event()
    }

    /// Takes in what a wait for the next buffer gave, after `next_buffered`
    /// found nothing: an event that the new bytes complete, a timeout, or
    /// the end of the stream; `None` where the reader must wait again.
    pub fn poll_next(&mut self, wait: WaitResult) -> (r: Option<CapturePoll>)
        ensures
            old(self)@.ended ==> r == Some(CapturePoll::Ended) && final(self)@ == old(self)@,
            !old(self)@.ended ==> match wait {
                WaitResult::Received(bytes) => {
                    let d = decode_next(old(self)@.decoder.append(bytes@));
                    &&& final(self)@ == (CaptureView { decoder: d.0, ..old(self)@ })
                    &&& opt_poll_view(r) == match d.1 {
                        Some(e) => Some(CapturePollView::Event(e)),
                        None => None,
                    }
                },
                WaitResult::Timeout => r == Some(CapturePoll::Timeout) && final(self)@ == old(self)@,
                WaitResult::Ended => r == Some(CapturePoll::Ended) && final(self)@ == (CaptureView {
                    ended: true,
                    ..old(self)@
                }),
            },
    {
        if self.ended {
            return Some(CapturePoll::Ended);
        }
        match wait {
            WaitResult::Received(bytes) => {
                self.decoder.push_bytes(bytes);
                match self.decoder.next_buffered_event() {
                    Some(event) => Some(CapturePoll::Event(event)),
                    None => None,
                }
            },
            WaitResult::Timeout => Some(CapturePoll::Timeout),
            WaitResult::Ended => {
                self.ended = true;
                Some(CapturePoll::Ended)
            },
        }
    }

    /// Stops the stream, discarding undecoded bytes. Returns whether the
    /// capture worker must be told to stop now: only on the first call.
    pub fn stop(&mut self) -> (r: bool)
        ensures
            (final(self)@, r) == spec_stop(old(self)@),
    {
        let r = self.stop_pending;
        self.decoder.clear();
        self.stop_pending = false;
        self.ended = true;
        r
    }
}

/// Stopping a stream a second time asks for nothing and changes nothing.
pub proof fn lemma_stop_twice_is_noop(v: CaptureView)
    ensures
        spec_stop(spec_stop(v).0) == (spec_stop(v).0, false),
{
    assert(spec_stop(spec_stop(v).0).0.decoder == spec_stop(v).0.decoder);
}

} // verus!
