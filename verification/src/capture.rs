//! The capture loop's logic: each frame read from the device channel feeds
//! exactly one update into the aggregator, sized by the raw buffer length;
//! the first fatal channel error ends the loop.

use vstd::prelude::*;
use crate::metrics::{
    NetworkMetrics, apply_updates, lemma_apply_updates_cons, lemma_total_bytes_cons,
    total_bytes, updated,
};

verus! {

/// The smallest buffer that decodes as an Ethernet frame: the fixed header
/// (destination, source, ethertype).
pub const ETHERNET_HEADER_BYTES: usize = 14;

/// Relies on pnet::packet::ethernet::EthernetPacket::new, which returns Some
/// exactly when the buffer holds at least the fixed 14-byte Ethernet header,
/// borrowing the buffer whole.
#[verifier::external_body]
fn ethernet_decodes(frame: &[u8]) -> (r: bool)
    ensures
        r == (frame@.len() >= ETHERNET_HEADER_BYTES),
{
    pnet::packet::ethernet::EthernetPacket::new(frame).is_some()
}

/// One observation from the device channel: a frame's raw bytes, or a fatal
/// read error.
pub enum CaptureEvent {
    Frame(Vec<u8>),
    Fatal,
}

/// The sizes of the frames the capture loop processes out of `events` from
/// position `i` on: one per frame, in order, stopping at the first fatal
/// error.
pub open spec fn frame_sizes_from(events: Seq<CaptureEvent>, i: int) -> Seq<nat>
    decreases events.len() - i,
{
    if i < 0 || i >= events.len() {
        Seq::empty()
    } else {
        match events[i] {
            CaptureEvent::Frame(f) => seq![f@.len()] + frame_sizes_from(events, i + 1),
            CaptureEvent::Fatal => Seq::empty(),
        }
    }
}

/// The sizes of all frames the capture loop processes out of `events`.
pub open spec fn frame_sizes(events: Seq<CaptureEvent>) -> Seq<nat> {
    frame_sizes_from(events, 0)
}

/// Whether the capture loop, run over `events` from position `i` on, ends at
/// a fatal error rather than by exhausting the events.
pub open spec fn fatal_from(events: Seq<CaptureEvent>, i: int) -> bool
    decreases events.len() - i,
{
    if i < 0 || i >= events.len() {
        false
    } else {
        match events[i] {
            CaptureEvent::Frame(_) => fatal_from(events, i + 1),
            CaptureEvent::Fatal => true,
        }
    }
}

/// Whether `events` holds a fatal error before running out.
pub open spec fn sees_fatal(events: Seq<CaptureEvent>) -> bool {
    fatal_from(events, 0)
}

/// How a run of the capture loop ended: how many frames were read, and
/// whether a fatal channel error ended it.
pub struct CaptureOutcome {
    pub frames: usize,
    pub fatal: bool,
}

/// Process one captured frame: feed its raw byte length to the aggregator —
/// exactly one update per frame, whether or not the frame decodes — and
/// report whether it decodes as an Ethernet frame.
pub fn handle_frame(metrics: &mut NetworkMetrics, frame: &[u8]) -> (decoded: bool)
    requires
        old(metrics)@.packet_count + 1 <= usize::MAX,
        old(metrics)@.byte_count + frame@.len() <= usize::MAX,
    ensures
        final(metrics)@ == updated(old(metrics)@, frame@.len()),
        decoded == (frame@.len() >= ETHERNET_HEADER_BYTES),
{
    let decoded = ethernet_decodes(frame);
    metrics.update(frame.len());
    decoded
}

/// Run the capture loop over a recorded sequence of device events — the
/// deterministic stand-in for a live channel. Every frame before the first
/// fatal error feeds exactly one update, sized by its raw byte length; no
/// frame is dropped, no update happens without a frame, and the loop stops at
/// the first fatal error.
pub fn run_capture(metrics: &mut NetworkMetrics, events: &Vec<CaptureEvent>) -> (r: CaptureOutcome)
    requires
        old(metrics)@.packet_count + frame_sizes(events@).len() <= usize::MAX,
        old(metrics)@.byte_count + total_bytes(frame_sizes(events@)) <= usize::MAX,
    ensures
        final(metrics)@ == apply_updates(old(metrics)@, frame_sizes(events@)),
        r.frames == frame_sizes(events@).len(),
        r.fatal == sees_fatal(events@),
{
    let mut frames: usize = 0;
    let mut i: usize = 0;
    while i < events.len()
        invariant
            0 <= i <= events.len(),
            frames <= i,
            frames + frame_sizes_from(events@, i as int).len() == frame_sizes(events@).len(),
            fatal_from(events@, i as int) == sees_fatal(events@),
            apply_updates(metrics@, frame_sizes_from(events@, i as int))
                == apply_updates(old(metrics)@, frame_sizes(events@)),
            metrics@.packet_count + frame_sizes_from(events@, i as int).len() <= usize::MAX,
            metrics@.byte_count + total_bytes(frame_sizes_from(events@, i as int)) <= usize::MAX,
        decreases events.len() - i,
    {
        match &events[i] {
            CaptureEvent::Frame(f) => {
                proof {
                    let rest = frame_sizes_from(events@, i + 1);
                    lemma_apply_updates_cons(metrics@, f@.len(), rest);
                    lemma_total_bytes_cons(f@.len(), rest);
                }
                handle_frame(metrics, f.as_slice());
                frames = frames + 1;
            }
            CaptureEvent::Fatal => {
                proof {
                    assert(frame_sizes_from(events@, i as int) =~= Seq::<nat>::empty());
                }
                return CaptureOutcome { frames, fatal: true };
            }
        }
        i = i + 1;
    }
    CaptureOutcome { frames, fatal: false }
}

} // verus!
