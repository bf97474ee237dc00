//! The metrics aggregator: cumulative frame and byte counters for one capture
//! session, with consistent snapshots.

use vstd::prelude::*;

verus! {

/// An aggregator state as contracts see it: the two counters as unbounded
/// naturals.
pub struct MetricsModel {
    pub packet_count: nat,
    pub byte_count: nat,
}

/// The state of a freshly constructed aggregator: both counters at zero.
pub open spec fn fresh_metrics() -> MetricsModel {
    MetricsModel { packet_count: 0, byte_count: 0 }
}

/// One update step: one more frame, `packet_size` more bytes.
pub open spec fn updated(m: MetricsModel, packet_size: nat) -> MetricsModel {
    MetricsModel {
        packet_count: m.packet_count + 1,
        byte_count: m.byte_count + packet_size,
    }
}

/// The state after applying one update per element of `sizes`, in order.
pub open spec fn apply_updates(m: MetricsModel, sizes: Seq<nat>) -> MetricsModel
    decreases sizes.len(),
{
    if sizes.len() == 0 {
        m
    } else {
        apply_updates(updated(m, sizes[0]), sizes.drop_first())
    }
}

/// The sum of the sizes in `sizes`.
pub open spec fn total_bytes(sizes: Seq<nat>) -> nat
    decreases sizes.len(),
{
    if sizes.len() == 0 {
        0
    } else {
        sizes[0] + total_bytes(sizes.drop_first())
    }
}

#[verifier::external_type_specification]
#[verifier::external_body]
pub struct ExInstant(std::time::Instant);

/// Relies on std::time::Instant::now for the start-of-session timestamp; the
/// result depends on the time of the call, so nothing is stated of it.
pub assume_specification[ std::time::Instant::now ]() -> std::time::Instant;

/// Relies on std::time::Instant::elapsed and Duration::as_millis to measure
/// wall time since `start`; the result depends on the time of the call, so
/// nothing is stated of it.
#[verifier::external_body]
fn elapsed_millis(start: &std::time::Instant) -> (r: u128) {
    start.elapsed().as_millis()
}

/// A point-in-time copy of the counters plus the elapsed capture time,
/// measured in whole milliseconds at snapshot time.
pub struct NetworkMetricsSnapshot {
    pub packet_count: usize,
    pub byte_count: usize,
    pub duration_millis: u128,
}

/// The aggregate state of one capture session. The counters never decrease;
/// they move only through `update`, both together in one step.
pub struct NetworkMetrics {
    packet_count: usize,
    byte_count: usize,
    start_time: std::time::Instant,
}

impl View for NetworkMetrics {
    type V = MetricsModel;

    closed spec fn view(&self) -> MetricsModel {
        MetricsModel {
            packet_count: self.packet_count as nat,
            byte_count: self.byte_count as nat,
        }
    }
}

impl NetworkMetrics {
    /// Construction: the single initialization point. Both counters start at
    /// zero and the start timestamp is captured once.
    pub fn new() -> (m: NetworkMetrics)
        ensures
            m@ == fresh_metrics(),
    {
        NetworkMetrics {
            packet_count: 0,
            byte_count: 0,
            start_time: std::time::Instant::now(),
        }
    }

    /// One observation: one more frame of `packet_size` bytes. Both counters
    /// move together in this single step.
    pub fn update(&mut self, packet_size: usize)
        requires
            old(self)@.packet_count + 1 <= usize::MAX,
            old(self)@.byte_count + packet_size <= usize::MAX,
        ensures
            final(self)@ == updated(old(self)@, packet_size as nat),
    {
        self.packet_count = self.packet_count + 1;
        self.byte_count = self.byte_count + packet_size;
    }

    /// A consistent snapshot: both counters come from the same update
    /// boundary, and the elapsed time is measured at snapshot time.
    pub fn snapshot(&self) -> (s: NetworkMetricsSnapshot)
        ensures
            s.packet_count == self@.packet_count,
            s.byte_count == self@.byte_count,
    {
        NetworkMetricsSnapshot {
            packet_count: self.packet_count,
            byte_count: self.byte_count,
            duration_millis: elapsed_millis(&self.start_time),
        }
    }

    /// The number of frames observed so far.
    pub fn packet_count(&self) -> (r: usize)
        ensures
            r == self@.packet_count,
    {
        self.packet_count
    }

    /// The number of bytes observed so far.
    pub fn byte_count(&self) -> (r: usize)
        ensures
            r == self@.byte_count,
    {
        self.byte_count
    }
}

/// Unfolding one update out of a run: applying the updates of `seq![x] + s`
/// is one step of size `x` followed by the updates of `s`.
pub proof fn lemma_apply_updates_cons(m: MetricsModel, x: nat, s: Seq<nat>)
    ensures
        apply_updates(m, seq![x] + s) == apply_updates(updated(m, x), s),
{
    let c = seq![x] + s;
    assert(c[0] == x);
    assert(c.drop_first() =~= s);
}

/// The byte total of `seq![x] + s` is `x` plus the byte total of `s`.
pub proof fn lemma_total_bytes_cons(x: nat, s: Seq<nat>)
    ensures
        total_bytes(seq![x] + s) == x + total_bytes(s),
{
    let c = seq![x] + s;
    assert(c[0] == x);
    assert(c.drop_first() =~= s);
}

/// Monotonicity: after any sequence of updates the frame counter has grown by
/// exactly the number of updates made, and the byte counter by exactly the sum
/// of the sizes passed, whatever snapshots were interleaved (snapshots do not
/// change the state).
pub proof fn lemma_update_totals(m: MetricsModel, sizes: Seq<nat>)
    ensures
        apply_updates(m, sizes).packet_count == m.packet_count + sizes.len(),
        apply_updates(m, sizes).byte_count == m.byte_count + total_bytes(sizes),
    decreases sizes.len(),
{
    if sizes.len() != 0 {
        lemma_update_totals(updated(m, sizes[0]), sizes.drop_first());
    }
}

/// Snapshot consistency: from a fresh aggregator, after the updates in `sizes`
/// and with none in flight, the counters any snapshot reports are exactly
/// `sizes.len()` frames and `total_bytes(sizes)` bytes.
pub proof fn lemma_snapshot_consistency(sizes: Seq<nat>)
    ensures
        apply_updates(fresh_metrics(), sizes).packet_count == sizes.len(),
        apply_updates(fresh_metrics(), sizes).byte_count == total_bytes(sizes),
{
    lemma_update_totals(fresh_metrics(), sizes);
}

/// No lost updates: a run of `callers` concurrent callers, each making
/// `calls_each` updates of size one, reaches the aggregator as some
/// serialization of `callers * calls_each` single steps — and every such
/// serialization, from a fresh state, ends with exactly `callers * calls_each`
/// frames and as many bytes.
pub proof fn lemma_no_lost_updates(sizes: Seq<nat>, callers: nat, calls_each: nat)
    requires
        sizes.len() == callers * calls_each,
        forall|i: int| 0 <= i < sizes.len() ==> sizes[i] == 1,
    ensures
        apply_updates(fresh_metrics(), sizes).packet_count == callers * calls_each,
        apply_updates(fresh_metrics(), sizes).byte_count == callers * calls_each,
{
    lemma_update_totals(fresh_metrics(), sizes);
    lemma_total_bytes_all_ones(sizes);
}

/// The byte total of a sequence of size-one updates is its length.
proof fn lemma_total_bytes_all_ones(sizes: Seq<nat>)
    requires
        forall|i: int| 0 <= i < sizes.len() ==> sizes[i] == 1,
    ensures
        total_bytes(sizes) == sizes.len(),
    decreases sizes.len(),
{
    if sizes.len() != 0 {
        lemma_total_bytes_all_ones(sizes.drop_first());
    }
}

} // verus!
