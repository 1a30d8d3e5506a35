//! The publisher of the live statistics stream: what a subscription sends,
//! and when.
use vstd::prelude::*;
use vstd::std_specs::convert::FromSpecImpl;

use crate::stats;

pub mod proto;

verus! {

/// The seconds between two snapshots of a live stream.
pub const LIVE_STATS_INTERVAL_SECS: u64 = 1;

/// How many snapshots may wait for a subscriber that has not taken them yet.
/// One slot keeps a slow subscriber from piling up memory.
pub const LIVE_STATS_QUEUE_CAPACITY: usize = 1;

impl<'a> From<&'a stats::NodeStats> for proto::NodeStats {
    /// The message for a snapshot. It always carries the bandwidth.
    fn from(node_stats: &'a stats::NodeStats) -> (message: Self) {
        proto::NodeStats {
            used_bandwidth: Some(
                proto::Bandwidth {
                    tx_bps: node_stats.bandwidth.tx_bps,
                    rx_bps: node_stats.bandwidth.rx_bps,
                },
            ),
        }
    }
}

impl<'a> FromSpecImpl<&'a stats::NodeStats> for proto::NodeStats {
    open spec fn obeys_from_spec() -> bool {
        true
    }

    open spec fn from_spec(node_stats: &'a stats::NodeStats) -> Self {
        proto::NodeStats {
            used_bandwidth: Some(
                proto::Bandwidth {
                    tx_bps: node_stats.bandwidth.tx_bps,
                    rx_bps: node_stats.bandwidth.rx_bps,
                },
            ),
        }
    }
}

/// What happened to a live stream since its last step.
#[derive(Debug, PartialEq, Eq, Structural)]
pub enum StreamEvent {
    /// The subscriber took the snapshot that was pushed.
    Delivered,
    /// The push failed: the subscriber is gone.
    DeliveryFailed,
    /// The wait for the next tick of the cadence is over.
    Tick,
}

/// What the task of a live stream does next.
#[derive(Debug, PartialEq, Eq, Structural)]
pub enum StreamStep {
    /// Read the current snapshot and push it to the subscriber now.
    Publish,
    /// Wait for the next tick of the cadence.
    AwaitTick,
    /// End the task.
    Stop,
}

/// Where a live stream stands.
#[derive(Debug, PartialEq, Eq, Structural)]
pub enum StreamState {
    /// A snapshot is due or on its way to the subscriber.
    Publishing,
    /// The last snapshot was taken; the next one is due at the next tick.
    Waiting,
    /// The subscriber is gone and the task has ended.
    Closed,
}

/// The publisher of one subscription.
pub struct LiveStatsStream {
    state: StreamState,
}

/// The state that `event` takes a stream in state `state` to. A failed
/// delivery closes the stream, and a closed stream stays closed. Events that
/// the state does not wait for leave it as it is.
pub open spec fn next_state(state: StreamState, event: StreamEvent) -> StreamState {
    match (state, event) {
        (StreamState::Closed, _) => StreamState::Closed,
        (_, StreamEvent::DeliveryFailed) => StreamState::Closed,
        (StreamState::Publishing, StreamEvent::Delivered) => StreamState::Waiting,
        (StreamState::Waiting, StreamEvent::Tick) => StreamState::Publishing,
        (StreamState::Publishing, StreamEvent::Tick) => StreamState::Publishing,
        (StreamState::Waiting, StreamEvent::Delivered) => StreamState::Waiting,
    }
}

/// What the task of a stream in state `state` does.
pub open spec fn step_of(state: StreamState) -> StreamStep {
    match state {
        StreamState::Publishing => StreamStep::Publish,
        StreamState::Waiting => StreamStep::AwaitTick,
        StreamState::Closed => StreamStep::Stop,
    }
}

/// The state of a stream in state `state` after all of `events`, in order.
pub open spec fn state_after(state: StreamState, events: Seq<StreamEvent>) -> StreamState
    decreases events.len(),
{
    if events.len() == 0 {
        state
    } else {
        next_state(state_after(state, events.drop_last()), events.last())
    }
}

impl View for LiveStatsStream {
    type V = StreamState;

    closed spec fn view(&self) -> StreamState {
        self.state
    }
}

impl LiveStatsStream {
    /// Opens the stream of a new subscription. Its first snapshot is due at
    /// once, without waiting for a tick.
    pub fn subscribe() -> (opened: (Self, StreamStep))
        ensures
            opened.0@ == StreamState::Publishing,
            opened.1 == StreamStep::Publish,
    {
        (LiveStatsStream { state: StreamState::Publishing }, StreamStep::Publish)
    }

    /// Takes in `event` and says what the task does next.
    ///
    /// After a snapshot was taken the task waits for the next tick, and at
    /// the tick it publishes again. A failed delivery ends the task, with no
    /// retry.
    pub fn on_event(&mut self, event: StreamEvent) -> (step: StreamStep)
        ensures
            final(self)@ == next_state(old(self)@, event),
            step == step_of(final(self)@),
    {
        let state = match (&self.state, event) {
            (StreamState::Closed, _) => StreamState::Closed,
            (_, StreamEvent::DeliveryFailed) => StreamState::Closed,
            (StreamState::Publishing, StreamEvent::Delivered) => StreamState::Waiting,
            (StreamState::Waiting, StreamEvent::Tick) => StreamState::Publishing,
            (StreamState::Publishing, StreamEvent::Tick) => StreamState::Publishing,
            (StreamState::Waiting, StreamEvent::Delivered) => StreamState::Waiting,
        };
        let step = match state {
            StreamState::Publishing => StreamStep::Publish,
            StreamState::Waiting => StreamStep::AwaitTick,
            StreamState::Closed => StreamStep::Stop,
        };
        self.state = state;
        step
    }

    /// Whether the task of the stream has ended.
    pub fn is_closed(&self) -> (closed: bool)
        ensures
            closed == (self@ == StreamState::Closed),
    {
        match self.state {
            StreamState::Closed => true,
            _ => false,
        }
    }
}

/// A stream that is closed stays closed whatever happens next, so its task
/// is never told to publish again.
pub proof fn lemma_closed_stream_stays_closed(events: Seq<StreamEvent>)
    ensures
        state_after(StreamState::Closed, events) == StreamState::Closed,
        step_of(state_after(StreamState::Closed, events)) == StreamStep::Stop,
    decreases events.len(),
{
    if events.len() > 0 {
        lemma_closed_stream_stays_closed(events.drop_last());
    }
}

/// One failed delivery ends a stream for good: whatever happened before the
/// failure and whatever happens after it, the task is told to stop.
pub proof fn lemma_failed_delivery_ends_stream(
    state: StreamState,
    before: Seq<StreamEvent>,
    after: Seq<StreamEvent>,
)
    ensures
        step_of(state_after(state, before.push(StreamEvent::DeliveryFailed) + after))
            == StreamStep::Stop,
    decreases after.len(),
{
    let failed = before.push(StreamEvent::DeliveryFailed);
    if after.len() == 0 {
        assert(failed + after =~= failed);
        assert(failed.drop_last() =~= before);
    } else {
        lemma_failed_delivery_ends_stream(state, before, after.drop_last());
        assert((failed + after).drop_last() =~= failed + after.drop_last());
        assert((failed + after).last() == after.last());
    }
}

/// A new subscription gets its first snapshot at once, and each further
/// snapshot one tick after the one before it was taken.
pub proof fn lemma_stream_keeps_cadence(delivered: nat)
    ensures
        state_after(StreamState::Publishing, cadence(delivered)) == StreamState::Publishing,
        step_of(state_after(StreamState::Publishing, cadence(delivered))) == StreamStep::Publish,
        state_after(StreamState::Publishing, cadence(delivered).push(StreamEvent::Delivered))
            == StreamState::Waiting,
    decreases delivered,
{
    if delivered > 0 {
        lemma_stream_keeps_cadence((delivered - 1) as nat);
        let earlier = cadence((delivered - 1) as nat);
        let taken = earlier.push(StreamEvent::Delivered);
        assert(cadence(delivered) == taken.push(StreamEvent::Tick));
        assert(cadence(delivered).drop_last() =~= taken);
        assert(taken.drop_last() =~= earlier);
    }
    let now = cadence(delivered);
    assert(now.push(StreamEvent::Delivered).drop_last() =~= now);
}

/// The events of a subscriber that took `delivered` snapshots, each followed
/// by the tick that the task then waited for.
pub open spec fn cadence(delivered: nat) -> Seq<StreamEvent>
    decreases delivered,
{
    if delivered == 0 {
        Seq::empty()
    } else {
        cadence((delivered - 1) as nat).push(StreamEvent::Delivered).push(StreamEvent::Tick)
    }
}

} // verus!
