//! The aggregate snapshot and the sources that feed it.
use std::sync::Arc;
use vstd::prelude::*;

use crate::shared::share;
use bandwidth::Bandwidth;

pub mod bandwidth;

verus! {

/// One complete snapshot of the node's statistics. A snapshot is never
/// changed once it is published: an update publishes a new one.
#[derive(Debug)]
pub struct NodeStats {
    pub bandwidth: Arc<Bandwidth>,
}

impl Default for NodeStats {
    /// The snapshot before any source has reported: every metric at zero.
    fn default() -> (node_stats: Self)
        ensures
            *node_stats.bandwidth == (Bandwidth { tx_bps: 0, rx_bps: 0 }),
    {
        NodeStats { bandwidth: Arc::new(Bandwidth::default()) }
    }
}

impl Clone for NodeStats {
    fn clone(&self) -> (node_stats: Self)
        ensures
            node_stats == *self,
    {
        NodeStats { bandwidth: share(&self.bandwidth) }
    }
}

/// A source that can merge what it knows into a snapshot.
pub trait NodeStatsUpdater: Send + Sync {
    /// Returns `node_stats` with this source's contribution merged in. The
    /// merge only copies what the source has already computed: it neither
    /// waits nor measures.
    fn update_node_stats(&self, node_stats: NodeStats) -> NodeStats;
}

/// Whether `after` is a snapshot that `updater` may make of `before`: all
/// that the updater says of what its merge returns holds of `after`.
pub open spec fn merges<U: NodeStatsUpdater + ?Sized>(
    updater: &U,
    before: NodeStats,
    after: NodeStats,
) -> bool {
    call_ensures(U::update_node_stats, (updater, before), after)
}

/// A named source of one slice of the snapshot.
pub trait NodeStatsDataSource: NodeStatsUpdater {
    /// A stable name that tells in diagnostics which source drives a loop.
    fn get_name(&self) -> &'static str;
}

/// What a background loop does once a pass is over.
#[derive(Debug, PartialEq, Eq, Structural)]
pub enum LoopControl {
    /// Wait for the next wake-up and run another pass.
    Continue,
    /// End the loop for good.
    Stop,
}

/// The aggregator: it owns the published snapshot.
pub struct NodeStatsProvider {
    node_stats: Arc<NodeStats>,
}

/// The loop that merges one source's updates into the aggregator's
/// snapshot. It owns its source.
pub struct UpdateLoop<S: NodeStatsDataSource> {
    updater: S,
}

impl View for NodeStatsProvider {
    type V = NodeStats;

    /// The snapshot that is currently published.
    closed spec fn view(&self) -> NodeStats {
        *self.node_stats
    }
}

impl NodeStatsProvider {
    /// Creates the aggregator with an all-zero snapshot, and one update loop
    /// for each source, in the order of the sources.
    pub fn new<S: NodeStatsDataSource>(updaters: Vec<S>) -> (started: (Self, Vec<UpdateLoop<S>>))
        ensures
            *started.0@.bandwidth == (Bandwidth { tx_bps: 0, rx_bps: 0 }),
            started.1@.len() == updaters@.len(),
            forall|i: int|
                0 <= i < updaters@.len() ==> (#[trigger] started.1@[i]).source() == updaters@[i],
    {
        let provider = NodeStatsProvider { node_stats: Arc::new(NodeStats::default()) };
        let update_loops = start_update_loop(updaters);
        (provider, update_loops)
    }

    /// Whether `node_stats` is what a read of this aggregator gives.
    pub open spec fn reads(&self, node_stats: Arc<NodeStats>) -> bool {
        *node_stats == self@
    }

    /// Returns the published snapshot. Reading changes nothing and waits for
    /// no update loop.
    pub fn current_node_stats(&self) -> (node_stats: Arc<NodeStats>)
        ensures
            self.reads(node_stats),
    {
        share(&self.node_stats)
    }

    /// Publishes the snapshot that `updater` makes of the current one. The
    /// snapshot that was published before is left as it was for whoever still
    /// holds it.
    pub fn update_from<U: NodeStatsUpdater + ?Sized>(&mut self, updater: &U)
        ensures
            merges(updater, old(self)@, final(self)@),
    {
        let current: NodeStats = (*self.node_stats).clone();
        self.node_stats = Arc::new(updater.update_node_stats(current));
    }
}

impl<S: NodeStatsDataSource> UpdateLoop<S> {
    /// The source whose updates this loop merges.
    pub closed spec fn source(&self) -> S {
        self.updater
    }

    /// The name of the source whose updates this loop merges, as the source
    /// gives it.
    pub fn source_name(&self) -> (name: &'static str)
        ensures
            call_ensures(S::get_name, (&self.source(),), name),
    {
        self.updater.get_name()
    }

    /// One pass of the loop, run when the wait for the source's next
    /// notification has ended.
    ///
    /// `notification` is what the wait gave: nothing where the source will
    /// never notify again. `node_stats` is the aggregator, or nothing where
    /// the aggregator no longer exists. The loop stops in both of these
    /// cases and changes nothing; otherwise it publishes the snapshot that
    /// its source makes of the current one, and goes on.
    pub fn run_once(
        &self,
        notification: Option<()>,
        node_stats: Option<&mut NodeStatsProvider>,
    ) -> (control: LoopControl)
        ensures
            control == next_control(notification, node_stats is Some),
            match node_stats {
                Some(provider) => if notification is Some {
                    merges(&self.source(), provider@, final(provider)@)
                } else {
                    final(provider)@ == provider@
                },
                None => true,
            },
    {
        if notification.is_none() {
            return LoopControl::Stop;
        }
        match node_stats {
            Some(provider) => {
                provider.update_from(&self.updater);
                LoopControl::Continue
            },
            None => LoopControl::Stop,
        }
    }
}

/// Two reads of an aggregator with no update between them give the same
/// snapshot.
pub proof fn lemma_reads_agree(
    provider: NodeStatsProvider,
    first: Arc<NodeStats>,
    second: Arc<NodeStats>,
)
    requires
        provider.reads(first),
        provider.reads(second),
    ensures
        first == second,
{
}

/// An update loop stops at the first wake-up at which the aggregator no
/// longer exists, whatever its source has notified of. Besides that it stops
/// only when its source will never notify again.
pub proof fn lemma_loop_stops_without_storage(notification: Option<()>, storage_alive: bool)
    ensures
        next_control(notification, storage_alive) == LoopControl::Stop <==> (notification is None
            || !storage_alive),
        !storage_alive ==> next_control(notification, storage_alive) == LoopControl::Stop,
{
}

/// Whether an update loop goes on after a wake-up: only when a notification
/// arrived and the aggregator still exists.
pub open spec fn next_control(notification: Option<()>, storage_alive: bool) -> LoopControl {
    if notification is Some && storage_alive {
        LoopControl::Continue
    } else {
        LoopControl::Stop
    }
}

/// Builds the update loops, one for each source and in the order of the
/// sources.
fn start_update_loop<S: NodeStatsDataSource>(updaters: Vec<S>) -> (update_loops: Vec<UpdateLoop<S>>)
    ensures
        update_loops@.len() == updaters@.len(),
        forall|i: int|
            0 <= i < updaters@.len() ==> (#[trigger] update_loops@[i]).source() == updaters@[i],
{
    let mut remaining = updaters;
    let mut update_loops: Vec<UpdateLoop<S>> = Vec::new();
    while remaining.len() > 0
        invariant
            remaining@.len() + update_loops@.len() == updaters@.len(),
            forall|i: int| 0 <= i < remaining@.len() ==> remaining@[i] == updaters@[i],
            forall|i: int|
                0 <= i < update_loops@.len() ==> (#[trigger] update_loops@[i]).source()
                    == updaters@[remaining@.len() + i],
        decreases remaining@.len(),
    {
        match remaining.pop() {
            Some(updater) => {
                update_loops.insert(0, UpdateLoop { updater });
            },
            None => {},
        }
    }
    update_loops
}

} // verus!
