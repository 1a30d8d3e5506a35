//! Throughput of the node in bits per second, and the sources that measure it.
use std::sync::Arc;
use vstd::prelude::*;

use super::merges;
use super::NodeStats;
use super::NodeStatsUpdater;

pub mod counter_rate;
pub mod random;

verus! {

/// Received and transmitted throughput, in bits per second.
#[derive(Debug, PartialEq, Eq, Structural)]
pub struct Bandwidth {
    pub tx_bps: u64,
    pub rx_bps: u64,
}

impl Default for Bandwidth {
    /// No traffic in either direction.
    fn default() -> (bandwidth: Self)
        ensures
            bandwidth == (Bandwidth { tx_bps: 0, rx_bps: 0 }),
    {
        Self { tx_bps: 0, rx_bps: 0 }
    }
}

/// A source of the node's current bandwidth.
pub trait BandwidthProvider: Send + Sync {
    /// Returns the bandwidth that was published last; before anything was
    /// published that is the zero default.
    fn current_bandwidth(&self) -> Arc<Bandwidth>;
}

/// Whether `bandwidth` is what `provider` may give as its current
/// bandwidth: all that the provider says of it holds of `bandwidth`.
pub open spec fn provides<T: BandwidthProvider + ?Sized>(
    provider: &T,
    bandwidth: Arc<Bandwidth>,
) -> bool {
    call_ensures(T::current_bandwidth, (provider,), bandwidth)
}

/// The snapshot `node_stats` with its bandwidth replaced by `bandwidth`.
pub open spec fn with_bandwidth(node_stats: NodeStats, bandwidth: Bandwidth) -> NodeStats {
    NodeStats { bandwidth: Arc::new(bandwidth), ..node_stats }
}

/// A snapshot into which a bandwidth provider was merged shows a bandwidth
/// that the provider gives as its current one, and is otherwise the snapshot
/// that it was before.
pub proof fn lemma_merge_shows_current_bandwidth<T: BandwidthProvider>(
    provider: T,
    before: NodeStats,
    after: NodeStats,
)
    requires
        merges(&provider, before, after),
    ensures
        provides(&provider, after.bandwidth),
        after == with_bandwidth(before, *after.bandwidth),
{
}

impl<T: BandwidthProvider> NodeStatsUpdater for T {
    /// A bandwidth provider contributes its current bandwidth and leaves the
    /// rest of the snapshot as it is.
    fn update_node_stats(&self, node_stats: NodeStats) -> (merged: NodeStats)
        ensures
            provides(self, merged.bandwidth),
            merged == with_bandwidth(node_stats, *merged.bandwidth),
    {
        let mut node_stats = node_stats;
        node_stats.bandwidth = self.current_bandwidth();

        node_stats
    }
}

} // verus!
