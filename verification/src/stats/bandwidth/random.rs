//! A synthetic bandwidth source that stands in for real counters.
use rand::thread_rng;
use rand::Rng;
use std::sync::Arc;
use vstd::prelude::*;

use super::with_bandwidth;
use super::Bandwidth;
use super::BandwidthProvider;
use crate::shared::share;
use crate::stats::merges;
use crate::stats::NodeStats;
use crate::stats::NodeStatsDataSource;

verus! {

/// The seconds between two values of the synthetic source.
pub const UPDATE_INTERVAL_SECS: u64 = 5;

/// Publishes made-up bandwidth. To the aggregator it is a provider like any
/// other.
pub struct RandomBandwidthProvider {
    bandwidth: Arc<Bandwidth>,
}

/// `thread_rng().gen::<u64>()`: the next value of the thread's random
/// number generator. Every `u64` can come back, so nothing is claimed of it.
#[verifier::external_body]
fn random_u64() -> u64 {
    thread_rng().gen::<u64>()
}

/// Draws the bandwidth that the synthetic source publishes next: one random
/// value for the receive rate, then one for the transmit rate.
pub fn random_bandwidth() -> Bandwidth {
    let rx_bps: u64 = random_u64();
    let tx_bps: u64 = random_u64();

    Bandwidth { rx_bps, tx_bps }
}

impl RandomBandwidthProvider {
    /// Creates the provider, which publishes the zero default.
    pub fn new() -> (provider: Self)
        ensures
            provider.published() == (Bandwidth { tx_bps: 0, rx_bps: 0 }),
    {
        RandomBandwidthProvider { bandwidth: Arc::new(Bandwidth::default()) }
    }

    /// The bandwidth that was published last.
    pub closed spec fn published(&self) -> Bandwidth {
        *self.bandwidth
    }

    /// Replaces the published bandwidth with `new_bandwidth`. The synthetic
    /// source publishes, and notifies, on every tick.
    pub fn publish(&mut self, new_bandwidth: Bandwidth)
        ensures
            final(self).published() == new_bandwidth,
    {
        self.bandwidth = Arc::new(new_bandwidth);
    }
}

impl BandwidthProvider for RandomBandwidthProvider {
    fn current_bandwidth(&self) -> (bandwidth: Arc<Bandwidth>)
        ensures
            *bandwidth == self.published(),
    {
        share(&self.bandwidth)
    }
}

/// A snapshot into which a synthetic provider was merged shows the bandwidth
/// that the provider has published last.
pub proof fn lemma_merge_shows_published_bandwidth(
    provider: RandomBandwidthProvider,
    before: NodeStats,
    after: NodeStats,
)
    requires
        merges(&provider, before, after),
    ensures
        *after.bandwidth == provider.published(),
        after == with_bandwidth(before, provider.published()),
{
}

impl NodeStatsDataSource for RandomBandwidthProvider {
    fn get_name(&self) -> (name: &'static str)
        ensures
            name@ == "RandomBandwidthProvider"@,
    {
        "RandomBandwidthProvider"
    }
}

impl Default for RandomBandwidthProvider {
    fn default() -> (provider: Self)
        ensures
            provider.published() == (Bandwidth { tx_bps: 0, rx_bps: 0 }),
    {
        RandomBandwidthProvider::new()
    }
}

} // verus!
