//! The settings of the statistics sources.
use vstd::prelude::*;

use super::error::settles;
use super::error::SettingsError;
use super::lemma_present_from;
use super::present;
use bandwidth::bandwidth_from;
use bandwidth::Bandwidth;
use bandwidth::PartialBandwidth;

pub mod bandwidth;

verus! {

/// The settings of the statistics sources.
#[derive(Debug, PartialEq, Eq)]
pub struct NodeStats {
    pub bandwidth: Bandwidth,
}

/// Settings of the statistics sources of which any part may be left out.
#[derive(Debug, PartialEq, Eq)]
pub struct PartialNodeStats {
    pub bandwidth: Option<PartialBandwidth>,
}

impl Default for PartialNodeStats {
    fn default() -> (partial: Self)
        ensures
            partial.bandwidth is None,
    {
        PartialNodeStats { bandwidth: None }
    }
}

/// The settings that `sources` amount to, or the path of the first setting
/// that none of them has.
pub open spec fn node_stats_from(sources: Seq<PartialNodeStats>) -> Result<NodeStats, Seq<char>> {
    match bandwidth_from(present(sources.map_values(|source: PartialNodeStats| source.bandwidth))) {
        Err(path) => Err(path),
        Ok(bandwidth) => Ok(NodeStats { bandwidth }),
    }
}

impl NodeStats {
    /// Merges `sources`, of which the earlier ones take precedence.
    pub fn new(sources: Vec<PartialNodeStats>) -> (node_stats: Result<Self, SettingsError>)
        ensures
            settles(node_stats, node_stats_from(sources@)),
    {
        let ghost bandwidths = sources@.map_values(|source: PartialNodeStats| source.bandwidth);
        let mut remaining = sources;
        let mut bandwidth_sources: Vec<PartialBandwidth> = Vec::new();
        while remaining.len() > 0
            invariant
                remaining@.len() <= sources@.len(),
                remaining@ == sources@.take(remaining@.len() as int),
                bandwidths == sources@.map_values(|source: PartialNodeStats| source.bandwidth),
                bandwidth_sources@ == present(bandwidths.skip(remaining@.len() as int)),
            decreases remaining@.len(),
        {
            proof {
                lemma_present_from(bandwidths, remaining@.len() as int);
            }
            match remaining.pop() {
                Some(source) => {
                    if let Some(bandwidth) = source.bandwidth {
                        bandwidth_sources.insert(0, bandwidth);
                    }
                },
                None => {},
            }
        }
        assert(bandwidths.skip(0) =~= bandwidths);

        match Bandwidth::new(bandwidth_sources) {
            Ok(bandwidth) => Ok(NodeStats { bandwidth }),
            Err(error) => Err(error),
        }
    }
}

} // verus!
