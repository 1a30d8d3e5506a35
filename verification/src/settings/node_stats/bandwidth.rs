//! The settings of the counter-rate bandwidth source.
use std::time::Duration;
use vstd::prelude::*;

use crate::settings::error::settles;
use crate::settings::error::SettingsError;
use crate::settings::first_some;
use crate::settings::lemma_first_some_from;

verus! {

/// The settings of the counter-rate bandwidth source: the files that hold
/// the counters of transmitted and of received bytes, and the time between
/// two samples.
#[derive(Debug, PartialEq, Eq)]
pub struct Bandwidth {
    pub tx_file: String,
    pub rx_file: String,
    pub update_interval: Duration,
}

/// Settings of the bandwidth source of which any part may be left out.
#[derive(Debug, PartialEq, Eq)]
pub struct PartialBandwidth {
    pub tx_file: Option<String>,
    pub rx_file: Option<String>,
    pub update_interval: Option<Duration>,
}

impl Default for PartialBandwidth {
    fn default() -> (partial: Self)
        ensures
            partial.tx_file is None,
            partial.rx_file is None,
            partial.update_interval is None,
    {
        PartialBandwidth { tx_file: None, rx_file: None, update_interval: None }
    }
}

/// For each setting the value of the first of `sources` that has one.
pub open spec fn merged_bandwidth(sources: Seq<PartialBandwidth>) -> PartialBandwidth {
    PartialBandwidth {
        tx_file: first_some(sources.map_values(|source: PartialBandwidth| source.tx_file)),
        rx_file: first_some(sources.map_values(|source: PartialBandwidth| source.rx_file)),
        update_interval: first_some(
            sources.map_values(|source: PartialBandwidth| source.update_interval),
        ),
    }
}

/// The settings that `sources` amount to, or the path of the first setting
/// that none of them has, in the order transmit file, receive file,
/// interval.
pub open spec fn bandwidth_from(sources: Seq<PartialBandwidth>) -> Result<Bandwidth, Seq<char>> {
    let merged = merged_bandwidth(sources);
    if merged.tx_file is None {
        Err("bandwidth.tx_file"@)
    } else if merged.rx_file is None {
        Err("bandwidth.rx_file"@)
    } else if merged.update_interval is None {
        Err("bandwidth.update_interval"@)
    } else {
        Ok(
            Bandwidth {
                tx_file: merged.tx_file.unwrap(),
                rx_file: merged.rx_file.unwrap(),
                update_interval: merged.update_interval.unwrap(),
            },
        )
    }
}

impl Bandwidth {
    /// Merges `sources`, of which the earlier ones take precedence.
    pub fn new(sources: Vec<PartialBandwidth>) -> (bandwidth: Result<Self, SettingsError>)
        ensures
            settles(bandwidth, bandwidth_from(sources@)),
    {
        let ghost txs = sources@.map_values(|source: PartialBandwidth| source.tx_file);
        let ghost rxs = sources@.map_values(|source: PartialBandwidth| source.rx_file);
        let ghost intervals = sources@.map_values(
            |source: PartialBandwidth| source.update_interval,
        );
        let mut remaining = sources;
        let mut merged = PartialBandwidth::default();
        while remaining.len() > 0
            invariant
                remaining@.len() <= sources@.len(),
                remaining@ == sources@.take(remaining@.len() as int),
                txs == sources@.map_values(|source: PartialBandwidth| source.tx_file),
                rxs == sources@.map_values(|source: PartialBandwidth| source.rx_file),
                intervals == sources@.map_values(
                    |source: PartialBandwidth| source.update_interval,
                ),
                merged.tx_file == first_some(txs.skip(remaining@.len() as int)),
                merged.rx_file == first_some(rxs.skip(remaining@.len() as int)),
                merged.update_interval == first_some(intervals.skip(remaining@.len() as int)),
            decreases remaining@.len(),
        {
            proof {
                lemma_first_some_from(txs, remaining@.len() as int);
                lemma_first_some_from(rxs, remaining@.len() as int);
                lemma_first_some_from(intervals, remaining@.len() as int);
            }
            match remaining.pop() {
                Some(source) => {
                    let PartialBandwidth { tx_file, rx_file, update_interval } = source;
                    if tx_file.is_some() {
                        merged.tx_file = tx_file;
                    }
                    if rx_file.is_some() {
                        merged.rx_file = rx_file;
                    }
                    if update_interval.is_some() {
                        merged.update_interval = update_interval;
                    }
                },
                None => {},
            }
        }
        assert(txs.skip(0) =~= txs);
        assert(rxs.skip(0) =~= rxs);
        assert(intervals.skip(0) =~= intervals);

        let PartialBandwidth { tx_file, rx_file, update_interval } = merged;
        let tx_file = match tx_file {
            Some(file) => file,
            None => {
                return Err(SettingsError::missing("bandwidth.tx_file"));
            },
        };
        let rx_file = match rx_file {
            Some(file) => file,
            None => {
                return Err(SettingsError::missing("bandwidth.rx_file"));
            },
        };
        let update_interval = match update_interval {
            Some(interval) => interval,
            None => {
                return Err(SettingsError::missing("bandwidth.update_interval"));
            },
        };
        Ok(Bandwidth { tx_file, rx_file, update_interval })
    }
}

} // verus!
