//! The messages of the live statistics stream, as they go over the wire.
use vstd::prelude::*;

verus! {

/// The request that opens a live statistics stream. It carries nothing.
#[derive(Debug, PartialEq, Eq, Structural)]
pub struct LiveNodeStatsRequest {}

/// The bandwidth sub-message.
#[derive(Debug, PartialEq, Eq, Structural)]
pub struct Bandwidth {
    pub tx_bps: u64,
    pub rx_bps: u64,
}

/// One statistics message of the stream.
#[derive(Debug, PartialEq, Eq, Structural)]
pub struct NodeStats {
    pub used_bandwidth: Option<Bandwidth>,
}

} // verus!
