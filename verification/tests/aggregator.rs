use std::sync::Arc;

use node_stats_service::stats::bandwidth::random::{
    random_bandwidth, RandomBandwidthProvider, UPDATE_INTERVAL_SECS,
};
use node_stats_service::stats::bandwidth::{Bandwidth, BandwidthProvider};
use node_stats_service::stats::{
    LoopControl, NodeStats, NodeStatsDataSource, NodeStatsProvider, NodeStatsUpdater,
};

struct FixedSource {
    name: &'static str,
    rx_bps: u64,
    tx_bps: u64,
}

impl NodeStatsUpdater for FixedSource {
    fn update_node_stats(&self, mut node_stats: NodeStats) -> NodeStats {
        node_stats.bandwidth = Arc::new(Bandwidth {
            rx_bps: self.rx_bps,
            tx_bps: self.tx_bps,
        });
        node_stats
    }
}

impl NodeStatsDataSource for FixedSource {
    fn get_name(&self) -> &'static str {
        self.name
    }
}

fn zero() -> Bandwidth {
    Bandwidth {
        rx_bps: 0,
        tx_bps: 0,
    }
}

#[test]
fn default_snapshot_is_all_zero() {
    assert_eq!(zero(), *NodeStats::default().bandwidth);
    assert_eq!(zero(), Bandwidth::default());
}

#[test]
fn new_aggregator_publishes_the_zero_snapshot() {
    let (provider, update_loops) = NodeStatsProvider::new(Vec::<FixedSource>::new());

    assert_eq!(zero(), *provider.current_node_stats().bandwidth);
    assert!(update_loops.is_empty());
}

#[test]
fn new_aggregator_has_one_loop_for_each_source_in_order() {
    let sources = vec![
        FixedSource {
            name: "first",
            rx_bps: 1,
            tx_bps: 2,
        },
        FixedSource {
            name: "second",
            rx_bps: 3,
            tx_bps: 4,
        },
        FixedSource {
            name: "third",
            rx_bps: 5,
            tx_bps: 6,
        },
    ];
    let (provider, update_loops) = NodeStatsProvider::new(sources);

    let names: Vec<&str> = update_loops.iter().map(|l| l.source_name()).collect();
    assert_eq!(vec!["first", "second", "third"], names);
    // starting the loops publishes nothing
    assert_eq!(zero(), *provider.current_node_stats().bandwidth);
}

#[test]
fn reading_twice_without_an_update_gives_the_same_snapshot() {
    let (mut provider, _) = NodeStatsProvider::new(Vec::<FixedSource>::new());
    provider.update_from(&FixedSource {
        name: "fixed",
        rx_bps: 10,
        tx_bps: 20,
    });

    let first = provider.current_node_stats();
    let second = provider.current_node_stats();
    assert_eq!(*first.bandwidth, *second.bandwidth);
    assert!(Arc::ptr_eq(&first, &second));
    assert!(Arc::ptr_eq(&first.bandwidth, &second.bandwidth));
}

#[test]
fn update_publishes_a_new_snapshot_and_leaves_the_old_one_alone() {
    let (mut provider, _) = NodeStatsProvider::new(Vec::<FixedSource>::new());
    let before = provider.current_node_stats();

    provider.update_from(&FixedSource {
        name: "fixed",
        rx_bps: 8000,
        tx_bps: 16000,
    });

    let after = provider.current_node_stats();
    assert_eq!(
        Bandwidth {
            rx_bps: 8000,
            tx_bps: 16000
        },
        *after.bandwidth
    );
    assert_eq!(zero(), *before.bandwidth);
    assert!(!Arc::ptr_eq(&before, &after));
}

#[test]
fn update_loop_merges_on_a_notification() {
    let (mut provider, update_loops) = NodeStatsProvider::new(vec![FixedSource {
        name: "fixed",
        rx_bps: 7,
        tx_bps: 9,
    }]);

    let control = update_loops[0].run_once(Some(()), Some(&mut provider));

    assert_eq!(LoopControl::Continue, control);
    assert_eq!(
        Bandwidth {
            rx_bps: 7,
            tx_bps: 9
        },
        *provider.current_node_stats().bandwidth
    );
}

#[test]
fn update_loop_stops_when_the_source_will_not_notify_again() {
    let (mut provider, update_loops) = NodeStatsProvider::new(vec![FixedSource {
        name: "fixed",
        rx_bps: 7,
        tx_bps: 9,
    }]);

    let control = update_loops[0].run_once(None, Some(&mut provider));

    assert_eq!(LoopControl::Stop, control);
    assert_eq!(zero(), *provider.current_node_stats().bandwidth);
}

#[test]
fn update_loop_stops_when_the_aggregator_is_gone() {
    let (provider, update_loops) = NodeStatsProvider::new(vec![FixedSource {
        name: "fixed",
        rx_bps: 7,
        tx_bps: 9,
    }]);
    drop(provider);

    assert_eq!(LoopControl::Stop, update_loops[0].run_once(Some(()), None));
    assert_eq!(LoopControl::Stop, update_loops[0].run_once(None, None));
}

#[test]
fn last_update_wins_between_two_sources() {
    let (mut provider, update_loops) = NodeStatsProvider::new(vec![
        FixedSource {
            name: "first",
            rx_bps: 1,
            tx_bps: 2,
        },
        FixedSource {
            name: "second",
            rx_bps: 3,
            tx_bps: 4,
        },
    ]);

    update_loops[1].run_once(Some(()), Some(&mut provider));
    update_loops[0].run_once(Some(()), Some(&mut provider));

    assert_eq!(
        Bandwidth {
            rx_bps: 1,
            tx_bps: 2
        },
        *provider.current_node_stats().bandwidth
    );
}

#[test]
fn random_provider_is_a_data_source_like_any_other() {
    let mut random = RandomBandwidthProvider::new();
    assert_eq!("RandomBandwidthProvider", random.get_name());
    assert_eq!(zero(), *random.current_bandwidth());
    assert_eq!(zero(), *RandomBandwidthProvider::default().current_bandwidth());

    random.publish(Bandwidth {
        rx_bps: 123,
        tx_bps: 456,
    });
    let (mut provider, update_loops) = NodeStatsProvider::new(vec![random]);
    assert_eq!("RandomBandwidthProvider", update_loops[0].source_name());
    assert_eq!(
        LoopControl::Continue,
        update_loops[0].run_once(Some(()), Some(&mut provider))
    );
    assert_eq!(
        Bandwidth {
            rx_bps: 123,
            tx_bps: 456
        },
        *provider.current_node_stats().bandwidth
    );
}

#[test]
fn random_bandwidth_is_published_as_drawn() {
    assert_eq!(5, UPDATE_INTERVAL_SECS);
    let mut random = RandomBandwidthProvider::new();
    let drawn = random_bandwidth();
    let (rx_bps, tx_bps) = (drawn.rx_bps, drawn.tx_bps);
    random.publish(drawn);
    assert_eq!(Bandwidth { rx_bps, tx_bps }, *random.current_bandwidth());
}

#[test]
fn random_bandwidth_varies() {
    let first = random_bandwidth();
    let mut varied = false;
    for _ in 0..64 {
        if random_bandwidth() != first {
            varied = true;
        }
    }
    assert!(varied);
}
