use std::sync::Mutex;
use std::time::{Duration, Instant};

use node_stats_service::stats::bandwidth::counter_rate::{
    bandwidth_over, is_rate_in_range, CounterRateBandwidthProvider, CounterSource, CounterValues,
    RateOutOfRange,
};
use node_stats_service::stats::bandwidth::{Bandwidth, BandwidthProvider};
use node_stats_service::stats::{
    LoopControl, NodeStats, NodeStatsDataSource, NodeStatsProvider, NodeStatsUpdater,
};

struct MockCounterSource {
    rx: Mutex<Vec<u64>>,
    tx: Mutex<Vec<u64>>,
}

impl MockCounterSource {
    fn new(rx: Vec<u64>, tx: Vec<u64>) -> Self {
        MockCounterSource {
            rx: Mutex::new(rx),
            tx: Mutex::new(tx),
        }
    }
}

impl CounterSource for MockCounterSource {
    fn get_rx(&self) -> u64 {
        self.rx.lock().unwrap().remove(0)
    }

    fn get_tx(&self) -> u64 {
        self.tx.lock().unwrap().remove(0)
    }
}

#[test]
fn new_provider_publishes_the_zero_default() {
    let source = MockCounterSource::new(vec![], vec![]);
    let (provider, update_loop) =
        CounterRateBandwidthProvider::new(source, Duration::from_secs(7));

    assert_eq!(
        Bandwidth {
            rx_bps: 0,
            tx_bps: 0
        },
        *provider.current_bandwidth()
    );
    assert_eq!(Duration::from_secs(7), update_loop.update_interval());
    assert_eq!("CounterRateBandwidthProvider", provider.get_name());
}

#[test]
fn sample_reads_both_counters() {
    let source = MockCounterSource::new(vec![23, 42], vec![5, 33]);
    let (_provider, update_loop) =
        CounterRateBandwidthProvider::new(source, Duration::from_secs(1));

    let first = update_loop.sample();
    assert_eq!((23, 5), (first.rx, first.tx));
    let second = update_loop.sample();
    assert_eq!((42, 33), (second.rx, second.tx));
}

#[test]
fn first_sample_gives_no_rate_and_second_sample_gives_the_rate() {
    let source = MockCounterSource::new(vec![0, 1000], vec![0, 1000]);
    let (mut provider, mut update_loop) =
        CounterRateBandwidthProvider::new(source, Duration::from_secs(1));
    let start = Instant::now();

    let first = update_loop.sample();
    assert_eq!(Ok(None), update_loop.record(first, start));
    assert_eq!(
        Bandwidth {
            rx_bps: 0,
            tx_bps: 0
        },
        *provider.current_bandwidth()
    );

    let second = update_loop.sample();
    let outcome = update_loop.record(second, start + Duration::from_secs(1));
    assert_eq!(
        Ok(Some(Bandwidth {
            rx_bps: 8000,
            tx_bps: 8000
        })),
        outcome
    );
    provider.publish(outcome.unwrap().unwrap());
    assert_eq!(
        Bandwidth {
            rx_bps: 8000,
            tx_bps: 8000
        },
        *provider.current_bandwidth()
    );
}

#[test]
fn every_sample_becomes_the_previous_one() {
    let source = MockCounterSource::new(vec![], vec![]);
    let (_provider, mut update_loop) =
        CounterRateBandwidthProvider::new(source, Duration::from_secs(1));
    let start = Instant::now();

    assert_eq!(
        Ok(None),
        update_loop.record(CounterValues { rx: 5000, tx: 5000 }, start)
    );
    // a counter that was reset gives no rate, and is the sample to diff against next
    assert_eq!(
        Ok(None),
        update_loop.record(
            CounterValues { rx: 0, tx: 0 },
            start + Duration::from_secs(1)
        )
    );
    assert_eq!(
        Ok(Some(Bandwidth {
            rx_bps: 800,
            tx_bps: 1600
        })),
        update_loop.record(
            CounterValues { rx: 200, tx: 400 },
            start + Duration::from_secs(3)
        )
    );
    // a sample that comes too early gives no rate, and moves the previous time
    assert_eq!(
        Ok(None),
        update_loop.record(
            CounterValues { rx: 300, tx: 500 },
            start + Duration::from_millis(3500)
        )
    );
    assert_eq!(
        Ok(Some(Bandwidth {
            rx_bps: 80,
            tx_bps: 160
        })),
        update_loop.record(
            CounterValues { rx: 310, tx: 520 },
            start + Duration::from_millis(4500)
        )
    );
}

#[test]
fn record_refuses_a_rate_that_does_not_fit() {
    let source = MockCounterSource::new(vec![], vec![]);
    let (_provider, mut update_loop) =
        CounterRateBandwidthProvider::new(source, Duration::from_secs(1));
    let start = Instant::now();

    assert_eq!(
        Ok(None),
        update_loop.record(CounterValues { rx: 0, tx: 0 }, start)
    );
    assert_eq!(
        Err(RateOutOfRange),
        update_loop.record(
            CounterValues {
                rx: u64::MAX,
                tx: 0
            },
            start + Duration::from_secs(1)
        )
    );
    // the refused sample was not stored: the next one is diffed against the first
    assert_eq!(
        Ok(Some(Bandwidth {
            rx_bps: 8,
            tx_bps: 16
        })),
        update_loop.record(
            CounterValues { rx: 2, tx: 4 },
            start + Duration::from_secs(2)
        )
    );
}

#[test]
fn rate_range_is_decided_exactly() {
    let last = CounterValues { rx: 0, tx: 0 };
    let largest = u64::MAX / 8;

    assert!(is_rate_in_range(
        &CounterValues {
            rx: largest,
            tx: largest
        },
        &last,
        Some(1)
    ));
    assert_eq!(
        Some(Bandwidth {
            rx_bps: u64::MAX - 7,
            tx_bps: u64::MAX - 7
        }),
        bandwidth_over(
            &CounterValues {
                rx: largest,
                tx: largest
            },
            &last,
            Some(1)
        )
    );
    assert!(!is_rate_in_range(
        &CounterValues {
            rx: largest + 1,
            tx: 0
        },
        &last,
        Some(1)
    ));
    assert!(!is_rate_in_range(
        &CounterValues {
            rx: 0,
            tx: largest + 1
        },
        &last,
        Some(1)
    ));
    // twice the time halves the rate
    assert!(is_rate_in_range(
        &CounterValues {
            rx: u64::MAX,
            tx: u64::MAX
        },
        &last,
        Some(8)
    ));
    // where no rate is given, nothing can be out of range
    assert!(is_rate_in_range(
        &CounterValues {
            rx: u64::MAX,
            tx: u64::MAX
        },
        &last,
        Some(0)
    ));
    assert!(is_rate_in_range(
        &CounterValues {
            rx: u64::MAX,
            tx: u64::MAX
        },
        &last,
        None
    ));
}

#[test]
fn bandwidth_over_follows_the_elapsed_seconds() {
    let current = CounterValues { rx: 2000, tx: 4000 };
    let last = CounterValues { rx: 0, tx: 1000 };

    assert_eq!(None, bandwidth_over(&current, &last, None));
    assert_eq!(None, bandwidth_over(&current, &last, Some(0)));
    assert_eq!(
        Some(Bandwidth {
            rx_bps: 16000,
            tx_bps: 24000
        }),
        bandwidth_over(&current, &last, Some(1))
    );
    assert_eq!(
        Some(Bandwidth {
            rx_bps: 5328,
            tx_bps: 8000
        }),
        bandwidth_over(&current, &last, Some(3))
    );
}

#[test]
fn provider_merges_its_bandwidth_into_a_snapshot() {
    let source = MockCounterSource::new(vec![], vec![]);
    let (mut provider, _update_loop) =
        CounterRateBandwidthProvider::new(source, Duration::from_secs(1));
    provider.publish(Bandwidth {
        rx_bps: 11,
        tx_bps: 22,
    });

    let merged = provider.update_node_stats(NodeStats::default());
    assert_eq!(
        Bandwidth {
            rx_bps: 11,
            tx_bps: 22
        },
        *merged.bandwidth
    );
}

#[test]
fn steady_growth_shows_in_the_snapshot_after_two_samples() {
    let source = MockCounterSource::new(vec![0, 1000], vec![0, 1000]);
    let (mut bandwidth, mut polling) =
        CounterRateBandwidthProvider::new(source, Duration::from_secs(1));
    let start = Instant::now();

    let mut published = Vec::new();
    for tick in 0..2 {
        let values = polling.sample();
        let now = start + Duration::from_secs(tick);
        if let Some(new_bandwidth) = polling.record(values, now).unwrap() {
            bandwidth.publish(new_bandwidth);
            published.push(tick);
        }
    }
    // only the second sample notifies the aggregator
    assert_eq!(vec![1], published);

    let (mut provider, update_loops) = NodeStatsProvider::new(vec![bandwidth]);
    assert_eq!("CounterRateBandwidthProvider", update_loops[0].source_name());
    assert_eq!(
        LoopControl::Continue,
        update_loops[0].run_once(Some(()), Some(&mut provider))
    );
    assert_eq!(
        Bandwidth {
            rx_bps: 8000,
            tx_bps: 8000
        },
        *provider.current_node_stats().bandwidth
    );
}

#[test]
fn poll_samples_the_source_and_records_the_sample() {
    let source = MockCounterSource::new(vec![100, 350, 350], vec![10, 20, 5]);
    let (_provider, mut update_loop) =
        CounterRateBandwidthProvider::new(source, Duration::from_secs(1));
    let start = Instant::now();

    assert_eq!(Ok(None), update_loop.poll(start));
    assert_eq!(
        Ok(Some(Bandwidth {
            rx_bps: 1000,
            tx_bps: 40
        })),
        update_loop.poll(start + Duration::from_secs(2))
    );
    // the transmit counter went backwards
    assert_eq!(Ok(None), update_loop.poll(start + Duration::from_secs(3)));
}
