//! Bandwidth as the rate at which a pair of byte counters grows.
use std::sync::Arc;
use std::time::Duration;
use std::time::Instant;
use vstd::prelude::*;

use super::with_bandwidth;
use super::Bandwidth;
use super::BandwidthProvider;
use crate::clock::elapsed_seconds;
use crate::clock::seconds_since;
use crate::shared::share;
use crate::stats::merges;
use crate::stats::NodeStats;
use crate::stats::NodeStatsDataSource;

pub mod counter_source;

verus! {

/// Where the raw byte counters come from. Both reads always give a value: a
/// source that cannot read its counter reports the failure on its own and
/// gives zero.
pub trait CounterSource: Send + Sync {
    /// The bytes received so far.
    fn get_rx(&self) -> u64;

    /// The bytes transmitted so far.
    fn get_tx(&self) -> u64;
}

/// Byte counters of one interface, read at one moment.
#[derive(Debug)]
pub struct CounterValues {
    pub rx: u64,
    pub tx: u64,
}

impl Default for CounterValues {
    fn default() -> (values: Self)
        ensures
            values == (CounterValues { rx: 0, tx: 0 }),
    {
        Self { rx: 0, tx: 0 }
    }
}

/// Bits per second of a counter that grew by `bytes` over `seconds`: the
/// byte rate is truncated to a whole number first and then scaled to bits.
pub open spec fn bits_per_second(bytes: int, seconds: int) -> int {
    (bytes / seconds) * 8
}

/// Whether two samples taken `seconds` apart give a rate: there must be an
/// earlier sample, neither counter may have gone backwards, and at least one
/// whole second must lie between them.
pub open spec fn gives_rate(
    current: CounterValues,
    last: CounterValues,
    seconds: Option<u64>,
) -> bool {
    &&& seconds matches Some(s)
    &&& s >= 1
    &&& current.rx >= last.rx
    &&& current.tx >= last.tx
}

/// Receive rate between the two samples, in bits per second.
pub open spec fn rx_rate(current: CounterValues, last: CounterValues, seconds: u64) -> int {
    bits_per_second(current.rx - last.rx, seconds as int)
}

/// Transmit rate between the two samples, in bits per second.
pub open spec fn tx_rate(current: CounterValues, last: CounterValues, seconds: u64) -> int {
    bits_per_second(current.tx - last.tx, seconds as int)
}

/// Whether the rate between the two samples, if there is one, can be held in
/// a `Bandwidth`.
pub open spec fn rate_in_range(
    current: CounterValues,
    last: CounterValues,
    seconds: Option<u64>,
) -> bool {
    gives_rate(current, last, seconds) ==> {
        &&& rx_rate(current, last, seconds.unwrap()) <= u64::MAX
        &&& tx_rate(current, last, seconds.unwrap()) <= u64::MAX
    }
}

/// The bandwidth that two samples taken `seconds` apart amount to.
pub open spec fn rate_between(
    current: CounterValues,
    last: CounterValues,
    seconds: Option<u64>,
) -> Option<Bandwidth> {
    if gives_rate(current, last, seconds) {
        Some(
            Bandwidth {
                rx_bps: rx_rate(current, last, seconds.unwrap()) as u64,
                tx_bps: tx_rate(current, last, seconds.unwrap()) as u64,
            },
        )
    } else {
        None
    }
}

/// Decides whether the rate between two samples fits a `Bandwidth`.
pub fn is_rate_in_range(
    current: &CounterValues,
    last: &CounterValues,
    seconds: Option<u64>,
) -> (fits: bool)
    ensures
        fits == rate_in_range(*current, *last, seconds),
{
    match seconds {
        None => true,
        Some(s) => {
            if s == 0 || current.rx < last.rx || current.tx < last.tx {
                true
            } else {
                let limit: u64 = u64::MAX / 8;
                (current.rx - last.rx) / s <= limit && (current.tx - last.tx) / s <= limit
            }
        },
    }
}

/// Turns two counter samples and the whole seconds between them into a
/// bandwidth.
///
/// Nothing is returned for the first sample, for a counter that went
/// backwards, and for samples less than a second apart.
pub fn bandwidth_over(
    current: &CounterValues,
    last: &CounterValues,
    seconds: Option<u64>,
) -> (bandwidth: Option<Bandwidth>)
    requires
        rate_in_range(*current, *last, seconds),
    ensures
        bandwidth == rate_between(*current, *last, seconds),
        seconds is None ==> bandwidth is None,
        current.rx < last.rx || current.tx < last.tx ==> bandwidth is None,
        seconds == Some(0u64) ==> bandwidth is None,
        seconds matches Some(s) ==> (s >= 1 && current.rx >= last.rx && current.tx >= last.tx
            ==> bandwidth == Some(
            Bandwidth {
                rx_bps: (((current.rx - last.rx) / (s as int)) * 8) as u64,
                tx_bps: (((current.tx - last.tx) / (s as int)) * 8) as u64,
            },
        )),
{
    let duration_in_s: u64 = match seconds {
        None => {
            return None;
        },
        Some(s) => s,
    };

    if current.rx < last.rx || current.tx < last.tx {
        return None;
    }
    if duration_in_s == 0 {
        return None;
    }
    let rx_diff: u64 = current.rx - last.rx;
    let tx_diff: u64 = current.tx - last.tx;

    let rx_bps: u64 = (rx_diff / duration_in_s) * 8;
    let tx_bps: u64 = (tx_diff / duration_in_s) * 8;

    Some(Bandwidth { rx_bps, tx_bps })
}

/// Computes the bandwidth between the previous sample, taken at `last_time`,
/// and the current one, taken at `current_time`.
pub fn calc_bandwidth(
    current_counter_values: &CounterValues,
    last_counter_values: &CounterValues,
    last_time: &Option<Instant>,
    current_time: &Instant,
) -> (bandwidth: Option<Bandwidth>)
    requires
        rate_in_range(
            *current_counter_values,
            *last_counter_values,
            seconds_since(*last_time, *current_time),
        ),
    ensures
        bandwidth == rate_between(
            *current_counter_values,
            *last_counter_values,
            seconds_since(*last_time, *current_time),
        ),
        *last_time is None ==> bandwidth is None,
        current_counter_values.rx < last_counter_values.rx || current_counter_values.tx
            < last_counter_values.tx ==> bandwidth is None,
        seconds_since(*last_time, *current_time) == Some(0u64) ==> bandwidth is None,
        seconds_since(*last_time, *current_time) matches Some(s) ==> (s >= 1
            && current_counter_values.rx >= last_counter_values.rx && current_counter_values.tx
            >= last_counter_values.tx ==> bandwidth == Some(
            Bandwidth {
                rx_bps: (((current_counter_values.rx - last_counter_values.rx) / (s as int))
                    * 8) as u64,
                tx_bps: (((current_counter_values.tx - last_counter_values.tx) / (s as int))
                    * 8) as u64,
            },
        )),
{
    let seconds = elapsed_seconds(last_time, current_time);
    bandwidth_over(current_counter_values, last_counter_values, seconds)
}

/// Counters that grow by `bytes_per_second` every second show as eight
/// times that many bits per second, however many whole seconds lie between
/// the two samples.
pub proof fn lemma_steady_growth_gives_its_rate(
    current: CounterValues,
    last: CounterValues,
    seconds: u64,
    bytes_per_second: nat,
)
    requires
        seconds >= 1,
        current.rx == last.rx + bytes_per_second * seconds,
        current.tx == last.tx + bytes_per_second * seconds,
    ensures
        rate_in_range(current, last, Some(seconds)) <==> bytes_per_second * 8 <= u64::MAX,
        bytes_per_second * 8 <= u64::MAX ==> rate_between(current, last, Some(seconds)) == Some(
            Bandwidth {
                rx_bps: (bytes_per_second * 8) as u64,
                tx_bps: (bytes_per_second * 8) as u64,
            },
        ),
{
    assert((bytes_per_second * seconds) / (seconds as int) == bytes_per_second)
        by (nonlinear_arith)
        requires
            seconds >= 1,
    ;
}

/// The error for two samples whose rate is too large for a `Bandwidth`.
#[derive(Debug, PartialEq, Eq, Structural)]
pub struct RateOutOfRange;

/// Publishes the bandwidth that a pair of byte counters amounts to. Before
/// the first rate is computed it publishes the zero default.
pub struct CounterRateBandwidthProvider {
    bandwidth: Arc<Bandwidth>,
}

/// The polling loop of a counter-rate provider: it samples the counters and
/// keeps the previous sample to diff the next one against.
///
/// The loop is priming until its first sample is recorded, and steady from
/// then on.
pub struct CounterRateUpdateLoop<T: CounterSource> {
    counter_source: T,
    update_interval: Duration,
    last_time: Option<Instant>,
    last_counter_values: CounterValues,
}

impl CounterRateBandwidthProvider {
    /// Creates the provider, which publishes the zero default, and its
    /// polling loop, priming, which is to sample `source` once every
    /// `update_interval`.
    pub fn new<T: CounterSource + 'static>(source: T, update_interval: Duration) -> (started: (
        Self,
        CounterRateUpdateLoop<T>,
    ))
        ensures
            started.0.published() == (Bandwidth { tx_bps: 0, rx_bps: 0 }),
            started.1.source() == source,
            started.1.interval() == update_interval,
            started.1.is_priming(),
            started.1.last_counter_values() == (CounterValues { rx: 0, tx: 0 }),
    {
        let provider = CounterRateBandwidthProvider { bandwidth: Arc::new(Bandwidth::default()) };
        let update_loop = CounterRateUpdateLoop {
            counter_source: source,
            update_interval,
            last_time: None,
            last_counter_values: CounterValues::default(),
        };
        (provider, update_loop)
    }

    /// The bandwidth that was published last.
    pub closed spec fn published(&self) -> Bandwidth {
        *self.bandwidth
    }

    /// Replaces the published bandwidth with `new_bandwidth`. Whoever holds
    /// the bandwidth that was published before keeps it unchanged.
    pub fn publish(&mut self, new_bandwidth: Bandwidth)
        ensures
            final(self).published() == new_bandwidth,
    {
        self.bandwidth = Arc::new(new_bandwidth);
    }
}

impl BandwidthProvider for CounterRateBandwidthProvider {
    fn current_bandwidth(&self) -> (bandwidth: Arc<Bandwidth>)
        ensures
            *bandwidth == self.published(),
    {
        share(&self.bandwidth)
    }
}

/// A snapshot into which a counter-rate provider was merged shows the bandwidth
/// that the provider has published last.
pub proof fn lemma_merge_shows_published_bandwidth(
    provider: CounterRateBandwidthProvider,
    before: NodeStats,
    after: NodeStats,
)
    requires
        merges(&provider, before, after),
    ensures
        *after.bandwidth == provider.published(),
        after == with_bandwidth(before, provider.published()),
{
}

impl NodeStatsDataSource for CounterRateBandwidthProvider {
    fn get_name(&self) -> (name: &'static str)
        ensures
            name@ == "CounterRateBandwidthProvider"@,
    {
        "CounterRateBandwidthProvider"
    }
}

impl<T: CounterSource> CounterRateUpdateLoop<T> {
    /// The source that the loop samples.
    pub closed spec fn source(&self) -> T {
        self.counter_source
    }

    /// The time between two samples.
    pub closed spec fn interval(&self) -> Duration {
        self.update_interval
    }

    /// When the previous sample was taken; nothing while the loop is priming.
    pub closed spec fn last_time(&self) -> Option<Instant> {
        self.last_time
    }

    /// The previous sample; zero while the loop is priming.
    pub closed spec fn last_counter_values(&self) -> CounterValues {
        self.last_counter_values
    }

    /// Whether the loop has no previous sample yet.
    pub open spec fn is_priming(&self) -> bool {
        self.last_time() is None
    }

    /// Whether `outcome` and `after` are what becomes of the loop `self` when
    /// it takes in the sample `values`, read at `time`.
    ///
    /// A sample whose rate fits a `Bandwidth` is taken: the outcome is the
    /// bandwidth between the previous sample and this one, if they give one,
    /// and the sample is the previous one from then on. Any other sample is
    /// refused and leaves the loop as it was.
    pub open spec fn takes_in(
        &self,
        values: CounterValues,
        time: Instant,
        outcome: Result<Option<Bandwidth>, RateOutOfRange>,
        after: Self,
    ) -> bool {
        let seconds = seconds_since(self.last_time(), time);
        if rate_in_range(values, self.last_counter_values(), seconds) {
            &&& outcome == Ok::<Option<Bandwidth>, RateOutOfRange>(
                rate_between(values, self.last_counter_values(), seconds),
            )
            &&& after.last_time() == Some(time)
            &&& after.last_counter_values() == values
            &&& after.source() == self.source()
            &&& after.interval() == self.interval()
        } else {
            &&& outcome is Err
            &&& after == *self
        }
    }

    /// The time to wait between two samples.
    pub fn update_interval(&self) -> (update_interval: Duration)
        ensures
            update_interval == self.interval(),
    {
        self.update_interval
    }

    /// Reads both counters from the source, the received bytes first. The
    /// sample holds what the source gave, whatever that is.
    pub fn sample(&self) -> (values: CounterValues)
        ensures
            call_ensures(T::get_rx, (&self.source(),), values.rx),
            call_ensures(T::get_tx, (&self.source(),), values.tx),
    {
        let rx: u64 = self.counter_source.get_rx();
        let tx: u64 = self.counter_source.get_tx();
        CounterValues { rx, tx }
    }

    /// Takes in the sample `current_counter_values`, read at `current_time`.
    ///
    /// Returns the bandwidth between the previous sample and this one, which
    /// the caller is to publish and to notify of: `Ok(None)` says that this
    /// sample gives no rate, and then nothing is to be published and nobody
    /// notified. Either way the sample becomes the previous one.
    ///
    /// Where the rate is too large for a `Bandwidth` the sample is refused:
    /// the result is `Err` and the loop is left as it was.
    pub fn record(&mut self, current_counter_values: CounterValues, current_time: Instant) -> (outcome:
        Result<Option<Bandwidth>, RateOutOfRange>)
        ensures
            old(self).takes_in(current_counter_values, current_time, outcome, *final(self)),
            old(self).is_priming() ==> outcome == Ok::<Option<Bandwidth>, RateOutOfRange>(None),
    {
        let seconds = elapsed_seconds(&self.last_time, &current_time);
        if !is_rate_in_range(&current_counter_values, &self.last_counter_values, seconds) {
            return Err(RateOutOfRange);
        }
        let new_bandwidth = calc_bandwidth(
            &current_counter_values,
            &self.last_counter_values,
            &self.last_time,
            &current_time,
        );

        self.last_time = Some(current_time);
        self.last_counter_values = current_counter_values;

        Ok(new_bandwidth)
    }

    /// Runs one tick of the loop at `current_time`: reads a sample from the
    /// source and takes it in, as `record` does.
    pub fn poll(&mut self, current_time: Instant) -> (outcome: Result<
        Option<Bandwidth>,
        RateOutOfRange,
    >)
        ensures
            exists|values: CounterValues|
                {
                    &&& call_ensures(T::get_rx, (&old(self).source(),), values.rx)
                    &&& call_ensures(T::get_tx, (&old(self).source(),), values.tx)
                    &&& #[trigger] old(self).takes_in(values, current_time, outcome, *final(self))
                },
            old(self).is_priming() ==> outcome == Ok::<Option<Bandwidth>, RateOutOfRange>(None),
    {
        let current_counter_values = self.sample();
        let ghost values = current_counter_values;
        let outcome = self.record(current_counter_values, current_time);
        assert(old(self).takes_in(values, current_time, outcome, *self));
        outcome
    }
}

/// A loop that starts out priming gives no rate for its first sample and
/// the true rate for its second: where the counters grew by
/// `bytes_per_second` every second between the two, the second sample gives
/// eight times that many bits per second, as far as that fits a `Bandwidth`.
pub proof fn lemma_second_sample_gives_the_rate<T: CounterSource>(
    priming: CounterRateUpdateLoop<T>,
    first: (CounterValues, Instant),
    first_outcome: Result<Option<Bandwidth>, RateOutOfRange>,
    steady: CounterRateUpdateLoop<T>,
    second: (CounterValues, Instant),
    second_outcome: Result<Option<Bandwidth>, RateOutOfRange>,
    after: CounterRateUpdateLoop<T>,
    seconds: u64,
    bytes_per_second: nat,
)
    requires
        priming.is_priming(),
        priming.takes_in(first.0, first.1, first_outcome, steady),
        steady.takes_in(second.0, second.1, second_outcome, after),
        seconds_since(Some(first.1), second.1) == Some(seconds),
        seconds >= 1,
        second.0.rx == first.0.rx + bytes_per_second * seconds,
        second.0.tx == first.0.tx + bytes_per_second * seconds,
        bytes_per_second * 8 <= u64::MAX,
    ensures
        first_outcome == Ok::<Option<Bandwidth>, RateOutOfRange>(None),
        !steady.is_priming(),
        second_outcome == Ok::<Option<Bandwidth>, RateOutOfRange>(
            Some(
                Bandwidth {
                    rx_bps: (bytes_per_second * 8) as u64,
                    tx_bps: (bytes_per_second * 8) as u64,
                },
            ),
        ),
{
    lemma_steady_growth_gives_its_rate(second.0, first.0, seconds, bytes_per_second);
}

} // verus!
