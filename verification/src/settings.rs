//! The settings of the agent, merged from several sources.
//!
//! A source may leave any setting out. For each setting the first source
//! that has a value wins, so sources are listed from the most specific to
//! the defaults.
use vstd::prelude::*;

use crate::clock::from_secs;
use crate::clock::whole_seconds;
use error::settles;
use error::SettingsError;
use http::http_from;
use http::Http;
use http::IpAddress;
use http::PartialHttp;
use http::SocketAddress;
use node_stats::bandwidth::PartialBandwidth;
use node_stats::node_stats_from;
use node_stats::NodeStats;
use node_stats::PartialNodeStats;

pub mod error;
pub mod http;
pub mod node_stats;

verus! {

/// The first value that is there, if any is.
pub open spec fn first_some<T>(values: Seq<Option<T>>) -> Option<T>
    decreases values.len(),
{
    if values.len() == 0 {
        None
    } else if values[0] is Some {
        values[0]
    } else {
        first_some(values.skip(1))
    }
}

/// The values that are there, in their order.
pub open spec fn present<T>(values: Seq<Option<T>>) -> Seq<T>
    decreases values.len(),
{
    if values.len() == 0 {
        Seq::empty()
    } else {
        match values[0] {
            Some(value) => seq![value] + present(values.skip(1)),
            None => present(values.skip(1)),
        }
    }
}

/// How `first_some` of the values from `from - 1` on follows from the value
/// at `from - 1` and `first_some` of the values from `from` on.
pub proof fn lemma_first_some_from<T>(values: Seq<Option<T>>, from: int)
    requires
        0 < from <= values.len(),
    ensures
        first_some(values.skip(from - 1)) == (if values[from - 1] is Some {
            values[from - 1]
        } else {
            first_some(values.skip(from))
        }),
{
    assert(values.skip(from - 1).skip(1) =~= values.skip(from));
}

/// How `present` of the values from `from - 1` on follows from the value
/// at `from - 1` and `present` of the values from `from` on.
pub proof fn lemma_present_from<T>(values: Seq<Option<T>>, from: int)
    requires
        0 < from <= values.len(),
    ensures
        present(values.skip(from - 1)) == (match values[from - 1] {
            Some(value) => seq![value] + present(values.skip(from)),
            None => present(values.skip(from)),
        }),
{
    assert(values.skip(from - 1).skip(1) =~= values.skip(from));
}

/// The settings, with a value for each of them.
#[derive(Debug, PartialEq, Eq)]
pub struct Settings {
    pub http: Http,
    pub node_stats: NodeStats,
}

/// Settings of which any part may be left out.
#[derive(Debug, PartialEq, Eq)]
pub struct PartialSettings {
    pub http: Option<PartialHttp>,
    pub node_stats: Option<PartialNodeStats>,
}

/// The port that the agent serves on where no source names one.
pub const DEFAULT_PORT: u16 = 2351;

/// The seconds between two bandwidth samples where no source names them.
pub const DEFAULT_UPDATE_INTERVAL_SECS: u64 = 5;

/// The address that stands for every address of the host.
pub open spec fn every_address() -> IpAddress {
    IpAddress::V6 { segments: [0, 0, 0, 0, 0, 0, 0, 0], flowinfo: 0, scope_id: 0 }
}

/// Whether `settings` are the defaults: serve on every address at the default
/// port, and sample the bandwidth at the default interval. The files have no
/// default.
pub open spec fn are_defaults(settings: PartialSettings) -> bool {
    &&& settings.http matches Some(http)
    &&& http.tls is None
    &&& http.socket == Some(SocketAddress { ip: every_address(), port: DEFAULT_PORT })
    &&& settings.node_stats matches Some(node_stats)
    &&& node_stats.bandwidth matches Some(bandwidth)
    &&& bandwidth.tx_file is None
    &&& bandwidth.rx_file is None
    &&& bandwidth.update_interval matches Some(interval)
    &&& whole_seconds(interval) == DEFAULT_UPDATE_INTERVAL_SECS
}

impl Default for PartialSettings {
    fn default() -> (defaults: Self)
        ensures
            are_defaults(defaults),
    {
        PartialSettings {
            http: Some(
                PartialHttp {
                    socket: Some(
                        SocketAddress {
                            ip: IpAddress::V6 {
                                segments: [0, 0, 0, 0, 0, 0, 0, 0],
                                flowinfo: 0,
                                scope_id: 0,
                            },
                            port: DEFAULT_PORT,
                        },
                    ),
                    tls: None,
                },
            ),
            node_stats: Some(
                PartialNodeStats {
                    bandwidth: Some(
                        PartialBandwidth {
                            tx_file: None,
                            rx_file: None,
                            update_interval: Some(
                                from_secs(DEFAULT_UPDATE_INTERVAL_SECS),
                            ),
                        },
                    ),
                },
            ),
        }
    }
}

/// The settings that `sources` amount to, or the path of the first setting
/// that none of them has: the HTTP settings are looked at first.
pub open spec fn settings_from(sources: Seq<PartialSettings>) -> Result<Settings, Seq<char>> {
    match http_from(present(sources.map_values(|source: PartialSettings| source.http))) {
        Err(path) => Err(path),
        Ok(http) => match node_stats_from(
            present(sources.map_values(|source: PartialSettings| source.node_stats)),
        ) {
            Err(path) => Err(path),
            Ok(node_stats) => Ok(Settings { http, node_stats }),
        },
    }
}

impl Settings {
    /// Merges `sources`, of which the earlier ones take precedence.
    pub fn merge(sources: Vec<PartialSettings>) -> (settings: Result<Self, SettingsError>)
        ensures
            settles(settings, settings_from(sources@)),
    {
        let ghost https = sources@.map_values(|source: PartialSettings| source.http);
        let ghost stats = sources@.map_values(|source: PartialSettings| source.node_stats);
        let mut remaining = sources;
        let mut http_sources: Vec<PartialHttp> = Vec::new();
        let mut node_stats_sources: Vec<PartialNodeStats> = Vec::new();
        while remaining.len() > 0
            invariant
                remaining@.len() <= sources@.len(),
                remaining@ == sources@.take(remaining@.len() as int),
                https == sources@.map_values(|source: PartialSettings| source.http),
                stats == sources@.map_values(|source: PartialSettings| source.node_stats),
                http_sources@ == present(https.skip(remaining@.len() as int)),
                node_stats_sources@ == present(stats.skip(remaining@.len() as int)),
            decreases remaining@.len(),
        {
            proof {
                lemma_present_from(https, remaining@.len() as int);
                lemma_present_from(stats, remaining@.len() as int);
            }
            match remaining.pop() {
                Some(source) => {
                    let PartialSettings { http, node_stats } = source;
                    if let Some(http) = http {
                        http_sources.insert(0, http);
                    }
                    if let Some(node_stats) = node_stats {
                        node_stats_sources.insert(0, node_stats);
                    }
                },
                None => {},
            }
        }
        assert(https.skip(0) =~= https);
        assert(stats.skip(0) =~= stats);

        let http = match Http::new(http_sources) {
            Ok(http) => http,
            Err(error) => {
                return Err(error);
            },
        };
        let node_stats = match NodeStats::new(node_stats_sources) {
            Ok(node_stats) => node_stats,
            Err(error) => {
                return Err(error);
            },
        };
        Ok(Settings { http, node_stats })
    }

    /// The settings that a settings file gives: whatever the file leaves out
    /// is taken from the defaults.
    pub fn from_file_settings(file_settings: PartialSettings) -> (settings: Result<
        Self,
        SettingsError,
    >)
        ensures
            exists|defaults: PartialSettings|
                #[trigger] are_defaults(defaults) && settles(
                    settings,
                    settings_from(seq![file_settings, defaults]),
                ),
    {
        let defaults = PartialSettings::default();
        let ghost sources_in_order = seq![file_settings, defaults];
        let mut sources: Vec<PartialSettings> = Vec::new();
        sources.push(file_settings);
        sources.push(defaults);
        assert(sources@ =~= sources_in_order);
        Settings::merge(sources)
    }
}

} // verus!
