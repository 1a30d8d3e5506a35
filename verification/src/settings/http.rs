//! Where the agent listens, and with which certificates.
use vstd::prelude::*;

use super::error::settles;
use super::error::SettingsError;
use super::first_some;
use super::lemma_first_some_from;
use super::lemma_present_from;
use super::present;
use tls::tls_from;
use tls::PartialTls;
use tls::Tls;

pub mod tls;

verus! {

/// An IP address.
#[derive(Debug, Clone, Copy, PartialEq, Eq)]
pub enum IpAddress {
    /// The four octets of an IPv4 address.
    V4 { octets: [u8; 4] },
    /// The eight segments of an IPv6 address, with its flow information and
    /// scope.
    V6 { segments: [u16; 8], flowinfo: u32, scope_id: u32 },
}

/// An IP address together with a port.
#[derive(Debug, Clone, Copy, PartialEq, Eq)]
pub struct SocketAddress {
    pub ip: IpAddress,
    pub port: u16,
}

/// The HTTP settings.
#[derive(Debug, PartialEq, Eq)]
pub struct Http {
    pub socket: SocketAddress,
    pub tls: Tls,
}

/// HTTP settings of which any part may be left out.
#[derive(Debug, PartialEq, Eq)]
pub struct PartialHttp {
    pub socket: Option<SocketAddress>,
    pub tls: Option<PartialTls>,
}

impl Default for PartialHttp {
    fn default() -> (partial: Self)
        ensures
            partial.socket is None,
            partial.tls is None,
    {
        PartialHttp { socket: None, tls: None }
    }
}

/// The HTTP settings that `sources` amount to, or the path of the first
/// setting that none of them has: the socket is looked at first.
pub open spec fn http_from(sources: Seq<PartialHttp>) -> Result<Http, Seq<char>> {
    match first_some(sources.map_values(|source: PartialHttp| source.socket)) {
        None => Err("http.socket"@),
        Some(socket) => match tls_from(
            present(sources.map_values(|source: PartialHttp| source.tls)),
        ) {
            Err(path) => Err(path),
            Ok(tls) => Ok(Http { socket, tls }),
        },
    }
}

impl Http {
    /// Merges `sources`, of which the earlier ones take precedence.
    pub fn new(sources: Vec<PartialHttp>) -> (http: Result<Self, SettingsError>)
        ensures
            settles(http, http_from(sources@)),
    {
        let ghost sockets = sources@.map_values(|source: PartialHttp| source.socket);
        let ghost tlss = sources@.map_values(|source: PartialHttp| source.tls);
        let mut remaining = sources;
        let mut socket: Option<SocketAddress> = None;
        let mut tls_sources: Vec<PartialTls> = Vec::new();
        while remaining.len() > 0
            invariant
                remaining@.len() <= sources@.len(),
                remaining@ == sources@.take(remaining@.len() as int),
                sockets == sources@.map_values(|source: PartialHttp| source.socket),
                tlss == sources@.map_values(|source: PartialHttp| source.tls),
                socket == first_some(sockets.skip(remaining@.len() as int)),
                tls_sources@ == present(tlss.skip(remaining@.len() as int)),
            decreases remaining@.len(),
        {
            proof {
                lemma_first_some_from(sockets, remaining@.len() as int);
                lemma_present_from(tlss, remaining@.len() as int);
            }
            match remaining.pop() {
                Some(source) => {
                    let PartialHttp { socket: source_socket, tls } = source;
                    if source_socket.is_some() {
                        socket = source_socket;
                    }
                    if let Some(tls) = tls {
                        tls_sources.insert(0, tls);
                    }
                },
                None => {},
            }
        }
        assert(sockets.skip(0) =~= sockets);
        assert(tlss.skip(0) =~= tlss);

        let socket = match socket {
            Some(socket) => socket,
            None => {
                return Err(SettingsError::missing("http.socket"));
            },
        };
        let tls = match Tls::new(tls_sources) {
            Ok(tls) => tls,
            Err(error) => {
                return Err(error);
            },
        };
        Ok(Http { socket, tls })
    }
}

} // verus!
