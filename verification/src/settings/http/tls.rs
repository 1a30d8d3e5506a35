//! The certificate files of the server.
use vstd::prelude::*;

use crate::settings::error::settles;
use crate::settings::error::SettingsError;
use crate::settings::first_some;
use crate::settings::lemma_first_some_from;

verus! {

/// The TLS settings: the files of the server's certificate, of its key and
/// of the certificate authority that signs the clients.
#[derive(Debug, PartialEq, Eq)]
pub struct Tls {
    pub server_cert_file: String,
    pub server_key_file: String,
    pub ca_cert_file: String,
}

/// TLS settings of which any part may be left out.
#[derive(Debug, PartialEq, Eq)]
pub struct PartialTls {
    pub server_cert_file: Option<String>,
    pub server_key_file: Option<String>,
    pub ca_cert_file: Option<String>,
}

impl Default for PartialTls {
    fn default() -> (partial: Self)
        ensures
            partial.server_cert_file is None,
            partial.server_key_file is None,
            partial.ca_cert_file is None,
    {
        PartialTls { server_cert_file: None, server_key_file: None, ca_cert_file: None }
    }
}

/// For each setting the value of the first of `sources` that has one.
pub open spec fn merged_tls(sources: Seq<PartialTls>) -> PartialTls {
    PartialTls {
        server_cert_file: first_some(
            sources.map_values(|source: PartialTls| source.server_cert_file),
        ),
        server_key_file: first_some(
            sources.map_values(|source: PartialTls| source.server_key_file),
        ),
        ca_cert_file: first_some(sources.map_values(|source: PartialTls| source.ca_cert_file)),
    }
}

/// The TLS settings that `sources` amount to, or the path of the first
/// setting that none of them has, in the order certificate, key, authority.
pub open spec fn tls_from(sources: Seq<PartialTls>) -> Result<Tls, Seq<char>> {
    let merged = merged_tls(sources);
    if merged.server_cert_file is None {
        Err("tls.server_cert_file"@)
    } else if merged.server_key_file is None {
        Err("tls.server_key_file"@)
    } else if merged.ca_cert_file is None {
        Err("tls.ca_cert_file"@)
    } else {
        Ok(
            Tls {
                server_cert_file: merged.server_cert_file.unwrap(),
                server_key_file: merged.server_key_file.unwrap(),
                ca_cert_file: merged.ca_cert_file.unwrap(),
            },
        )
    }
}

impl Tls {
    /// Merges `sources`, of which the earlier ones take precedence.
    pub fn new(sources: Vec<PartialTls>) -> (tls: Result<Self, SettingsError>)
        ensures
            settles(tls, tls_from(sources@)),
    {
        let ghost certs = sources@.map_values(|source: PartialTls| source.server_cert_file);
        let ghost keys = sources@.map_values(|source: PartialTls| source.server_key_file);
        let ghost cas = sources@.map_values(|source: PartialTls| source.ca_cert_file);
        let mut remaining = sources;
        let mut merged = PartialTls::default();
        while remaining.len() > 0
            invariant
                remaining@.len() <= sources@.len(),
                remaining@ == sources@.take(remaining@.len() as int),
                certs == sources@.map_values(|source: PartialTls| source.server_cert_file),
                keys == sources@.map_values(|source: PartialTls| source.server_key_file),
                cas == sources@.map_values(|source: PartialTls| source.ca_cert_file),
                merged.server_cert_file == first_some(certs.skip(remaining@.len() as int)),
                merged.server_key_file == first_some(keys.skip(remaining@.len() as int)),
                merged.ca_cert_file == first_some(cas.skip(remaining@.len() as int)),
            decreases remaining@.len(),
        {
            proof {
                lemma_first_some_from(certs, remaining@.len() as int);
                lemma_first_some_from(keys, remaining@.len() as int);
                lemma_first_some_from(cas, remaining@.len() as int);
            }
            match remaining.pop() {
                Some(source) => {
                    let PartialTls { server_cert_file, server_key_file, ca_cert_file } = source;
                    if server_cert_file.is_some() {
                        merged.server_cert_file = server_cert_file;
                    }
                    if server_key_file.is_some() {
                        merged.server_key_file = server_key_file;
                    }
                    if ca_cert_file.is_some() {
                        merged.ca_cert_file = ca_cert_file;
                    }
                },
                None => {},
            }
        }
        assert(certs.skip(0) =~= certs);
        assert(keys.skip(0) =~= keys);
        assert(cas.skip(0) =~= cas);

        let PartialTls { server_cert_file, server_key_file, ca_cert_file } = merged;
        let server_cert_file = match server_cert_file {
            Some(file) => file,
            None => {
                return Err(SettingsError::missing("tls.server_cert_file"));
            },
        };
        let server_key_file = match server_key_file {
            Some(file) => file,
            None => {
                return Err(SettingsError::missing("tls.server_key_file"));
            },
        };
        let ca_cert_file = match ca_cert_file {
            Some(file) => file,
            None => {
                return Err(SettingsError::missing("tls.ca_cert_file"));
            },
        };
        Ok(Tls { server_cert_file, server_key_file, ca_cert_file })
    }
}

} // verus!
