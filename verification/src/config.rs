//! Service configuration.

use vstd::prelude::*;

verus! {

/// Tunables of the resolver service. Fixed once the service has started.
#[derive(Clone, Copy, Debug, PartialEq, Eq, Structural)]
pub struct Config {
    /// Time a single query may take before it is retried, in milliseconds.
    pub query_timeout_ms: u64,
    /// How many times a query is tried before it is given up.
    pub max_query_retry: u32,
    /// Reserved for the engine's own timeout granularity, in milliseconds.
    pub process_timeout_ms: u64,
    /// Upper bound on the sockets watched at any one time.
    pub max_sockets: u64,
}

/// How the resolution engine is to be set up.
#[derive(Clone, Copy, Debug, PartialEq, Eq, Structural)]
pub struct EngineOptions {
    /// Keep sockets open between queries.
    pub stay_open: bool,
    /// Use EDNS.
    pub edns: bool,
    /// Time a single query may take before it is retried, in milliseconds.
    pub timeout_ms: u64,
    /// How many times a query is tried.
    pub tries: u32,
}

impl Config {
    /// A configuration is valid when every field is positive and the bound
    /// on sockets fits the machine's word.
    pub open spec fn valid(&self) -> bool {
        &&& self.query_timeout_ms > 0
        &&& self.max_query_retry > 0
        &&& self.process_timeout_ms > 0
        &&& 0 < self.max_sockets <= usize::MAX
    }

    /// The engine's settings under this configuration.
    pub open spec fn engine(&self) -> EngineOptions {
        EngineOptions {
            stay_open: true,
            edns: true,
            timeout_ms: self.query_timeout_ms,
            tries: self.max_query_retry,
        }
    }

    /// The default configuration.
    pub fn new() -> (cfg: Config)
        ensures
            cfg == (Config {
                query_timeout_ms: 500,
                max_query_retry: 3,
                process_timeout_ms: 500,
                max_sockets: 256,
            }),
            cfg.valid(),
    {
        Config {
            query_timeout_ms: 500,
            max_query_retry: 3,
            process_timeout_ms: 500,
            max_sockets: 256,
        }
    }

    /// Whether the configuration is valid.
    pub fn is_valid(&self) -> (ok: bool)
        ensures
            ok == self.valid(),
    {
        self.query_timeout_ms > 0 && self.max_query_retry > 0 && self.process_timeout_ms > 0
            && self.max_sockets > 0 && self.max_sockets <= usize::MAX as u64
    }

    /// The engine's settings under this configuration.
    pub fn engine_options(&self) -> (opts: EngineOptions)
        ensures
            opts == self.engine(),
    {
        EngineOptions {
            stay_open: true,
            edns: true,
            timeout_ms: self.query_timeout_ms,
            tries: self.max_query_retry,
        }
    }
}

impl Default for Config {
    fn default() -> (cfg: Config)
        ensures
            cfg == (Config {
                query_timeout_ms: 500,
                max_query_retry: 3,
                process_timeout_ms: 500,
                max_sockets: 256,
            }),
    {
        Config::new()
    }
}

} // verus!
