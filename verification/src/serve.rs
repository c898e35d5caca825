//! The feed server's settings.
use vstd::prelude::*;
use crate::config::Config;

verus! {

/// Port the server listens on when none is given.
pub const DEFAULT_PORT: u16 = 3000;
/// Seconds responses are cached for when nothing is configured.
pub const DEFAULT_CACHE_SECS: u64 = 120;

/// How long served responses are cached: the configured whole seconds, or
/// 120.
pub fn cache_secs(config: &Config) -> (res: u64)
    ensures
        res == match config.serve.cache {
            Some(d) => d.secs,
            None => DEFAULT_CACHE_SECS,
        },
{
    match config.serve.cache {
        Some(d) => d.secs,
        None => DEFAULT_CACHE_SECS,
    }
}

/// The port to listen on: the one given, else the configured one, else 3000.
pub fn serve_port(given: Option<u16>, config: &Config) -> (res: u16)
    ensures
        res == match given {
            Some(p) => p,
            None => match config.serve.port {
                Some(p) => p,
                None => DEFAULT_PORT,
            },
        },
{
    match given {
        Some(p) => p,
        None => match config.serve.port {
            Some(p) => p,
            None => DEFAULT_PORT,
        },
    }
}

} // verus!
