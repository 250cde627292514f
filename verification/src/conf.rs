//! The configuration of a deployment: which channels to track, where to
//! publish, and where the durable store lives.

use vstd::prelude::*;

verus! {

/// The whole configuration.
#[derive(Debug)]
pub struct Config {
    pub youtube: YoutubeConfig,
    pub nostr: Nostr,
    pub postgres: Postgres,
}

/// The upstream: the access key, the tracked channels, and how many items to
/// ask for at a time.
#[derive(Debug)]
pub struct YoutubeConfig {
    pub api_key: String,
    pub user_id: Vec<String>,
    pub count: u32,
}

/// The relay network: the relays to publish to.
#[derive(Debug)]
pub struct Nostr {
    pub relays: Vec<String>,
}

/// The durable store: how to reach it.
#[derive(Debug)]
pub struct Postgres {
    pub dsn: String,
}

} // verus!
