//! Channel identity and publish orchestration for a feed-to-relay bridge.
//!
//! The library keeps one durable signing identity per tracked channel,
//! admits every feed item at most once, and drives the
//! connect / profile-sync / emit / disconnect sequence towards a set of
//! unreliable relays. All outside work (the database, HTTP, the relay
//! sessions) is requested through actions and answered through events, so
//! that every decision is a verified function of plain values.

pub mod api;
pub mod conf;
pub mod error;
pub mod keys;
pub mod laws;
pub mod memory;
pub mod model;
pub mod nostr;
pub mod orchestrator;
pub mod protocol;
pub mod publish;
pub mod store;

pub use api::RssFetcher;
pub use api::YoutubeFetcher;
pub use conf::Config;
pub use error::Error;
pub use model::MyKey;
pub use nostr::custom_created_at;
pub use orchestrator::App;
pub use publish::NotePublisher;
