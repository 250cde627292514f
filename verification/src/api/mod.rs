//! The upstream's side: which addresses to ask, and how to read what comes back.

pub mod json;
pub mod rss;
pub mod youtube;

pub use self::rss::Error as RssError;
pub use self::rss::RssFetcher;
pub use self::youtube::Error as YoutubeError;
pub use self::youtube::YoutubeFetcher;
