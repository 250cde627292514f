//! The feed: which address to ask for a channel, and how to read the answer.

use vstd::prelude::*;
use vstd::string::StringExecFns;
use crate::protocol::{entries, FetchError, VideoInfoView};

pub use crate::protocol::VideoInfo;

verus! {

/// Why a feed could not be used.
#[derive(Clone, Copy, Debug, PartialEq, Eq, Structural)]
pub enum Error {
    /// The request itself failed.
    Reqwest,
    /// The answer is no feed.
    Rss,
}

/// One entry of a feed, as far as it is read here.
#[derive(Debug)]
pub struct FeedEntry {
    pub title: Option<String>,
    pub link: Option<String>,
    pub author: Option<String>,
}

/// Asks one feed.
#[derive(Debug)]
pub struct RssFetcher {
    url: String,
}

impl View for RssFetcher {
    type V = Seq<char>;

    /// The address of the feed.
    closed spec fn view(&self) -> Seq<char> {
        self.url@
    }
}

/// The entries of the feed that `rss::Channel` reads from `text`, in the
/// feed's order, or `None` where it rejects the text.
pub uninterp spec fn feed_of(text: Seq<char>) -> Option<Vec<FeedEntry>>;

/// Parses `text` with `rss::Channel`'s `FromStr` and copies, of each of the
/// channel's `items`, what `title`, `link` and `author` give. The result
/// depends on the text alone: it is the named list.
#[verifier::external_body]
fn read_feed(text: &str) -> (r: Option<Vec<FeedEntry>>)
    ensures
        r == feed_of(text@),
{
    match text.parse::<::rss::Channel>() {
        Ok(channel) => Some(
            channel.items().iter().map(
                |item| FeedEntry {
                    title: item.title().map(str::to_owned),
                    link: item.link().map(str::to_owned),
                    author: item.author().map(str::to_owned),
                },
            ).collect(),
        ),
        Err(_) => None,
    }
}

/// A text that may be missing, or the empty text.
pub open spec fn or_empty(text: Option<String>) -> Seq<char> {
    match text {
        Some(t) => t@,
        None => Seq::empty(),
    }
}

/// The item that a feed entry describes. What the entry lacks is left empty.
pub open spec fn item_of(entry: FeedEntry) -> VideoInfoView {
    VideoInfoView {
        title: or_empty(entry.title),
        link: or_empty(entry.link),
        author_name: or_empty(entry.author),
    }
}

/// The items that a feed lists, in its order.
pub open spec fn items_of(feed: Option<Vec<FeedEntry>>) -> Result<Seq<VideoInfoView>, Error> {
    match feed {
        Some(list) => Ok(list@.map_values(|entry: FeedEntry| item_of(entry))),
        None => Err(Error::Rss),
    }
}

/// The address of the feed of a channel.
pub open spec fn feed_url(channel_id: Seq<char>) -> Seq<char> {
    "https://rsshub.app/youtube/channel/"@ + channel_id
}

fn text_or_default(text: &Option<String>) -> (r: String)
    ensures
        r@ == or_empty(*text),
{
    match text {
        Some(t) => t.clone(),
        None => String::new(),
    }
}

impl Error {
    /// The text of the error.
    pub open spec fn message_spec(self) -> Seq<char> {
        match self {
            Error::Reqwest => "Reqwest error: request failed"@,
            Error::Rss => "Rss error: invalid feed"@,
        }
    }

    /// The text of the error.
    pub fn message(&self) -> (s: String)
        ensures
            s@ == self.message_spec(),
    {
        match self {
            Error::Reqwest => String::from_str("Reqwest error: request failed"),
            Error::Rss => String::from_str("Rss error: invalid feed"),
        }
    }

    /// How the failure counts for a cycle: the upstream was unavailable, or
    /// what it sent was malformed.
    pub open spec fn fetch_error_spec(self) -> FetchError {
        match self {
            Error::Reqwest => FetchError::Unavailable,
            Error::Rss => FetchError::Malformed,
        }
    }

    /// How the failure counts for a cycle.
    pub fn fetch_error(&self) -> (e: FetchError)
        ensures
            e == self.fetch_error_spec(),
    {
        match self {
            Error::Reqwest => FetchError::Unavailable,
            Error::Rss => FetchError::Malformed,
        }
    }
}

impl RssFetcher {
    /// A fetcher for the feed at `url`.
    pub fn new(url: &str) -> (f: RssFetcher)
        ensures
            f@ == url@,
    {
        RssFetcher { url: url.to_owned() }
    }

    /// A fetcher for the feed of a channel.
    pub fn for_channel(channel_id: &str) -> (f: RssFetcher)
        ensures
            f@ == feed_url(channel_id@),
    {
        RssFetcher {
            url: String::from_str("https://rsshub.app/youtube/channel/").concat(channel_id),
        }
    }

    /// The address to ask.
    pub fn url(&self) -> (url: String)
        ensures
            url@ == self@,
    {
        self.url.clone()
    }

    /// Reads the items from the answer of the feed's address.
    pub fn fetch(&self, response: &str) -> (r: Result<Vec<VideoInfo>, Error>)
        ensures
            match r {
                Ok(items) => items_of(feed_of(response@)) == Ok::<Seq<VideoInfoView>, Error>(
                    entries(items@),
                ),
                Err(e) => items_of(feed_of(response@)) == Err::<Seq<VideoInfoView>, Error>(e),
            },
    {
        let feed = match read_feed(response) {
            Some(feed) => feed,
            None => {
                return Err(Error::Rss);
            },
        };
        let mut items: Vec<VideoInfo> = Vec::new();
        let mut i: usize = 0;
        while i < feed.len()
            invariant
                i <= feed.len(),
                items.len() == i,
                forall|j: int| 0 <= j < i ==> items[j]@ == item_of(feed[j]),
            decreases feed.len() - i,
        {
            let entry = &feed[i];
            items.push(
                VideoInfo {
                    title: text_or_default(&entry.title),
                    link: text_or_default(&entry.link),
                    author_name: text_or_default(&entry.author),
                },
            );
            i += 1;
        }
        assert(entries(items@) =~= feed@.map_values(|entry: FeedEntry| item_of(entry)));
        Ok(items)
    }
}

} // verus!
