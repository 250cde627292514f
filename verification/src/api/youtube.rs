//! The video API: which addresses to ask for a channel, and how to read the
//! answers.

use vstd::prelude::*;
use vstd::string::StringExecFns;
use crate::api::json::{decimal, decimal_string, json_of, Json};
use crate::model::{ChannelMetadata, ChannelMetadataView};
use crate::protocol::FetchError;

verus! {

/// Why an answer of the video API could not be used.
#[derive(Clone, Copy, Debug, PartialEq, Eq, Structural)]
pub enum Error {
    /// The request itself failed.
    Reqwest,
    /// The answer is no document.
    Sonic,
    /// The answer names no channel.
    ChannelIdNotFound,
    /// The answer holds no channel entry.
    UserInfoNotFound,
    /// The channel entry has no avatar address.
    AvatarUrlNotFound,
    /// The channel entry has no title.
    UserNameNotFound,
    /// The answer holds no list of items.
    NoItemsFound,
}

/// What the video API tells about a channel's owner.
#[derive(Debug)]
pub struct UserInfo {
    pub avatar_link: String,
    pub user_name: String,
}

/// Mathematical view of a [`UserInfo`].
pub struct UserInfoView {
    pub avatar_link: Seq<char>,
    pub user_name: Seq<char>,
}

impl View for UserInfo {
    type V = UserInfoView;

    open spec fn view(&self) -> UserInfoView {
        UserInfoView { avatar_link: self.avatar_link@, user_name: self.user_name@ }
    }
}

/// One video as the video API lists it.
#[derive(Debug)]
pub struct VideoInfo {
    pub title: String,
    pub link: String,
    pub author_name: String,
    pub channel_id: String,
}

/// Mathematical view of a [`VideoInfo`].
pub struct VideoInfoView {
    pub title: Seq<char>,
    pub link: Seq<char>,
    pub author_name: Seq<char>,
    pub channel_id: Seq<char>,
}

impl View for VideoInfo {
    type V = VideoInfoView;

    open spec fn view(&self) -> VideoInfoView {
        VideoInfoView {
            title: self.title@,
            link: self.link@,
            author_name: self.author_name@,
            channel_id: self.channel_id@,
        }
    }
}

/// Asks the video API about one channel.
#[derive(Debug)]
pub struct YoutubeFetcher<'a> {
    api_key: &'a str,
    channel_name: &'a str,
    count: u32,
}

/// Mathematical view of a [`YoutubeFetcher`].
pub struct YoutubeFetcherView {
    pub api_key: Seq<char>,
    pub channel_name: Seq<char>,
    pub count: u32,
}

impl<'a> View for YoutubeFetcher<'a> {
    type V = YoutubeFetcherView;

    closed spec fn view(&self) -> YoutubeFetcherView {
        YoutubeFetcherView {
            api_key: self.api_key@,
            channel_name: self.channel_name@,
            count: self.count,
        }
    }
}

/// The value that stands behind an optional reference: null where there is none.
pub open spec fn lift(value: Option<&Json>) -> Json {
    match value {
        Some(v) => *v,
        None => Json::Null,
    }
}

/// The text of a value, or the empty text where it is no text.
pub open spec fn text_or_empty(value: Json) -> Seq<char> {
    match value.text_spec() {
        Some(text) => text,
        None => Seq::empty(),
    }
}

/// The first entry of the list `items` of a document.
pub open spec fn first_item(doc: Json) -> Option<Json> {
    doc.at("items"@).element_spec(0)
}

/// The address that is asked for the channel's identifier.
pub open spec fn channel_url_spec(f: YoutubeFetcherView) -> Seq<char> {
    "https://www.googleapis.com/youtube/v3/search?part=snippet&q="@ + f.channel_name
        + "&type=channel&key="@ + f.api_key
}

/// The address that is asked for the channel's owner.
pub open spec fn user_info_url_spec(f: YoutubeFetcherView, channel_id: Seq<char>) -> Seq<char> {
    "https://www.googleapis.com/youtube/v3/channels?part=snippet&id="@ + channel_id + "&key="@
        + f.api_key
}

/// The address that is asked for the channel's latest videos.
pub open spec fn videos_url_spec(f: YoutubeFetcherView, channel_id: Seq<char>) -> Seq<char> {
    "https://www.googleapis.com/youtube/v3/search?key="@ + f.api_key + "&channelId="@ + channel_id
        + "&part=snippet,id&order=date&maxResults="@ + decimal(f.count as nat)
}

/// The channel identifier that an answer holds.
pub open spec fn channel_id_of(doc: Option<Json>) -> Result<Seq<char>, Error> {
    match doc {
        None => Err(Error::Sonic),
        Some(d) => match first_item(d) {
            Some(item) => match item.at("snippet"@).at("channelId"@).text_spec() {
                Some(id) => Ok(id),
                None => Err(Error::ChannelIdNotFound),
            },
            None => Err(Error::ChannelIdNotFound),
        },
    }
}

/// The avatar address that an answer holds.
pub open spec fn user_avatar_of(doc: Option<Json>) -> Result<Seq<char>, Error> {
    match doc {
        None => Err(Error::Sonic),
        Some(d) => match first_item(d) {
            Some(item) => match item.at("snippet"@).at("thumbnails"@).at("default"@).at(
                "url"@,
            ).text_spec() {
                Some(url) => Ok(url),
                None => Err(Error::AvatarUrlNotFound),
            },
            None => Err(Error::UserInfoNotFound),
        },
    }
}

/// The owner's avatar and name that an answer holds. A missing avatar is
/// reported before a missing name.
pub open spec fn user_info_of(doc: Option<Json>) -> Result<UserInfoView, Error> {
    match user_avatar_of(doc) {
        Err(e) => Err(e),
        Ok(avatar_link) => match first_item(doc->0)->0.at("snippet"@).at("title"@).text_spec() {
            Some(user_name) => Ok(UserInfoView { avatar_link, user_name }),
            None => Err(Error::UserNameNotFound),
        },
    }
}

/// The video that one entry of an answer describes. What the entry lacks is
/// left empty.
pub open spec fn video_of(entry: Json, channel_id: Seq<char>) -> VideoInfoView {
    VideoInfoView {
        title: text_or_empty(entry.at("snippet"@).at("title"@)),
        link: "https://www.youtube.com/watch?v="@ + text_or_empty(
            entry.at("id"@).at("videoId"@),
        ),
        author_name: text_or_empty(entry.at("snippet"@).at("channelTitle"@)),
        channel_id,
    }
}

/// The videos that an answer lists, in its order.
pub open spec fn videos_of(doc: Option<Json>, channel_id: Seq<char>) -> Result<
    Seq<VideoInfoView>,
    Error,
> {
    match doc {
        None => Err(Error::Sonic),
        Some(d) => match d.at("items"@).elements_spec() {
            Some(list) => Ok(list.map_values(|entry: Json| video_of(entry, channel_id))),
            None => Err(Error::NoItemsFound),
        },
    }
}

/// The views of a list of videos.
pub open spec fn video_views(list: Seq<VideoInfo>) -> Seq<VideoInfoView> {
    list.map_values(|v: VideoInfo| v@)
}

/// Follows a member name from a value that may be missing.
fn descend<'j>(value: Option<&'j Json>, key: &str) -> (r: Option<&'j Json>)
    ensures
        lift(r) == lift(value).at(key@),
{
    match value {
        Some(v) => v.member(key),
        None => None,
    }
}

/// The text of a value that may be missing.
fn text_of(value: Option<&Json>) -> (r: Option<String>)
    ensures
        match r {
            Some(text) => lift(value).text_spec() == Some(text@),
            None => lift(value).text_spec() is None,
        },
{
    match value {
        Some(v) => v.as_str(),
        None => None,
    }
}

/// The text of a value that may be missing, or the empty text.
fn text_or_default(value: Option<&Json>) -> (r: String)
    ensures
        r@ == text_or_empty(lift(value)),
{
    match text_of(value) {
        Some(text) => text,
        None => String::new(),
    }
}

/// The first entry of the list `items` of a document.
fn first_item_of(doc: &Json) -> (r: Option<&Json>)
    ensures
        match r {
            Some(item) => first_item(*doc) == Some(*item),
            None => first_item(*doc) is None,
        },
{
    match doc.member("items") {
        Some(items) => items.element(0),
        None => None,
    }
}

impl Error {
    /// The text of the error.
    pub open spec fn message_spec(self) -> Seq<char> {
        match self {
            Error::Reqwest => "Reqwest error: request failed"@,
            Error::Sonic => "Sonic error: invalid document"@,
            Error::ChannelIdNotFound => "Custom error: Channel ID not found"@,
            Error::UserInfoNotFound => "Custom error: User info not found"@,
            Error::AvatarUrlNotFound => "Custom error: Avatar URL not found"@,
            Error::UserNameNotFound => "Custom error: User name not found"@,
            Error::NoItemsFound => "Custom error: No items found"@,
        }
    }

    /// The text of the error.
    pub fn message(&self) -> (s: String)
        ensures
            s@ == self.message_spec(),
    {
        match self {
            Error::Reqwest => String::from_str("Reqwest error: request failed"),
            Error::Sonic => String::from_str("Sonic error: invalid document"),
            Error::ChannelIdNotFound => String::from_str("Custom error: Channel ID not found"),
            Error::UserInfoNotFound => String::from_str("Custom error: User info not found"),
            Error::AvatarUrlNotFound => String::from_str("Custom error: Avatar URL not found"),
            Error::UserNameNotFound => String::from_str("Custom error: User name not found"),
            Error::NoItemsFound => String::from_str("Custom error: No items found"),
        }
    }

    /// How the failure counts for a cycle: the upstream was unavailable, or
    /// what it sent was malformed.
    pub open spec fn fetch_error_spec(self) -> FetchError {
        match self {
            Error::Reqwest => FetchError::Unavailable,
            _ => FetchError::Malformed,
        }
    }

    /// How the failure counts for a cycle.
    pub fn fetch_error(&self) -> (e: FetchError)
        ensures
            e == self.fetch_error_spec(),
    {
        match self {
            Error::Reqwest => FetchError::Unavailable,
            _ => FetchError::Malformed,
        }
    }
}

impl UserInfo {
    /// The channel metadata that the owner's entry and the channel
    /// identifier make up.
    pub fn into_metadata(self, channel_id: String) -> (m: ChannelMetadata)
        ensures
            m@ == (ChannelMetadataView {
                display_name: self@.user_name,
                avatar_url: self@.avatar_link,
                remote_channel_id: channel_id@,
            }),
    {
        ChannelMetadata {
            display_name: self.user_name,
            avatar_url: self.avatar_link,
            remote_channel_id: channel_id,
        }
    }
}

impl<'a> YoutubeFetcher<'a> {
    /// A fetcher for one channel, asking for `count` videos at a time.
    pub fn new(api_key: &'a str, channel_name: &'a str, count: u32) -> (f: YoutubeFetcher<'a>)
        ensures
            f@ == (YoutubeFetcherView { api_key: api_key@, channel_name: channel_name@, count }),
    {
        YoutubeFetcher { api_key, channel_name, count }
    }

    /// The address to ask for the channel's identifier.
    pub fn channel_url(&self) -> (url: String)
        ensures
            url@ == channel_url_spec(self@),
    {
        String::from_str("https://www.googleapis.com/youtube/v3/search?part=snippet&q=").concat(
            self.channel_name,
        ).concat("&type=channel&key=").concat(self.api_key)
    }

    /// The address to ask for the channel's owner.
    pub fn user_info_url(&self, channel_id: &str) -> (url: String)
        ensures
            url@ == user_info_url_spec(self@, channel_id@),
    {
        String::from_str("https://www.googleapis.com/youtube/v3/channels?part=snippet&id=").concat(
            channel_id,
        ).concat("&key=").concat(self.api_key)
    }

    /// The address to ask for the channel's latest videos.
    pub fn videos_url(&self, channel_id: &str) -> (url: String)
        ensures
            url@ == videos_url_spec(self@, channel_id@),
    {
        let count = decimal_string(self.count);
        String::from_str("https://www.googleapis.com/youtube/v3/search?key=").concat(
            self.api_key,
        ).concat("&channelId=").concat(channel_id).concat(
            "&part=snippet,id&order=date&maxResults=",
        ).concat(count.as_str())
    }

    /// Reads the channel's identifier from the answer to `channel_url`.
    pub fn get_channel_id(&self, response: &str) -> (r: Result<String, Error>)
        ensures
            match r {
                Ok(id) => channel_id_of(json_of(response@)) == Ok::<Seq<char>, Error>(id@),
                Err(e) => channel_id_of(json_of(response@)) == Err::<Seq<char>, Error>(e),
            },
    {
        let doc = match Json::parse(response) {
            Some(doc) => doc,
            None => {
                return Err(Error::Sonic);
            },
        };
        match first_item_of(&doc) {
            Some(item) => {
                let snippet = descend(Some(item), "snippet");
                match text_of(descend(snippet, "channelId")) {
                    Some(id) => Ok(id),
                    None => Err(Error::ChannelIdNotFound),
                }
            },
            None => Err(Error::ChannelIdNotFound),
        }
    }

    /// Reads the owner's avatar address from the answer to `user_info_url`.
    pub fn get_user_avatar(&self, response: &str) -> (r: Result<String, Error>)
        ensures
            match r {
                Ok(url) => user_avatar_of(json_of(response@)) == Ok::<Seq<char>, Error>(url@),
                Err(e) => user_avatar_of(json_of(response@)) == Err::<Seq<char>, Error>(e),
            },
    {
        let doc = match Json::parse(response) {
            Some(doc) => doc,
            None => {
                return Err(Error::Sonic);
            },
        };
        match first_item_of(&doc) {
            Some(item) => {
                let snippet = descend(Some(item), "snippet");
                let thumbnails = descend(snippet, "thumbnails");
                let default = descend(thumbnails, "default");
                match text_of(descend(default, "url")) {
                    Some(url) => Ok(url),
                    None => Err(Error::AvatarUrlNotFound),
                }
            },
            None => Err(Error::UserInfoNotFound),
        }
    }

    /// Reads the owner's avatar and name from the answer to `user_info_url`.
    pub fn get_user_info(&self, response: &str) -> (r: Result<UserInfo, Error>)
        ensures
            match r {
                Ok(info) => user_info_of(json_of(response@)) == Ok::<UserInfoView, Error>(info@),
                Err(e) => user_info_of(json_of(response@)) == Err::<UserInfoView, Error>(e),
            },
    {
        let doc = match Json::parse(response) {
            Some(doc) => doc,
            None => {
                return Err(Error::Sonic);
            },
        };
        match first_item_of(&doc) {
            Some(item) => {
                let snippet = descend(Some(item), "snippet");
                let thumbnails = descend(snippet, "thumbnails");
                let default = descend(thumbnails, "default");
                let avatar_link = match text_of(descend(default, "url")) {
                    Some(url) => url,
                    None => {
                        return Err(Error::AvatarUrlNotFound);
                    },
                };
                let user_name = match text_of(descend(snippet, "title")) {
                    Some(name) => name,
                    None => {
                        return Err(Error::UserNameNotFound);
                    },
                };
                Ok(UserInfo { avatar_link, user_name })
            },
            None => Err(Error::UserInfoNotFound),
        }
    }

    /// Reads the channel's latest videos from the answer to `videos_url`.
    pub fn fetch(&self, channel_id: &str, response: &str) -> (r: Result<Vec<VideoInfo>, Error>)
        ensures
            match r {
                Ok(videos) => videos_of(json_of(response@), channel_id@) == Ok::<
                    Seq<VideoInfoView>,
                    Error,
                >(video_views(videos@)),
                Err(e) => videos_of(json_of(response@), channel_id@) == Err::<
                    Seq<VideoInfoView>,
                    Error,
                >(e),
            },
    {
        let doc = match Json::parse(response) {
            Some(doc) => doc,
            None => {
                return Err(Error::Sonic);
            },
        };
        let list = match descend(Some(&doc), "items") {
            Some(Json::Array(list)) => list,
            _ => {
                return Err(Error::NoItemsFound);
            },
        };
        let mut videos: Vec<VideoInfo> = Vec::new();
        let mut i: usize = 0;
        while i < list.len()
            invariant
                i <= list.len(),
                videos.len() == i,
                forall|j: int| 0 <= j < i ==> videos[j]@ == video_of(list[j], channel_id@),
            decreases list.len() - i,
        {
            let entry = &list[i];
            let snippet = descend(Some(entry), "snippet");
            let id = descend(Some(entry), "id");
            let video = VideoInfo {
                title: text_or_default(descend(snippet, "title")),
                link: String::from_str("https://www.youtube.com/watch?v=").concat(
                    text_or_default(descend(id, "videoId")).as_str(),
                ),
                author_name: text_or_default(descend(snippet, "channelTitle")),
                channel_id: channel_id.to_owned(),
            };
            videos.push(video);
            i += 1;
        }
        assert(video_views(videos@) =~= list@.map_values(
            |entry: Json| video_of(entry, channel_id@),
        ));
        Ok(videos)
    }
}

} // verus!
