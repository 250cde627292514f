use youtube_bot::api::json::{decimal_string, Json};
use youtube_bot::api::youtube::UserInfo;
use youtube_bot::api::{RssError, YoutubeError};
use youtube_bot::{RssFetcher, YoutubeFetcher};

#[test]
fn decimal_notation() {
    assert_eq!(decimal_string(0), "0");
    assert_eq!(decimal_string(7), "7");
    assert_eq!(decimal_string(10), "10");
    assert_eq!(decimal_string(305), "305");
    assert_eq!(decimal_string(1234567890), "1234567890");
    assert_eq!(decimal_string(u32::MAX), "4294967295");
}

#[test]
fn youtube_addresses() {
    let f = YoutubeFetcher::new("KEY", "somechannel", 5);
    assert_eq!(
        f.channel_url(),
        "https://www.googleapis.com/youtube/v3/search?part=snippet&q=somechannel&type=channel&key=KEY"
    );
    assert_eq!(
        f.user_info_url("UC123"),
        "https://www.googleapis.com/youtube/v3/channels?part=snippet&id=UC123&key=KEY"
    );
    assert_eq!(
        f.videos_url("UC123"),
        "https://www.googleapis.com/youtube/v3/search?key=KEY&channelId=UC123&part=snippet,id&order=date&maxResults=5"
    );
    let many = YoutubeFetcher::new("K", "c", 120);
    assert!(many.videos_url("X").ends_with("&maxResults=120"));
}

#[test]
fn json_members_and_elements() {
    let doc = Json::parse(r#"{"a": {"b": "text"}, "list": [1, "two", null, true], "a": "second"}"#)
        .expect("a document");
    assert!(doc.member("missing").is_none());
    let a = doc.member("a").unwrap();
    assert!(matches!(a, Json::Object(_)), "the first of two members of one name is taken");
    assert_eq!(a.member("b").unwrap().as_str(), Some("text".to_string()));
    let list = doc.member("list").unwrap();
    assert!(matches!(list.element(0), Some(Json::Number)));
    assert_eq!(list.element(1).unwrap().as_str(), Some("two".to_string()));
    assert!(matches!(list.element(2), Some(Json::Null)));
    assert!(matches!(list.element(3), Some(Json::Bool(true))));
    assert!(list.element(4).is_none());
    assert!(list.member("a").is_none());
    assert!(doc.element(0).is_none());
    assert!(list.as_str().is_none());
}

#[test]
fn json_rejects_what_is_no_document() {
    assert!(Json::parse("").is_none());
    assert!(Json::parse("{").is_none());
    assert!(Json::parse(r#"{"a": }"#).is_none());
    assert!(Json::parse("<html></html>").is_none());
}

#[test]
fn json_keeps_the_order_of_the_text() {
    match Json::parse(r#"{"z": "1", "a": "2", "m": ["x", "y"]}"#).unwrap() {
        Json::Object(members) => {
            let names: Vec<&str> = members.iter().map(|(k, _)| k.as_str()).collect();
            assert_eq!(names, vec!["z", "a", "m"]);
            match &members[2].1 {
                Json::Array(elements) => {
                    assert_eq!(elements.len(), 2);
                    assert_eq!(elements[0].as_str(), Some("x".to_string()));
                    assert_eq!(elements[1].as_str(), Some("y".to_string()));
                }
                other => panic!("not an array: {:?}", other),
            }
        }
        other => panic!("not an object: {:?}", other),
    }
}

#[test]
fn channel_id_is_read_from_the_first_item() {
    let f = YoutubeFetcher::new("KEY", "somechannel", 5);
    let body = r#"{"items": [{"snippet": {"channelId": "UC123"}}, {"snippet": {"channelId": "UC999"}}]}"#;
    assert_eq!(f.get_channel_id(body), Ok("UC123".to_string()));
}

#[test]
fn channel_id_errors() {
    let f = YoutubeFetcher::new("KEY", "somechannel", 5);
    assert_eq!(f.get_channel_id("no document"), Err(YoutubeError::Sonic));
    assert_eq!(f.get_channel_id("{}"), Err(YoutubeError::ChannelIdNotFound));
    assert_eq!(f.get_channel_id(r#"{"items": []}"#), Err(YoutubeError::ChannelIdNotFound));
    assert_eq!(f.get_channel_id(r#"{"items": {}}"#), Err(YoutubeError::ChannelIdNotFound));
    assert_eq!(
        f.get_channel_id(r#"{"items": [{"snippet": {}}]}"#),
        Err(YoutubeError::ChannelIdNotFound)
    );
    assert_eq!(
        f.get_channel_id(r#"{"items": [{"snippet": {"channelId": 5}}]}"#),
        Err(YoutubeError::ChannelIdNotFound)
    );
}

#[test]
fn user_info_is_read_from_the_first_item() {
    let f = YoutubeFetcher::new("KEY", "somechannel", 5);
    let body = r#"{"items": [{"snippet": {"title": "Abc Channel",
        "thumbnails": {"default": {"url": "http://x/a.png"}}}}]}"#;
    let info = f.get_user_info(body).expect("complete entry");
    assert_eq!(info.user_name, "Abc Channel");
    assert_eq!(info.avatar_link, "http://x/a.png");
    assert_eq!(f.get_user_avatar(body), Ok("http://x/a.png".to_string()));
}

#[test]
fn user_info_errors() {
    let f = YoutubeFetcher::new("KEY", "somechannel", 5);
    assert_eq!(f.get_user_info("]").unwrap_err(), YoutubeError::Sonic);
    assert_eq!(f.get_user_info(r#"{"items": []}"#).unwrap_err(), YoutubeError::UserInfoNotFound);
    assert_eq!(
        f.get_user_info(r#"{"items": [{"snippet": {"title": "T"}}]}"#).unwrap_err(),
        YoutubeError::AvatarUrlNotFound
    );
    assert_eq!(
        f.get_user_info(
            r#"{"items": [{"snippet": {"thumbnails": {"default": {"url": "http://x/a.png"}}}}]}"#
        )
        .unwrap_err(),
        YoutubeError::UserNameNotFound
    );
    assert_eq!(
        f.get_user_info(r#"{"items": [{"snippet": {}}]}"#).unwrap_err(),
        YoutubeError::AvatarUrlNotFound
    );
    assert_eq!(f.get_user_avatar("?"), Err(YoutubeError::Sonic));
    assert_eq!(f.get_user_avatar("{}"), Err(YoutubeError::UserInfoNotFound));
    assert_eq!(
        f.get_user_avatar(r#"{"items": [{"snippet": {"title": "T"}}]}"#),
        Err(YoutubeError::AvatarUrlNotFound)
    );
}

#[test]
fn videos_are_read_in_order_and_gaps_are_left_empty() {
    let f = YoutubeFetcher::new("KEY", "somechannel", 5);
    let body = r#"{"items": [
        {"id": {"videoId": "v1"}, "snippet": {"title": "Ep1", "channelTitle": "Abc Channel"}},
        {"id": {}, "snippet": {"title": "Ep2"}},
        "not an entry"
    ]}"#;
    let videos = f.fetch("UC123", body).expect("a list");
    assert_eq!(videos.len(), 3);
    assert_eq!(videos[0].title, "Ep1");
    assert_eq!(videos[0].link, "https://www.youtube.com/watch?v=v1");
    assert_eq!(videos[0].author_name, "Abc Channel");
    assert_eq!(videos[0].channel_id, "UC123");
    assert_eq!(videos[1].title, "Ep2");
    assert_eq!(videos[1].link, "https://www.youtube.com/watch?v=");
    assert_eq!(videos[1].author_name, "");
    assert_eq!(videos[2].title, "");
    assert_eq!(videos[2].link, "https://www.youtube.com/watch?v=");
    assert_eq!(videos[2].channel_id, "UC123");
}

#[test]
fn videos_errors() {
    let f = YoutubeFetcher::new("KEY", "somechannel", 5);
    assert_eq!(f.fetch("UC123", "").unwrap_err(), YoutubeError::Sonic);
    assert_eq!(f.fetch("UC123", "{}").unwrap_err(), YoutubeError::NoItemsFound);
    assert_eq!(f.fetch("UC123", r#"{"items": "none"}"#).unwrap_err(), YoutubeError::NoItemsFound);
    assert_eq!(f.fetch("UC123", r#"{"items": []}"#).unwrap().len(), 0);
}

#[test]
fn user_info_becomes_channel_metadata() {
    let info = UserInfo { avatar_link: "http://x/a.png".to_string(), user_name: "Abc".to_string() };
    let metadata = info.into_metadata("UC123".to_string());
    assert_eq!(metadata.display_name, "Abc");
    assert_eq!(metadata.avatar_url, "http://x/a.png");
    assert_eq!(metadata.remote_channel_id, "UC123");
}

#[test]
fn feed_address() {
    assert_eq!(RssFetcher::for_channel("UC123").url(), "https://rsshub.app/youtube/channel/UC123");
    assert_eq!(RssFetcher::new("http://feed/x").url(), "http://feed/x");
}

#[test]
fn feed_items_are_read_in_order_and_gaps_are_left_empty() {
    let feed = r#"<?xml version="1.0" encoding="UTF-8"?>
<rss version="2.0"><channel>
  <title>Abc Channel</title><link>http://x/</link><description>d</description>
  <item><title>Ep1</title><link>http://x/ep1</link><author>Abc Channel</author></item>
  <item><title>Ep2</title></item>
  <item><link>http://x/ep3</link></item>
</channel></rss>"#;
    let items = RssFetcher::new("http://feed/x").fetch(feed).expect("a feed");
    assert_eq!(items.len(), 3);
    assert_eq!(items[0].title, "Ep1");
    assert_eq!(items[0].link, "http://x/ep1");
    assert_eq!(items[0].author_name, "Abc Channel");
    assert_eq!(items[1].title, "Ep2");
    assert_eq!(items[1].link, "");
    assert_eq!(items[1].author_name, "");
    assert_eq!(items[2].title, "");
    assert_eq!(items[2].link, "http://x/ep3");
}

#[test]
fn feed_errors() {
    let f = RssFetcher::new("http://feed/x");
    assert_eq!(f.fetch("").unwrap_err(), RssError::Rss);
    assert_eq!(f.fetch("{\"items\": []}").unwrap_err(), RssError::Rss);
    assert_eq!(f.fetch("<html><body>no feed</body></html>").unwrap_err(), RssError::Rss);
}
