use libretube_sync::youtube::channel::{ChannelFetcher, ChannelRss, PublishedDate, VideoRss};
use libretube_sync::youtube::xml_helpers::{
    get_attribute, get_child_by_name, get_child_text_by_name, get_children_by_name, XmlDocument,
};
use libretube_sync::youtube::YouTubeError;

const FEED: &str = r#"<?xml version="1.0" encoding="UTF-8"?>
<feed xmlns:yt="http://www.youtube.com/xml/schemas/2015" xmlns:media="http://search.yahoo.com/mrss/" xmlns="http://www.w3.org/2005/Atom">
 <link rel="self" href="http://www.youtube.com/feeds/videos.xml?channel_id=UC123"/>
 <id>yt:channel:UC123</id>
 <yt:channelId>UC123</yt:channelId>
 <title>My Channel</title>
 <author><name>My Channel</name></author>
 <published>2010-01-01T00:00:00+00:00</published>
 <entry>
  <id>yt:video:vid1</id>
  <yt:videoId>vid1</yt:videoId>
  <yt:channelId>UC123</yt:channelId>
  <title>First video</title>
  <published>2024-01-02T03:04:05+00:00</published>
  <media:group>
   <media:title>First video</media:title>
   <media:thumbnail url="https://i.ytimg.com/vi/vid1/hqdefault.jpg" width="480" height="360"/>
   <media:description>Desc 1</media:description>
  </media:group>
 </entry>
 <entry>
  <yt:videoId>vid2</yt:videoId>
  <title>No group</title>
  <published>2024-01-02T03:04:05+00:00</published>
 </entry>
 <entry>
  <yt:videoId>vid3</yt:videoId>
  <title>Bad date</title>
  <published>yesterday</published>
  <media:group>
   <media:thumbnail url="x"/>
   <media:description>Desc 3</media:description>
  </media:group>
 </entry>
 <entry>
  <yt:videoId>vid4</yt:videoId>
  <title>Second video</title>
  <published>2023-06-15T12:00:00+02:00</published>
  <media:group>
   <media:thumbnail width="1"/>
   <media:description>Desc 4</media:description>
  </media:group>
 </entry>
</feed>"#;

fn video(id: &str, title: &str, description: &str, date: PublishedDate, thumbnail: &str) -> VideoRss {
    VideoRss {
        id: id.to_string(),
        title: title.to_string(),
        description: description.to_string(),
        published_date: date,
        thumbnail: thumbnail.to_string(),
    }
}

#[test]
fn feed_is_read_and_incomplete_entries_are_left_out() {
    let channel = ChannelFetcher::parse_channel_rss(FEED).unwrap();
    let expected = ChannelRss {
        id: "UC123".to_string(),
        name: "My Channel".to_string(),
        videos: vec![
            video(
                "vid1",
                "First video",
                "Desc 1",
                PublishedDate { timestamp: 1704164645, nanos: 0, offset_seconds: 0 },
                "https://i.ytimg.com/vi/vid1/hqdefault.jpg",
            ),
            video(
                "vid4",
                "Second video",
                "Desc 4",
                PublishedDate { timestamp: 1686823200, nanos: 0, offset_seconds: 7200 },
                "",
            ),
        ],
    };
    assert_eq!(channel, expected);
}

#[test]
fn videos_never_outnumber_entries() {
    let channel = ChannelFetcher::parse_channel_rss(FEED).unwrap();
    let doc = XmlDocument::parse(FEED).unwrap();
    let entries = get_children_by_name(&doc, 0, "entry");
    assert_eq!(entries.len(), 4);
    assert!(channel.videos.len() <= entries.len());
}

#[test]
fn feed_without_entries_has_no_videos() {
    let feed = r#"<feed><channelId>C</channelId><title>T</title></feed>"#;
    let channel = ChannelFetcher::parse_channel_rss(feed).unwrap();
    assert_eq!(channel.id, "C");
    assert_eq!(channel.name, "T");
    assert!(channel.videos.is_empty());
}

#[test]
fn malformed_xml_is_a_syntax_error() {
    let res = ChannelFetcher::parse_channel_rss("<feed><title>oops</feed>");
    let expected = roxmltree::Document::parse("<feed><title>oops</feed>").unwrap_err().to_string();
    match res {
        Err(YouTubeError::SyntaxError(msg)) => assert_eq!(msg, expected),
        other => panic!("unexpected {:?}", other),
    }
}

#[test]
fn non_xml_body_reads_as_malformed_rss() {
    let err = ChannelFetcher::parse_channel_rss("not xml").unwrap_err();
    let parser_text = roxmltree::Document::parse("not xml").unwrap_err().to_string();
    assert_eq!(err, YouTubeError::SyntaxError(parser_text.clone()));
    assert!(err.message().starts_with("malformed RSS: "));
    assert_eq!(err.message(), format!("malformed RSS: {}", parser_text));
}

#[test]
fn channel_from_a_parsed_document() {
    let doc = XmlDocument::parse(FEED).unwrap();
    assert_eq!(
        ChannelFetcher::channel_from_document(&doc),
        ChannelFetcher::parse_channel_rss(FEED)
    );
    let bare = XmlDocument::parse("<feed><title>T</title></feed>").unwrap();
    assert_eq!(
        ChannelFetcher::channel_from_document(&bare),
        Err(YouTubeError::ParserError("missing tag channelId".to_string()))
    );
}

#[test]
fn dates_compare_by_instant_only() {
    let utc = PublishedDate { timestamp: 1686823200, nanos: 0, offset_seconds: 0 };
    let cest = PublishedDate { timestamp: 1686823200, nanos: 0, offset_seconds: 7200 };
    let later = PublishedDate { timestamp: 1686823200, nanos: 1, offset_seconds: -3600 };
    assert_eq!(utc, cest);
    assert!(utc < later);
    assert!(later > cest);
    assert_ne!(utc, later);
}

#[test]
fn missing_channel_id_is_a_parser_error() {
    let res = ChannelFetcher::parse_channel_rss("<feed><title>T</title></feed>");
    assert_eq!(res, Err(YouTubeError::ParserError("missing tag channelId".to_string())));
}

#[test]
fn empty_channel_id_is_missing_content() {
    let res = ChannelFetcher::parse_channel_rss("<feed><channelId/><title>T</title></feed>");
    assert_eq!(
        res,
        Err(YouTubeError::ParserError("missing tag content for {name}".to_string()))
    );
}

#[test]
fn missing_title_is_reported_after_the_id() {
    let res = ChannelFetcher::parse_channel_rss("<feed><channelId>C</channelId></feed>");
    assert_eq!(res, Err(YouTubeError::ParserError("missing tag title".to_string())));
}

#[test]
fn feed_url_names_the_channel() {
    assert_eq!(
        ChannelFetcher::feed_url("UC123"),
        "https://www.youtube.com/feeds/videos.xml?channel_id=UC123"
    );
}

#[test]
fn error_messages() {
    assert_eq!(YouTubeError::ConnectionError.message(), "failed to connect to youtube");
    assert_eq!(
        YouTubeError::SyntaxError("bad".to_string()).message(),
        "malformed RSS: bad"
    );
    assert_eq!(
        YouTubeError::ParserError("missing tag x".to_string()).message(),
        "failed to parse: missing tag x"
    );
}

#[test]
fn child_lookup_includes_the_node_itself_and_goes_in_document_order() {
    let doc = XmlDocument::parse("<a><b>1</b><c><b>2</b></c><b>3</b></a>").unwrap();
    assert_eq!(get_child_by_name(&doc, 0, "a"), Ok(0));
    let first = get_child_by_name(&doc, 0, "b").unwrap();
    assert_eq!(get_child_text_by_name(&doc, 0, "b"), Ok("1".to_string()));
    let all = get_children_by_name(&doc, 0, "b");
    assert_eq!(all.len(), 3);
    assert_eq!(all[0], first);
    let c = get_child_by_name(&doc, 0, "c").unwrap();
    assert_eq!(get_child_text_by_name(&doc, c, "b"), Ok("2".to_string()));
    assert_eq!(get_children_by_name(&doc, c, "b").len(), 1);
    assert_eq!(
        get_child_by_name(&doc, c, "a"),
        Err(YouTubeError::ParserError("missing tag a".to_string()))
    );
}

#[test]
fn lookups_match_local_names_only() {
    let doc = XmlDocument::parse(r#"<r xmlns:p="urn:p"><p:x k="v" p:k="w">t</p:x></r>"#).unwrap();
    let x = get_child_by_name(&doc, 0, "x").unwrap();
    assert_eq!(get_attribute(&doc, x, "k"), Some("v".to_string()));
    assert_eq!(get_attribute(&doc, x, "missing"), None);
    assert!(get_child_by_name(&doc, 0, "p:x").is_err());
}
