//! Reading of YouTube's channel RSS feeds.
use vstd::prelude::*;

use crate::youtube::xml_helpers::{
    XmlDocument, XmlNodeView, attribute_value, child_by_name, child_text_by_name,
    children_by_name, get_attribute, get_child_by_name, get_child_text_by_name,
    get_children_by_name, option_string_view, xml_document,
};
pub use crate::youtube::date::PublishedDate;
use crate::youtube::{YOUTUBE_BASE_URL, YouTubeError, YouTubeErrorView, YouTubeResult};

verus! {

/// Fetches channel feeds (the fetching itself is network I/O and is done by the caller;
/// this type builds the feed address and reads the feed).
pub struct ChannelFetcher {}

/// One video of a channel feed.
#[derive(Debug, Default, Clone, PartialEq, Eq, PartialOrd)]
pub struct VideoRss {
    pub id: String,
    pub title: String,
    pub description: String,
    pub published_date: PublishedDate,
    pub thumbnail: String,
}

/// A channel feed: the channel and the videos it lists.
#[derive(Debug, Default, Clone, PartialEq, Eq, PartialOrd)]
pub struct ChannelRss {
    pub id: String,
    pub name: String,
    pub videos: Vec<VideoRss>,
}

pub struct VideoRssView {
    pub id: Seq<char>,
    pub title: Seq<char>,
    pub description: Seq<char>,
    pub published_date: PublishedDate,
    pub thumbnail: Seq<char>,
}

pub struct ChannelRssView {
    pub id: Seq<char>,
    pub name: Seq<char>,
    pub videos: Seq<VideoRssView>,
}

impl View for VideoRss {
    type V = VideoRssView;

    open spec fn view(&self) -> VideoRssView {
        VideoRssView {
            id: self.id@,
            title: self.title@,
            description: self.description@,
            published_date: self.published_date,
            thumbnail: self.thumbnail@,
        }
    }
}

pub open spec fn video_views(videos: Seq<VideoRss>) -> Seq<VideoRssView> {
    videos.map_values(|v: VideoRss| v@)
}

impl View for ChannelRss {
    type V = ChannelRssView;

    open spec fn view(&self) -> ChannelRssView {
        ChannelRssView { id: self.id@, name: self.name@, videos: video_views(self.videos@) }
    }
}

/// The instant that an RFC 3339 date-time text denotes, with its offset, or `None`
/// when the text is not a valid RFC 3339 date-time.
pub uninterp spec fn rfc3339_instant(text: Seq<char>) -> Option<PublishedDate>;

/// Calls `chrono::DateTime::parse_from_rfc3339` and takes the parsed value apart into
/// seconds, nanoseconds and offset.  Trusted: the result equals `rfc3339_instant(text)`.
#[verifier::external_body]
fn parse_rfc3339(text: &str) -> (res: Option<PublishedDate>)
    ensures
        res == rfc3339_instant(text@),
{
    chrono::DateTime::parse_from_rfc3339(text).ok().map(|d| PublishedDate {
        timestamp: d.timestamp(),
        nanos: d.timestamp_subsec_nanos(),
        offset_seconds: d.offset().local_minus_utc(),
    })
}

/// The video that the feed entry at node `entry` describes, or `None` when the entry
/// lacks one of its parts or its publication date is not RFC 3339.
pub open spec fn video_entry(nodes: Seq<XmlNodeView>, entry: int) -> Option<VideoRssView> {
    match child_by_name(nodes, entry, "group"@) {
        None => None,
        Some(group) => match (
            child_text_by_name(nodes, entry, "videoId"@),
            child_text_by_name(nodes, entry, "title"@),
            child_text_by_name(nodes, entry, "published"@),
            child_text_by_name(nodes, group, "description"@),
            child_by_name(nodes, group, "thumbnail"@),
        ) {
            (Ok(id), Ok(title), Ok(published), Ok(description), Some(thumb)) => match rfc3339_instant(
                published,
            ) {
                Some(date) => Some(
                    VideoRssView {
                        id,
                        title,
                        description,
                        published_date: date,
                        thumbnail: match attribute_value(nodes[thumb].attributes, "url"@) {
                            Some(url) => url,
                            None => seq![],
                        },
                    },
                ),
                None => None,
            },
            _ => None,
        },
    }
}

/// The videos of the entries `entries`, in order, leaving out the entries that are
/// not complete videos.
pub open spec fn entry_videos(nodes: Seq<XmlNodeView>, entries: Seq<int>) -> Seq<VideoRssView>
    decreases entries.len(),
{
    if entries.len() == 0 {
        seq![]
    } else {
        entry_videos(nodes, entries.drop_last()) + match video_entry(nodes, entries.last()) {
            Some(v) => seq![v],
            None => seq![],
        }
    }
}

/// The channel that a parsed feed describes: its id and name come from the first
/// `channelId` and `title` elements of the document, its videos from all `entry` elements.
pub open spec fn channel_from_nodes(nodes: Seq<XmlNodeView>) -> Result<ChannelRssView, YouTubeErrorView> {
    match child_text_by_name(nodes, 0, "channelId"@) {
        Err(e) => Err(e),
        Ok(id) => match child_text_by_name(nodes, 0, "title"@) {
            Err(e) => Err(e),
            Ok(name) => Ok(
                ChannelRssView {
                    id,
                    name,
                    videos: entry_videos(nodes, children_by_name(nodes, 0, "entry"@)),
                },
            ),
        },
    }
}

/// A feed never lists more videos than it has entries.
pub proof fn lemma_videos_at_most_entries(nodes: Seq<XmlNodeView>, entries: Seq<int>)
    ensures
        entry_videos(nodes, entries).len() <= entries.len(),
    decreases entries.len(),
{
    if entries.len() > 0 {
        lemma_videos_at_most_entries(nodes, entries.drop_last());
    }
}

pub open spec fn feed_url_of(channel_id: Seq<char>) -> Seq<char> {
    YOUTUBE_BASE_URL@ + "/feeds/videos.xml?channel_id="@ + channel_id
}

/// How a video relates to the feed entry at node `entry`: its id, title and description
/// are the texts of the first `videoId`, `title` and (under the first `group`)
/// `description` elements, and its publication date is the RFC 3339 date written in the
/// first `published` element of the entry (not, say, in its `updated` element).
pub open spec fn video_read_from_entry(nodes: Seq<XmlNodeView>, entry: int, v: VideoRssView) -> bool {
    &&& child_text_by_name(nodes, entry, "videoId"@) == Ok::<Seq<char>, YouTubeErrorView>(v.id)
    &&& child_text_by_name(nodes, entry, "title"@) == Ok::<Seq<char>, YouTubeErrorView>(v.title)
    &&& child_text_by_name(nodes, entry, "published"@) matches Ok(p) && rfc3339_instant(p) == Some(
        v.published_date,
    )
    &&& child_by_name(nodes, entry, "group"@) matches Some(g) && child_text_by_name(
        nodes,
        g,
        "description"@,
    ) == Ok::<Seq<char>, YouTubeErrorView>(v.description)
}

/// Every field of the video read from an entry comes from that entry: in particular its
/// publication date is the date of the entry's `published` element.
pub proof fn lemma_video_fields_come_from_entry(nodes: Seq<XmlNodeView>, entry: int)
    ensures
        video_entry(nodes, entry) matches Some(v) ==> video_read_from_entry(nodes, entry, v),
{
}

/// Whether `v` is read, as `video_read_from_entry` describes, from one of `entries`.
pub open spec fn read_from_some_entry(nodes: Seq<XmlNodeView>, entries: Seq<int>, v: VideoRssView) -> bool {
    exists|j: int| 0 <= j < entries.len() && #[trigger] video_read_from_entry(nodes, entries[j], v)
}

/// Every video of a feed is read from one of the feed's `entry` elements, as
/// `video_read_from_entry` describes.
pub proof fn lemma_videos_come_from_entries(nodes: Seq<XmlNodeView>, entries: Seq<int>)
    ensures
        forall|k: int|
            0 <= k < entry_videos(nodes, entries).len() ==> read_from_some_entry(
                nodes,
                entries,
                #[trigger] entry_videos(nodes, entries)[k],
            ),
    decreases entries.len(),
{
    if entries.len() > 0 {
        let prev = entries.drop_last();
        lemma_videos_come_from_entries(nodes, prev);
        lemma_video_fields_come_from_entry(nodes, entries.last());
        let vs = entry_videos(nodes, entries);
        let pv = entry_videos(nodes, prev);
        assert forall|k: int| 0 <= k < vs.len() implies read_from_some_entry(nodes, entries, #[trigger] vs[k]) by {
            if k < pv.len() {
                assert(vs[k] == pv[k]);
                assert(read_from_some_entry(nodes, prev, pv[k]));
                let j = choose|j: int| 0 <= j < prev.len() && #[trigger] video_read_from_entry(
                    nodes,
                    prev[j],
                    pv[k],
                );
                assert(prev[j] == entries[j]);
                assert(video_read_from_entry(nodes, entries[j], vs[k]));
            } else {
                let j = entries.len() - 1;
                assert(entries[j] == entries.last());
                assert(video_read_from_entry(nodes, entries[j], vs[k]));
            }
        }
    }
}

/// The feed address is the fixed prefix followed by the channel id, unchanged.
pub proof fn lemma_feed_url_ends_with_id(channel_id: Seq<char>)
    ensures
        feed_url_of(channel_id).len() == 52 + channel_id.len(),
        feed_url_of(channel_id).subrange(0, 52) == "https://www.youtube.com/feeds/videos.xml?channel_id="@,
        feed_url_of(channel_id).subrange(52, feed_url_of(channel_id).len() as int) == channel_id,
{
    reveal_strlit("https://www.youtube.com");
    reveal_strlit("/feeds/videos.xml?channel_id=");
    reveal_strlit("https://www.youtube.com/feeds/videos.xml?channel_id=");
    let p = YOUTUBE_BASE_URL@ + "/feeds/videos.xml?channel_id="@;
    assert(p =~= "https://www.youtube.com/feeds/videos.xml?channel_id="@);
    assert(feed_url_of(channel_id).subrange(0, 52) =~= p);
    assert(feed_url_of(channel_id).subrange(52, feed_url_of(channel_id).len() as int) =~= channel_id);
}

fn read_video_entry(doc: &XmlDocument, entry: usize) -> (res: Option<VideoRss>)
    requires
        entry < doc@.len(),
    ensures
        match res {
            Some(v) => video_entry(doc@, entry as int) == Some(v@),
            None => video_entry(doc@, entry as int) is None,
        },
{
    let group = match get_child_by_name(doc, entry, "group") {
        Ok(g) => g,
        Err(_) => return None,
    };
    let id = match get_child_text_by_name(doc, entry, "videoId") {
        Ok(t) => t,
        Err(_) => return None,
    };
    let title = match get_child_text_by_name(doc, entry, "title") {
        Ok(t) => t,
        Err(_) => return None,
    };
    let published = match get_child_text_by_name(doc, entry, "published") {
        Ok(t) => t,
        Err(_) => return None,
    };
    let published_date = match parse_rfc3339(published.as_str()) {
        Some(d) => d,
        None => return None,
    };
    let description = match get_child_text_by_name(doc, group, "description") {
        Ok(t) => t,
        Err(_) => return None,
    };
    let thumb = match get_child_by_name(doc, group, "thumbnail") {
        Ok(t) => t,
        Err(_) => return None,
    };
    let thumbnail = match get_attribute(doc, thumb, "url") {
        Some(url) => url,
        None => String::new(),
    };
    Some(VideoRss { id, title, description, published_date, thumbnail })
}

impl ChannelFetcher {
    /// The address of the RSS feed of channel `channel_id`.
    pub fn feed_url(channel_id: &str) -> (res: String)
        ensures
            res@ == feed_url_of(channel_id@),
            res@.len() == 52 + channel_id@.len(),
            res@.subrange(52, res@.len() as int) == channel_id@,
    {
        proof {
            lemma_feed_url_ends_with_id(channel_id@);
        }
        let mut url = YOUTUBE_BASE_URL.to_owned();
        url.append("/feeds/videos.xml?channel_id=");
        url.append(channel_id);
        url
    }

    /// Reads a channel feed from the body of the feed's HTTP response.
    /// Text that is not XML is a syntax error carrying the parser's message; the rest
    /// is [`ChannelFetcher::channel_from_document`].
    pub fn parse_channel_rss(response_body: &str) -> (res: YouTubeResult<ChannelRss>)
        ensures
            match xml_document(response_body@) {
                Err(m) => res matches Err(e) && e@ == YouTubeErrorView::SyntaxError(m),
                Ok(nodes) => match channel_from_nodes(nodes) {
                    Ok(c) => res matches Ok(r) && r@ == c,
                    Err(e) => res matches Err(r) && r@ == e,
                },
            },
    {
        let doc = XmlDocument::parse(response_body)?;
        Self::channel_from_document(&doc)
    }

    /// Reads a channel out of a parsed feed: a feed without a channel id or title (or
    /// with one that has no text) is a parser error; entries that are not complete
    /// videos are left out.
    pub fn channel_from_document(doc: &XmlDocument) -> (res: YouTubeResult<ChannelRss>)
        requires
            doc@.len() > 0,
        ensures
            match channel_from_nodes(doc@) {
                Ok(c) => res matches Ok(r) && r@ == c,
                Err(e) => res matches Err(r) && r@ == e,
            },
    {
        let entries = get_children_by_name(doc, 0, "entry");
        let ghost es = entries@.map_values(|j: usize| j as int);
        let mut videos: Vec<VideoRss> = Vec::new();
        let mut k: usize = 0;
        while k < entries.len()
            invariant
                k <= entries@.len(),
                es == entries@.map_values(|j: usize| j as int),
                forall|i: int| 0 <= i < entries@.len() ==> #[trigger] entries@[i] < doc@.len(),
                video_views(videos@) == entry_videos(doc@, es.take(k as int)),
            decreases entries.len() - k,
        {
            let entry = entries[k];
            let v = read_video_entry(doc, entry);
            assert(es.take(k + 1).drop_last() =~= es.take(k as int));
            match v {
                Some(v) => {
                    videos.push(v);
                },
                None => {},
            }
            k += 1;
        }
        assert(es.take(entries@.len() as int) =~= es);
        let id = get_child_text_by_name(doc, 0, "channelId")?;
        let name = get_child_text_by_name(doc, 0, "title")?;
        Ok(ChannelRss { id, name, videos })
    }
}

} // verus!
