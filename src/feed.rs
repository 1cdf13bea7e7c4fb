//! The normalized feed: one pipeline shared by the channel, playlist and user
//! views, from a decoded document to the header, identifiers and videos.

use crate::error::FeedError;
use crate::resolve::{channel_id_of, playlist_id_of, resolve_channel_id, resolve_playlist_id};
use crate::timestamp::Timestamp;
use crate::video::{maps_entries, Video};
use crate::xml_feed::{XmlFeed, XmlVideo};
use vstd::prelude::*;
use vstd::string::StringExecFns;

verus! {

/// Where every feed is requested; the query names the channel, playlist or user.
pub const FEED_ENDPOINT: &'static str = "https://www.youtube.com/feeds/videos.xml?";

/// Which view of a feed is being built.
#[derive(Clone, Copy, Debug, PartialEq, Eq, Structural)]
pub enum FeedKind {
    Channel,
    Playlist,
    User,
}

impl FeedKind {
    /// The query parameter that names what the feed is about.
    pub open spec fn spec_query_key(self) -> Seq<char> {
        match self {
            FeedKind::Channel => "channel_id"@,
            FeedKind::Playlist => "playlist_id"@,
            FeedKind::User => "user"@,
        }
    }

    /// The address of the feed of `id` (a channel id, playlist id or user name).
    pub open spec fn spec_url(self, id: Seq<char>) -> Seq<char> {
        FEED_ENDPOINT@ + self.spec_query_key() + "="@ + id
    }

    /// The query parameter that names what the feed is about.
    pub fn query_key(&self) -> (r: &'static str)
        ensures
            r@ == self.spec_query_key(),
    {
        match self {
            FeedKind::Channel => "channel_id",
            FeedKind::Playlist => "playlist_id",
            FeedKind::User => "user",
        }
    }

    /// The address of the feed of `id` (a channel id, playlist id or user name).
    pub fn url(&self, id: &str) -> (r: String)
        ensures
            r@ == self.spec_url(id@),
    {
        let mut r = String::from_str(FEED_ENDPOINT);
        r.append(self.query_key());
        r.append("=");
        r.append(id);
        r
    }
}

/// A feed after normalization, before it is shaped into a view.
///
/// `channel_id` is never empty; `playlist_id` is present exactly for playlist
/// feeds; `videos` is `None` when the document had no entry element at all.
#[derive(Debug, Clone, PartialEq)]
pub struct Feed {
    pub title: String,
    pub author: String,
    pub channel_id: String,
    pub playlist_id: Option<String>,
    pub url: String,
    pub published: Timestamp,
    pub videos: Option<Vec<Video>>,
}

/// `videos` is what the entries map to: `None` for no entry element,
/// otherwise one video per entry in the same order.
pub open spec fn videos_mapped(entries: Option<Vec<XmlVideo>>, videos: Option<Vec<Video>>) -> bool {
    match (entries, videos) {
        (None, None) => true,
        (Some(es), Some(vs)) => maps_entries(vs@, es@),
        _ => false,
    }
}

/// The fields that every view copies from the document.
pub open spec fn header_matches(
    raw: XmlFeed,
    title: String,
    author: String,
    url: String,
    published: Timestamp,
    videos: Option<Vec<Video>>,
) -> bool {
    &&& title == raw.title.value
    &&& author == raw.author.name.value
    &&& url == raw.author.uri.value
    &&& published == raw.published.value
    &&& videos_mapped(raw.videos, videos)
}

/// Why the document cannot be normalized into a feed of `kind`, if it cannot.
pub open spec fn failure_of(raw: XmlFeed, kind: FeedKind) -> Option<FeedError> {
    if channel_id_of(raw) is Err {
        Some(channel_id_of(raw)->Err_0)
    } else if kind is Playlist && playlist_id_of(raw) is Err {
        Some(playlist_id_of(raw)->Err_0)
    } else {
        None
    }
}

/// `f` is the normalized feed of `kind` for the document `raw`.
pub open spec fn normalizes(raw: XmlFeed, kind: FeedKind, f: Feed) -> bool {
    &&& header_matches(raw, f.title, f.author, f.url, f.published, f.videos)
    &&& channel_id_of(raw) == Ok::<Seq<char>, FeedError>(f.channel_id@)
    &&& if kind is Playlist {
        &&& f.playlist_id is Some
        &&& playlist_id_of(raw) == Ok::<Seq<char>, FeedError>(f.playlist_id->0@)
    } else {
        f.playlist_id is None
    }
}

/// A document without any entry element gives a feed without a video list,
/// and one with an empty list of entries gives an empty video list: the two
/// stay distinguishable.
pub proof fn lemma_absent_and_empty_entries(raw: XmlFeed, kind: FeedKind, f: Feed)
    requires
        normalizes(raw, kind, f),
    ensures
        raw.videos is None <==> f.videos is None,
        raw.videos is Some && raw.videos->0@.len() == 0 ==> f.videos is Some
            && f.videos->0@.len() == 0,
{
}

impl Feed {
    /// Normalizes a decoded document: resolves the channel id, and the
    /// playlist id for a playlist feed, and maps every entry to a video.
    pub fn new(raw: XmlFeed, kind: FeedKind) -> (r: Result<Feed, FeedError>)
        ensures
            r is Ok <==> failure_of(raw, kind) is None,
            r is Err ==> failure_of(raw, kind) == Some(r->Err_0),
            r is Ok ==> normalizes(raw, kind, r->Ok_0),
    {
        let channel_id = match resolve_channel_id(&raw) {
            Ok(id) => id,
            Err(e) => return Err(e),
        };
        let playlist_id = match kind {
            FeedKind::Playlist => match resolve_playlist_id(&raw) {
                Ok(id) => Some(id),
                Err(e) => return Err(e),
            },
            _ => None,
        };
        let videos = match raw.videos {
            Some(entries) => Some(Video::map_entries(entries)),
            None => None,
        };
        Ok(
            Feed {
                title: raw.title.value,
                author: raw.author.name.value,
                channel_id,
                playlist_id,
                url: raw.author.uri.value,
                published: raw.published.value,
                videos,
            },
        )
    }
}

} // verus!
