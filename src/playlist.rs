//! The playlist view of a feed.

use crate::error::FeedError;
use crate::feed::{failure_of, header_matches, Feed, FeedKind};
use crate::resolve::{channel_id_of, playlist_id_of};
use crate::timestamp::Timestamp;
use crate::video::Video;
use crate::xml_feed::XmlFeed;
use vstd::prelude::*;

verus! {

/// A playlist and its latest videos; `id` is the playlist id and
/// `channel_id` the channel that owns the playlist.
#[derive(Debug, Clone, PartialEq)]
pub struct Playlist {
    pub id: String,
    pub title: String,
    pub author: String,
    pub channel_id: String,
    pub url: String,
    pub published: Timestamp,
    pub videos: Option<Vec<Video>>,
}

impl Playlist {
    /// The playlist view of a decoded playlist feed.
    pub fn new(raw: XmlFeed) -> (r: Result<Playlist, FeedError>)
        ensures
            r is Ok <==> failure_of(raw, FeedKind::Playlist) is None,
            r is Err ==> failure_of(raw, FeedKind::Playlist) == Some(r->Err_0),
            r is Ok ==> playlist_id_of(raw) == Ok::<Seq<char>, FeedError>(r->Ok_0.id@),
            r is Ok ==> channel_id_of(raw) == Ok::<Seq<char>, FeedError>(r->Ok_0.channel_id@),
            r is Ok ==> header_matches(
                raw,
                r->Ok_0.title,
                r->Ok_0.author,
                r->Ok_0.url,
                r->Ok_0.published,
                r->Ok_0.videos,
            ),
    {
        match Feed::new(raw, FeedKind::Playlist) {
            Ok(f) => Playlist::try_from(f),
            Err(e) => Err(e),
        }
    }
}

impl TryFrom<Feed> for Playlist {
    type Error = FeedError;

    /// Fails with `MissingPlaylistId` when the feed carries no playlist id.
    fn try_from(f: Feed) -> (r: Result<Playlist, FeedError>) {
        match f.playlist_id {
            Some(id) => Ok(
                Playlist {
                    id,
                    title: f.title,
                    author: f.author,
                    channel_id: f.channel_id,
                    url: f.url,
                    published: f.published,
                    videos: f.videos,
                },
            ),
            None => Err(FeedError::MissingPlaylistId),
        }
    }
}

impl vstd::std_specs::convert::TryFromSpecImpl<Feed> for Playlist {
    open spec fn obeys_try_from_spec() -> bool {
        true
    }

    open spec fn try_from_spec(f: Feed) -> Result<Playlist, FeedError> {
        match f.playlist_id {
            Some(id) => Ok(
                Playlist {
                    id,
                    title: f.title,
                    author: f.author,
                    channel_id: f.channel_id,
                    url: f.url,
                    published: f.published,
                    videos: f.videos,
                },
            ),
            None => Err(FeedError::MissingPlaylistId),
        }
    }
}

} // verus!
