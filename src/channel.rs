//! The channel view of a feed.

use crate::error::FeedError;
use crate::feed::{failure_of, header_matches, Feed, FeedKind};
use crate::resolve::channel_id_of;
use crate::timestamp::Timestamp;
use crate::video::Video;
use crate::xml_feed::XmlFeed;
use vstd::prelude::*;

verus! {

/// A channel and its latest videos; `id` is the channel id.
#[derive(Debug, Clone, PartialEq)]
pub struct Channel {
    pub id: String,
    pub title: String,
    pub author: String,
    pub url: String,
    pub published: Timestamp,
    pub videos: Option<Vec<Video>>,
}

impl Channel {
    /// The channel view of a decoded channel feed.
    pub fn new(raw: XmlFeed) -> (r: Result<Channel, FeedError>)
        ensures
            r is Ok <==> failure_of(raw, FeedKind::Channel) is None,
            r is Err ==> failure_of(raw, FeedKind::Channel) == Some(r->Err_0),
            r is Ok ==> channel_id_of(raw) == Ok::<Seq<char>, FeedError>(r->Ok_0.id@),
            r is Ok ==> header_matches(
                raw,
                r->Ok_0.title,
                r->Ok_0.author,
                r->Ok_0.url,
                r->Ok_0.published,
                r->Ok_0.videos,
            ),
    {
        match Feed::new(raw, FeedKind::Channel) {
            Ok(f) => Ok(Channel::from(f)),
            Err(e) => Err(e),
        }
    }
}

impl From<Feed> for Channel {
    fn from(f: Feed) -> (c: Channel) {
        Channel {
            id: f.channel_id,
            title: f.title,
            author: f.author,
            url: f.url,
            published: f.published,
            videos: f.videos,
        }
    }
}

impl vstd::std_specs::convert::FromSpecImpl<Feed> for Channel {
    open spec fn obeys_from_spec() -> bool {
        true
    }

    open spec fn from_spec(f: Feed) -> Channel {
        Channel {
            id: f.channel_id,
            title: f.title,
            author: f.author,
            url: f.url,
            published: f.published,
            videos: f.videos,
        }
    }
}

} // verus!
