//! The view of a feed requested by a legacy user name.

use crate::error::FeedError;
use crate::feed::{failure_of, header_matches, Feed, FeedKind};
use crate::resolve::channel_id_of;
use crate::timestamp::Timestamp;
use crate::video::Video;
use crate::xml_feed::XmlFeed;
use vstd::prelude::*;

verus! {

/// A user's channel and its latest videos; `id` is the channel id.
#[derive(Debug, Clone, PartialEq)]
pub struct User {
    pub id: String,
    pub title: String,
    pub author: String,
    pub url: String,
    pub published: Timestamp,
    pub videos: Option<Vec<Video>>,
}

impl User {
    /// The user view of a decoded user feed.
    pub fn new(raw: XmlFeed) -> (r: Result<User, FeedError>)
        ensures
            r is Ok <==> failure_of(raw, FeedKind::User) is None,
            r is Err ==> failure_of(raw, FeedKind::User) == Some(r->Err_0),
            r is Ok ==> channel_id_of(raw) == Ok::<Seq<char>, FeedError>(r->Ok_0.id@),
            r is Ok ==> header_matches(
                raw,
                r->Ok_0.title,
                r->Ok_0.author,
                r->Ok_0.url,
                r->Ok_0.published,
                r->Ok_0.videos,
            ),
    {
        match Feed::new(raw, FeedKind::User) {
            Ok(f) => Ok(User::from(f)),
            Err(e) => Err(e),
        }
    }
}

impl From<Feed> for User {
    fn from(f: Feed) -> (u: User) {
        User {
            id: f.channel_id,
            title: f.title,
            author: f.author,
            url: f.url,
            published: f.published,
            videos: f.videos,
        }
    }
}

impl vstd::std_specs::convert::FromSpecImpl<Feed> for User {
    open spec fn obeys_from_spec() -> bool {
        true
    }

    open spec fn from_spec(f: Feed) -> User {
        User {
            id: f.channel_id,
            title: f.title,
            author: f.author,
            url: f.url,
            published: f.published,
            videos: f.videos,
        }
    }
}

} // verus!
