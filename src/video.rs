//! The flat video record built from one feed entry.

use crate::timestamp::Timestamp;
use crate::xml_feed::{XmlContentString, XmlVideo};
use vstd::prelude::*;

verus! {

/// One video of a feed.
///
/// `channel_id` is the video's own channel, which for a playlist may differ
/// from the feed's; `description` is empty when the entry gave none.
#[derive(Debug, Clone, PartialEq)]
pub struct Video {
    pub id: String,
    pub title: String,
    pub author: String,
    pub description: String,
    pub thumbnail: String,
    pub published: Timestamp,
    pub updated: Timestamp,
    pub url: String,
    pub author_url: String,
    pub channel_id: String,
    pub views: u64,
}

/// The text of an optional description: empty when it is absent.
pub open spec fn description_text(d: Option<XmlContentString>) -> Seq<char> {
    match d {
        Some(c) => c.value@,
        None => Seq::empty(),
    }
}

/// `v` is the video that entry `e` describes.
pub open spec fn maps_entry(v: Video, e: XmlVideo) -> bool {
    &&& v.id == e.video_id.value
    &&& v.title == e.title.value
    &&& v.author == e.author.name.value
    &&& v.description@ == description_text(e.group.description)
    &&& v.thumbnail == e.group.thumbnail.url
    &&& v.published == e.published.value
    &&& v.updated == e.updated.value
    &&& v.url == e.link.href
    &&& v.author_url == e.author.uri.value
    &&& v.channel_id == e.channel_id.value
    &&& v.views == e.group.community.statistics.views
}

/// `videos` holds, in order, the video of each entry of `entries`.
pub open spec fn maps_entries(videos: Seq<Video>, entries: Seq<XmlVideo>) -> bool {
    &&& videos.len() == entries.len()
    &&& forall|i: int| 0 <= i < videos.len() ==> maps_entry(#[trigger] videos[i], entries[i])
}

impl Video {
    /// The video that a feed entry describes. Never fails: only the
    /// description is optional, and it defaults to the empty string.
    pub fn map_entry(entry: XmlVideo) -> (v: Video)
        ensures
            maps_entry(v, entry),
            entry.group.description is Some ==> v.description
                == entry.group.description->0.value,
            entry.group.description is None ==> v.description@.len() == 0,
    {
        let description = match entry.group.description {
            Some(d) => d.value,
            None => String::new(),
        };
        Video {
            id: entry.video_id.value,
            title: entry.title.value,
            author: entry.author.name.value,
            description,
            thumbnail: entry.group.thumbnail.url,
            published: entry.published.value,
            updated: entry.updated.value,
            url: entry.link.href,
            author_url: entry.author.uri.value,
            channel_id: entry.channel_id.value,
            views: entry.group.community.statistics.views,
        }
    }

    /// The videos of a list of entries, in the same order.
    pub fn map_entries(entries: Vec<XmlVideo>) -> (vs: Vec<Video>)
        ensures
            maps_entries(vs@, entries@),
    {
        let mut vs: Vec<Video> = Vec::new();
        for e in it: entries
            invariant
                it.seq() == entries@,
                maps_entries(vs@, it.seq().take(it.index() as int)),
        {
            vs.push(Video::map_entry(e));
        }
        vs
    }
}

} // verus!
