//! The shape of a decoded feed document: the header, its author and links,
//! and one record per entry with its media group.

use crate::timestamp::Timestamp;
use vstd::prelude::*;

verus! {

/// A decimal of rust_decimal (a star rating's average), carried unread.
#[verifier::external_type_specification]
#[verifier::external_body]
pub struct ExDecimal(rust_decimal::Decimal);

/// Relies on rust_decimal's `Decimal`, which derives `Clone` together with
/// `Copy`: a clone is the same value. Used by the derived clones below.
pub assume_specification[ <rust_decimal::Decimal as Clone>::clone ](d: &rust_decimal::Decimal) -> (r: rust_decimal::Decimal)
    ensures
        r == *d,
;

/// An element whose text content is a string (empty when the element is empty).
#[derive(Debug, Clone, PartialEq)]
pub struct XmlContentString {
    pub value: String,
}

/// An element whose text content is an unsigned integer.
#[derive(Debug, Clone, PartialEq)]
pub struct XmlContentu32 {
    pub value: u32,
}

/// An element whose text content is an instant.
#[derive(Debug, Clone, PartialEq)]
pub struct XmlContentDateTime {
    pub value: Timestamp,
}

/// A `<link rel=".." href=".."/>` element.
#[derive(Debug, Clone, PartialEq)]
pub struct Link {
    pub rel: String,
    pub href: String,
}

/// An `<author>` block.
#[derive(Debug, Clone, PartialEq)]
pub struct Author {
    pub name: XmlContentString,
    pub uri: XmlContentString,
}

/// One `<entry>` of a feed.
#[derive(Debug, Clone, PartialEq)]
pub struct XmlVideo {
    pub id: XmlContentString,
    pub video_id: XmlContentString,
    pub channel_id: XmlContentString,
    pub title: XmlContentString,
    pub link: Link,
    pub author: Author,
    pub published: XmlContentDateTime,
    pub updated: XmlContentDateTime,
    pub group: MediaGroup,
}

/// The `<media:group>` of an entry.
#[derive(Debug, Clone, PartialEq)]
pub struct MediaGroup {
    pub title: XmlContentString,
    pub content: MediaContent,
    pub thumbnail: MediaThumbnail,
    pub description: Option<XmlContentString>,
    pub community: MediaCommunity,
}

/// The `<media:content>` of an entry; `media_type` is its `type` attribute.
#[derive(Debug, Clone, PartialEq)]
pub struct MediaContent {
    pub url: String,
    pub media_type: String,
    pub width: u32,
    pub height: u32,
}

/// The `<media:thumbnail>` of an entry.
#[derive(Debug, Clone, PartialEq)]
pub struct MediaThumbnail {
    pub url: String,
    pub width: u32,
    pub height: u32,
}

/// The `<media:community>` of an entry.
#[derive(Debug, Clone, PartialEq)]
pub struct MediaCommunity {
    pub star_rating: MediaStarRating,
    pub statistics: MediaStatistics,
}

/// The `<media:starRating>` of an entry.
#[derive(Debug, Clone, PartialEq)]
pub struct MediaStarRating {
    pub count: u32,
    pub average: rust_decimal::Decimal,
    pub min: u32,
    pub max: u32,
}

/// The `<media:statistics>` of an entry.
#[derive(Debug, Clone, PartialEq)]
pub struct MediaStatistics {
    pub views: u64,
}

/// A whole decoded `<feed>` document.
///
/// `channel_id` is the `<yt:channelId>` element and may be empty;
/// `playlist_id` is the `<yt:playlistId>` element, absent from channel and
/// user feeds; `videos` is `None` when the document has no `<entry>` at all.
#[derive(Debug, Clone, PartialEq)]
pub struct XmlFeed {
    pub link: Vec<Link>,
    pub id: XmlContentString,
    pub channel_id: XmlContentString,
    pub playlist_id: Option<XmlContentString>,
    pub title: XmlContentString,
    pub author: Author,
    pub published: XmlContentDateTime,
    pub videos: Option<Vec<XmlVideo>>,
}

} // verus!
