//! The canonical channel and playlist identifiers of a decoded feed, with the
//! fallbacks for feeds that leave the primary fields blank.

use crate::error::FeedError;
use crate::text::{after_marker, contains, lemma_after_marker_of_concat, occurs_at, same_text, text_after};
use crate::xml_feed::{Link, XmlFeed};
use vstd::prelude::*;

verus! {

/// What precedes a channel id in an author URI.
pub const CHANNEL_MARKER: &'static str = "/channel/";

/// What precedes a playlist id in the query of a self link.
pub const PLAYLIST_MARKER: &'static str = "playlist_id=";

/// The relation of the link that points at the feed itself.
pub const SELF_REL: &'static str = "self";

/// The non-empty remainder of `s` after the first `marker`, if there is one.
pub open spec fn id_after(s: Seq<char>, marker: Seq<char>) -> Option<Seq<char>> {
    match after_marker(s, marker) {
        Some(rest) => if rest.len() > 0 {
            Some(rest)
        } else {
            None
        },
        None => None,
    }
}

/// The text of a resolved identifier, or the error.
pub open spec fn text_result(r: Result<String, FeedError>) -> Result<Seq<char>, FeedError> {
    match r {
        Ok(s) => Ok(s@),
        Err(e) => Err(e),
    }
}

/// The channel id of a feed: its own field when that is non-empty, otherwise
/// what follows `/channel/` in the author URI.
pub open spec fn channel_id_of(raw: XmlFeed) -> Result<Seq<char>, FeedError> {
    if raw.channel_id.value@.len() > 0 {
        Ok(raw.channel_id.value@)
    } else {
        match id_after(raw.author.uri.value@, CHANNEL_MARKER@) {
            Some(id) => Ok(id),
            None => Err(FeedError::MissingIdentifier),
        }
    }
}

/// The link points at the feed itself.
pub open spec fn is_self(l: Link) -> bool {
    l.rel@ == SELF_REL@
}

/// `i` is the first link that points at the feed itself.
pub open spec fn is_first_self(links: Seq<Link>, i: int) -> bool {
    &&& 0 <= i < links.len()
    &&& is_self(links[i])
    &&& forall|j: int| 0 <= j < i ==> !is_self(#[trigger] links[j])
}

/// The first link that points at the feed itself, if any.
pub open spec fn first_self_link(links: Seq<Link>) -> Option<Link> {
    if exists|i: int| 0 <= i < links.len() && is_self(#[trigger] links[i]) {
        let i = choose|i: int| is_first_self(links, i);
        Some(links[i])
    } else {
        None
    }
}

/// The playlist id of a feed: its own field when that is present and
/// non-empty, otherwise what follows `playlist_id=` in the first self link.
pub open spec fn playlist_id_of(raw: XmlFeed) -> Result<Seq<char>, FeedError> {
    if raw.playlist_id is Some && raw.playlist_id->0.value@.len() > 0 {
        Ok(raw.playlist_id->0.value@)
    } else {
        match first_self_link(raw.link@) {
            None => Err(FeedError::MissingSelfLink),
            Some(l) => match id_after(l.href@, PLAYLIST_MARKER@) {
                Some(id) => Ok(id),
                None => Err(FeedError::MalformedSelfLink),
            },
        }
    }
}

/// There is only one first self link, and `first_self_link` names it.
pub proof fn lemma_first_self_link(links: Seq<Link>, i: int)
    requires
        is_first_self(links, i),
    ensures
        first_self_link(links) == Some(links[i]),
{
    let k = choose|k: int| is_first_self(links, k);
    if k < i {
        assert(!is_self(links[k]));
    } else if i < k {
        assert(!is_self(links[i]));
    }
}

/// A non-empty channel id field is the channel id, unchanged.
pub proof fn lemma_channel_id_field_wins(raw: XmlFeed)
    requires
        raw.channel_id.value@.len() > 0,
    ensures
        channel_id_of(raw) == Ok::<Seq<char>, FeedError>(raw.channel_id.value@),
{
}

/// With an empty channel id field, an author URI made of `prefix`,
/// `/channel/` and a non-empty `id` (no `/channel/` starting inside `prefix`)
/// gives the channel id `id`.
pub proof fn lemma_channel_id_from_author_uri(raw: XmlFeed, prefix: Seq<char>, id: Seq<char>)
    requires
        raw.channel_id.value@.len() == 0,
        raw.author.uri.value@ == prefix + CHANNEL_MARKER@ + id,
        id.len() > 0,
        forall|j: int|
            0 <= j < prefix.len() ==> !occurs_at(raw.author.uri.value@, CHANNEL_MARKER@, j),
    ensures
        channel_id_of(raw) == Ok::<Seq<char>, FeedError>(id),
{
    lemma_after_marker_of_concat(raw.author.uri.value@, prefix, CHANNEL_MARKER@, id);
}

/// With an empty channel id field and no `/channel/` in the author URI, the
/// channel id cannot be resolved.
pub proof fn lemma_channel_id_missing(raw: XmlFeed)
    requires
        raw.channel_id.value@.len() == 0,
        !contains(raw.author.uri.value@, CHANNEL_MARKER@),
    ensures
        channel_id_of(raw) == Err::<Seq<char>, FeedError>(FeedError::MissingIdentifier),
{
}

/// With an empty or absent playlist id field, a first self link whose href is
/// `prefix`, `playlist_id=` and a non-empty `id` (no `playlist_id=` starting
/// inside `prefix`) gives the playlist id `id`.
pub proof fn lemma_playlist_id_from_self_link(
    raw: XmlFeed,
    i: int,
    prefix: Seq<char>,
    id: Seq<char>,
)
    requires
        raw.playlist_id is None || raw.playlist_id->0.value@.len() == 0,
        is_first_self(raw.link@, i),
        raw.link@[i].href@ == prefix + PLAYLIST_MARKER@ + id,
        id.len() > 0,
        forall|j: int|
            0 <= j < prefix.len() ==> !occurs_at(raw.link@[i].href@, PLAYLIST_MARKER@, j),
    ensures
        playlist_id_of(raw) == Ok::<Seq<char>, FeedError>(id),
{
    lemma_first_self_link(raw.link@, i);
    lemma_after_marker_of_concat(raw.link@[i].href@, prefix, PLAYLIST_MARKER@, id);
}

/// A resolved channel or playlist id is never empty.
pub proof fn lemma_resolved_ids_non_empty(raw: XmlFeed)
    ensures
        channel_id_of(raw) is Ok ==> channel_id_of(raw)->Ok_0.len() > 0,
        playlist_id_of(raw) is Ok ==> playlist_id_of(raw)->Ok_0.len() > 0,
{
}

/// The non-empty remainder of `s` after the first `marker`.
pub fn text_id_after(s: &str, marker: &str) -> (r: Option<String>)
    ensures
        r is Some <==> id_after(s@, marker@) is Some,
        r is Some ==> id_after(s@, marker@) == Some(r->0@),
{
    match text_after(s, marker) {
        Some(rest) => if rest.as_str().is_empty() {
            None
        } else {
            Some(rest)
        },
        None => None,
    }
}

/// Position of the first link that points at the feed itself.
pub fn find_self_link(links: &Vec<Link>) -> (r: Option<usize>)
    ensures
        match r {
            Some(i) => is_first_self(links@, i as int),
            None => forall|i: int| 0 <= i < links@.len() ==> !is_self(#[trigger] links@[i]),
        },
{
    let mut i: usize = 0;
    while i < links.len()
        invariant
            i <= links.len(),
            forall|j: int| 0 <= j < i ==> !is_self(#[trigger] links@[j]),
        decreases links.len() - i,
    {
        if same_text(links[i].rel.as_str(), SELF_REL) {
            return Some(i);
        }
        i = i + 1;
    }
    None
}

/// The canonical channel id of a decoded feed.
pub fn resolve_channel_id(raw: &XmlFeed) -> (r: Result<String, FeedError>)
    ensures
        text_result(r) == channel_id_of(*raw),
        raw.channel_id.value@.len() > 0 ==> r == Ok::<String, FeedError>(raw.channel_id.value),
{
    if !raw.channel_id.value.as_str().is_empty() {
        return Ok(raw.channel_id.value.clone());
    }
    match text_id_after(raw.author.uri.value.as_str(), CHANNEL_MARKER) {
        Some(id) => Ok(id),
        None => Err(FeedError::MissingIdentifier),
    }
}

/// The canonical playlist id of a decoded playlist feed.
pub fn resolve_playlist_id(raw: &XmlFeed) -> (r: Result<String, FeedError>)
    ensures
        text_result(r) == playlist_id_of(*raw),
{
    if let Some(declared) = &raw.playlist_id {
        if !declared.value.as_str().is_empty() {
            return Ok(declared.value.clone());
        }
    }
    match find_self_link(&raw.link) {
        None => Err(FeedError::MissingSelfLink),
        Some(i) => {
            proof {
                lemma_first_self_link(raw.link@, i as int);
            }
            match text_id_after(raw.link[i].href.as_str(), PLAYLIST_MARKER) {
                Some(id) => Ok(id),
                None => Err(FeedError::MalformedSelfLink),
            }
        },
    }
}

} // verus!
