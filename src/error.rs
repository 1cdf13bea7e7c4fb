//! Why building a feed view failed.

use vstd::prelude::*;

verus! {

/// The stage at which building a feed view failed.
#[derive(Debug, Clone, PartialEq)]
pub enum FeedError {
    /// The document at `url` could not be retrieved.
    FetchFailed { url: String, reason: String },
    /// The document at `url` did not have the shape of a feed; `body` is what
    /// was retrieved.
    DecodeFailed { url: String, body: String, reason: String },
    /// The channel id field is empty and the author URI holds no
    /// `/channel/<id>` to fall back on.
    MissingIdentifier,
    /// The playlist id field is empty or absent and no link has `rel="self"`.
    MissingSelfLink,
    /// The self link holds no `playlist_id=<id>`.
    MalformedSelfLink,
    /// A playlist view was asked of a feed that carries no playlist id.
    MissingPlaylistId,
}

} // verus!
