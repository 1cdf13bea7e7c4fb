//! Normalization of published video feeds (channel, playlist and legacy user
//! feeds) into stable domain records.
//!
//! A caller fetches the document at `FeedKind::url`, decodes it into an
//! `XmlFeed`, and hands it to `Channel::new`, `Playlist::new` or `User::new`.

pub mod channel;
pub mod error;
pub mod feed;
pub mod playlist;
pub mod resolve;
pub mod text;
pub mod timestamp;
pub mod user;
pub mod video;
pub mod xml_feed;

pub use channel::Channel;
pub use error::FeedError;
pub use feed::{Feed, FeedKind};
pub use playlist::Playlist;
pub use timestamp::Timestamp;
pub use user::User;
pub use video::Video;
pub use xml_feed::{
    Author, Link, MediaCommunity, MediaContent, MediaGroup, MediaStarRating, MediaStatistics,
    MediaThumbnail, XmlContentDateTime, XmlContentString, XmlContentu32, XmlFeed, XmlVideo,
};
