use yt_feed::{
    Author, Channel, Feed, FeedKind, Link, Playlist, Timestamp, User, XmlContentDateTime,
    XmlContentString, XmlFeed,
};

fn text(s: &str) -> XmlContentString {
    XmlContentString { value: s.to_string() }
}

fn document(id: &str, channel_id: &str, playlist_id: Option<&str>, title: &str, author_uri: &str, self_href: &str) -> XmlFeed {
    XmlFeed {
        link: vec![
            Link { rel: "self".to_string(), href: self_href.to_string() },
            Link { rel: "alternate".to_string(), href: author_uri.to_string() },
        ],
        id: text(id),
        channel_id: text(channel_id),
        playlist_id: playlist_id.map(text),
        title: text(title),
        author: Author { name: text(title), uri: text(author_uri) },
        published: XmlContentDateTime { value: Timestamp { secs: 1376451475, nanos: 0 } },
        videos: None,
    }
}

fn linus() -> XmlFeed {
    document(
        "yt:channel:UCXuqSBlHAE6Xw-yeJA0Tunw",
        "UCXuqSBlHAE6Xw-yeJA0Tunw",
        None,
        "Linus Tech Tips",
        "https://www.youtube.com/channel/UCXuqSBlHAE6Xw-yeJA0Tunw",
        &FeedKind::Channel.url("UCXuqSBlHAE6Xw-yeJA0Tunw"),
    )
}

fn cgpgrey() -> XmlFeed {
    document(
        "yt:channel:UC2C_jShtL725hvbm1arSV9w",
        "",
        None,
        "CGP Grey",
        "https://www.youtube.com/channel/UC2C_jShtL725hvbm1arSV9w",
        &FeedKind::User.url("cgpgrey"),
    )
}

#[test]
fn test_linus() {
    let linus = Channel::new(linus()).unwrap();
    assert_eq!(linus.id, "UCXuqSBlHAE6Xw-yeJA0Tunw");
    assert_eq!(linus.title, "Linus Tech Tips");
}

#[test]
#[should_panic]
fn test_linus_missing_playlist() {
    let linus = Feed::new(linus(), FeedKind::Channel).unwrap();
    let _panic = linus.playlist_id.unwrap();
}

#[test]
fn test_sinclair_lore_playlist() {
    let raw = document(
        "yt:playlist:PLOIA4n5j7KcYj52DQ9orEBJDA9IqBTB3I",
        "UCH6IMeS2HVdTJZU4BlN6ODg",
        Some(""),
        "Vampire the Masquerade ► Down Under by Night | Actual Play",
        "https://www.youtube.com/channel/UCH6IMeS2HVdTJZU4BlN6ODg",
        &FeedKind::Playlist.url("PLOIA4n5j7KcYj52DQ9orEBJDA9IqBTB3I"),
    );
    let sinclair_lore_va_masq = Playlist::new(raw).unwrap();
    assert_eq!(sinclair_lore_va_masq.id, "PLOIA4n5j7KcYj52DQ9orEBJDA9IqBTB3I");
    assert_eq!(sinclair_lore_va_masq.channel_id, "UCH6IMeS2HVdTJZU4BlN6ODg");
    assert_eq!(
        sinclair_lore_va_masq.title,
        "Vampire the Masquerade ► Down Under by Night | Actual Play"
    );
}

#[test]
fn test_cgpgrey_user() {
    let cgpgrey_user = User::new(cgpgrey()).unwrap();
    assert_eq!(cgpgrey_user.id, "UC2C_jShtL725hvbm1arSV9w");
    assert_eq!(cgpgrey_user.title, "CGP Grey");
}

#[test]
#[should_panic]
fn test_cgpgrey_user_missing_playlist() {
    let cgpgrey_user = Feed::new(cgpgrey(), FeedKind::User).unwrap();
    let _panic = cgpgrey_user.playlist_id.unwrap();
}
