use yt_feed::text::{chars_of, find_first, same_text, text_after};

#[test]
fn chars_of_splits_into_characters() {
    assert_eq!(chars_of("a►b"), vec!['a', '►', 'b']);
    assert_eq!(chars_of(""), Vec::<char>::new());
}

#[test]
fn find_first_gives_leftmost_position() {
    let s = chars_of("xabcabc");
    assert_eq!(find_first(&s, &chars_of("abc")), Some(1));
    assert_eq!(find_first(&s, &chars_of("abd")), None);
    assert_eq!(find_first(&s, &chars_of("")), Some(0));
    assert_eq!(find_first(&chars_of("ab"), &chars_of("abc")), None);
}

#[test]
fn find_first_handles_overlap() {
    assert_eq!(find_first(&chars_of("aaab"), &chars_of("aab")), Some(1));
}

#[test]
fn same_text_compares_characters() {
    assert!(same_text("self", "self"));
    assert!(!same_text("self", "Self"));
    assert!(!same_text("self", "selfie"));
    assert!(same_text("", ""));
}

#[test]
fn text_after_takes_remainder_after_first_marker() {
    assert_eq!(text_after("a/channel/b", "/channel/"), Some("b".to_string()));
    assert_eq!(text_after("►/channel/é", "/channel/"), Some("é".to_string()));
    assert_eq!(text_after("x=1&x=2", "x="), Some("1&x=2".to_string()));
    assert_eq!(text_after("a/channel/", "/channel/"), Some(String::new()));
    assert_eq!(text_after("abc", "/channel/"), None);
}
