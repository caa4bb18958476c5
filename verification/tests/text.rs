use backend::http::Pair;
use backend::text::{owned_or_empty, strip_suffix, text_eq, text_join};

#[test]
fn equal_texts_are_equal() {
    assert!(text_eq("", ""));
    assert!(text_eq("PushEvent", "PushEvent"));
    assert!(text_eq("caff\u{e8} \u{1f3b5}", "caff\u{e8} \u{1f3b5}"));
}

#[test]
fn different_texts_differ() {
    assert!(!text_eq("PushEvent", "PushEvents"));
    assert!(!text_eq("PushEvent", "pushEvent"));
    assert!(!text_eq("", " "));
    assert!(!text_eq("e\u{301}", "\u{e9}"));
    assert!(!text_eq("ab", "ba"));
}

#[test]
fn suffix_is_removed_once() {
    assert_eq!(strip_suffix("WatchEvent", "Event"), "Watch");
    assert_eq!(strip_suffix("EventEvent", "Event"), "Event");
    assert_eq!(strip_suffix("Event", "Event"), "");
}

#[test]
fn text_without_the_suffix_stays() {
    assert_eq!(strip_suffix("Watch", "Event"), "Watch");
    assert_eq!(strip_suffix("vent", "Event"), "vent");
    assert_eq!(strip_suffix("", "Event"), "");
    assert_eq!(strip_suffix("WatchEvenT", "Event"), "WatchEvenT");
    assert_eq!(strip_suffix("EventWatch", "Event"), "EventWatch");
}

#[test]
fn empty_suffix_removes_nothing() {
    assert_eq!(strip_suffix("Watch", ""), "Watch");
    assert_eq!(strip_suffix("", ""), "");
}

#[test]
fn suffix_is_counted_in_characters() {
    assert_eq!(strip_suffix("caff\u{e8}Event", "Event"), "caff\u{e8}");
    assert_eq!(strip_suffix("\u{1f3b5}\u{1f3b6}", "\u{1f3b6}"), "\u{1f3b5}");
    assert_eq!(strip_suffix("a\u{e8}", "\u{e9}"), "a\u{e8}");
}

#[test]
fn join_appends() {
    assert_eq!(text_join("Bearer ", "abc"), "Bearer abc");
    assert_eq!(text_join("", ""), "");
    assert_eq!(text_join("a", ""), "a");
    assert_eq!(text_join("", "b"), "b");
}

#[test]
fn missing_text_is_empty() {
    assert_eq!(owned_or_empty(&None), "");
    assert_eq!(owned_or_empty(&Some("x".to_string())), "x");
}

#[test]
fn pair_holds_name_and_value() {
    assert_eq!(
        Pair::new("User-Agent", "x"),
        Pair { name: "User-Agent".to_string(), value: "x".to_string() }
    );
}
