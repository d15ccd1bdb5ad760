use hn_rs::api_url::get_item_url;
use hn_rs::api_url::get_stories_url;
use hn_rs::api_url::get_user_url;
use hn_rs::api_url::StoryType;

#[test]
fn api_url_test_get_stories_url() {
    assert_eq!(get_stories_url(StoryType::Top), "topstories");
    assert_eq!(get_stories_url(StoryType::New), "newstories");
    assert_eq!(get_stories_url(StoryType::Show), "showstories");
    assert_eq!(get_stories_url(StoryType::Best), "beststories");
    assert_eq!(get_stories_url(StoryType::Jobs), "jobstories");
}

#[test]
fn api_url_test_get_item_url() {
    let item_id = 12345;
    assert_eq!(get_item_url(item_id), format!("item/{}", item_id));
}

#[test]
fn test_get_user_url() {
    let username = "testuser";
    assert_eq!(get_user_url(username), format!("user/{}", username));
}

#[test]
fn test_topic_labels() {
    assert_eq!(StoryType::Top.to_string(), "Top Stories");
    assert_eq!(StoryType::Jobs.to_string(), "Job Stories");
}

#[test]
fn consts_test_get_stories_url() {
    let base = "https://hacker-news.firebaseio.com/v0/";
    assert_eq!(
        hn_rs::consts::get_stories_url(hn_rs::consts::StoryType::Top),
        format!("{}{}", base, "topstories.json")
    );
    assert_eq!(
        hn_rs::consts::get_stories_url(hn_rs::consts::StoryType::New),
        format!("{}{}", base, "newstories.json")
    );
    assert_eq!(
        hn_rs::consts::get_stories_url(hn_rs::consts::StoryType::Show),
        format!("{}{}", base, "showstories.json")
    );
    assert_eq!(
        hn_rs::consts::get_stories_url(hn_rs::consts::StoryType::Best),
        format!("{}{}", base, "beststories.json")
    );
    assert_eq!(
        hn_rs::consts::get_stories_url(hn_rs::consts::StoryType::Jobs),
        format!("{}{}", base, "jobstories.json")
    );
}

#[test]
fn consts_test_get_item_url() {
    let item_id = 12345;
    assert_eq!(
        hn_rs::consts::get_item_url(item_id),
        format!("https://hacker-news.firebaseio.com/v0/item/{}.json", item_id)
    );
}

#[test]
fn test_decimal_rendering() {
    assert_eq!(hn_rs::text::usize_to_string(0), "0");
    assert_eq!(hn_rs::text::usize_to_string(7), "7");
    assert_eq!(hn_rs::text::usize_to_string(12345), "12345");
    assert_eq!(
        hn_rs::text::usize_to_string(usize::MAX),
        format!("{}", usize::MAX)
    );
}

#[test]
fn test_string_helpers() {
    assert!(hn_rs::text::str_eq("abc", "abc"));
    assert!(!hn_rs::text::str_eq("abc", "abd"));
    assert!(!hn_rs::text::str_eq("abc", "ab"));
    assert!(hn_rs::text::str_starts_with("item/42", "item/"));
    assert!(!hn_rs::text::str_starts_with("it", "item/"));
    assert!(hn_rs::text::str_contains("topstories", "stories"));
    assert!(hn_rs::text::str_contains("stories", "stories"));
    assert!(!hn_rs::text::str_contains("storie", "stories"));
    assert!(hn_rs::text::str_contains("xstoriesy", "stories"));
}

#[test]
fn test_wrapped_height() {
    // "ab" at width 1: 2 / 1 + 1 = 3 rows; "cd" likewise; total 6.
    assert_eq!(hn_rs::text::wrapped_height("ab\ncd", 1), 6);
    // one line of 10 bytes at width 80: one row.
    assert_eq!(hn_rs::text::wrapped_height("aaaaaaaaaa", 80), 1);
    // a trailing newline ends the line without starting a new one.
    assert_eq!(hn_rs::text::wrapped_height("abc\n", 80), 1);
    // an empty middle line still takes a row.
    assert_eq!(hn_rs::text::wrapped_height("a\n\nb", 80), 3);
    assert_eq!(hn_rs::text::wrapped_height("", 80), 0);
}
