use botcast::feed::{feed_item, feed_of, rss_call, FeedChannel, FeedError, FeedItem};
use botcast::script::{ArgError, JsonValue};

const FEED: &str = r#"<?xml version="1.0" encoding="UTF-8"?>
<rss version="2.0">
  <channel>
    <title>Example</title>
    <link>https://example.com</link>
    <description>News</description>
    <item>
      <title>First</title>
      <link>https://example.com/1</link>
      <description>One</description>
      <pubDate>Wed, 18 Feb 2015 23:16:09 GMT</pubDate>
    </item>
    <item>
      <title>Second</title>
    </item>
  </channel>
</rss>"#;

fn item(date: Option<&str>) -> FeedItem {
    FeedItem {
        title: Some("t".to_string()),
        description: None,
        pub_date: date.map(String::from),
        link: Some("l".to_string()),
    }
}

#[test]
fn rss_call_reads_the_channel() {
    let feed = match rss_call(&vec![JsonValue::String(FEED.to_string())]) {
        Ok(f) => f,
        Err(_) => panic!("the feed was refused"),
    };
    assert_eq!(feed.title, "Example");
    assert_eq!(feed.description, "News");
    assert_eq!(feed.items.len(), 2);
    assert_eq!(feed.items[0].title, "First");
    assert_eq!(feed.items[0].link, "https://example.com/1");
    assert_eq!(feed.items[0].description, "One");
    assert_eq!(feed.items[0].pub_date, (1424301369, 0, 0));
    assert_eq!(feed.items[1].title, "Second");
    assert_eq!(feed.items[1].link, "");
    assert_eq!(feed.items[1].pub_date, (0, 0, 0));
}

#[test]
fn rss_call_refuses_other_text() {
    assert!(matches!(rss_call(&vec![JsonValue::String("not xml".to_string())]), Err(FeedError::Channel { .. })));
    assert!(matches!(rss_call(&vec![JsonValue::Null]), Err(FeedError::Argument(ArgError::ExpectedString))));
}

#[test]
fn feed_item_reads_the_offset() {
    let f = match feed_item(&item(Some("Tue, 1 Jul 2003 10:52:37 +0200"))) {
        Ok(f) => f,
        Err(_) => panic!("date refused"),
    };
    assert_eq!(f.pub_date, (1057049557, 0, 7200));
    assert_eq!(f.title, "t");
    assert_eq!(f.description, "");
}

#[test]
fn feed_item_refuses_a_bad_date() {
    assert!(matches!(feed_item(&item(Some("yesterday"))), Err(FeedError::Date { .. })));
}

#[test]
fn feed_of_stops_at_the_first_bad_date() {
    let channel = FeedChannel {
        title: "c".to_string(),
        description: "d".to_string(),
        items: vec![item(None), item(Some("bad")), item(None)],
    };
    assert!(matches!(feed_of(&channel), Err(FeedError::Date { .. })));
    let good = FeedChannel { title: "c".to_string(), description: "d".to_string(), items: vec![item(None)] };
    match feed_of(&good) {
        Ok(f) => assert_eq!(f.items.len(), 1),
        Err(_) => panic!("refused"),
    }
}
