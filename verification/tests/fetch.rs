use feed2imap::fetch::{fetch_failure, parsed};
use feed2imap::model::Feed;

fn feed() -> Feed {
    Feed {
        id: "urn:feed:example".to_string(),
        title: Some("Example Feed".to_string()),
        authors: vec![],
        links: vec![],
        entries: vec![],
    }
}

#[test]
fn a_parsed_feed_is_handed_on() {
    assert_eq!(parsed("https://example.org/feed", Ok(feed())), Ok(feed()));
}

#[test]
fn a_document_that_is_no_feed_is_named() {
    let refused = feed_rs::parser::parse(&b"this is no feed"[..]).unwrap_err();
    assert_eq!(
        parsed("https://example.org/feed", Err(refused)),
        Err("could not parse https://example.org/feed".to_string())
    );
    let empty = feed_rs::parser::parse(&b""[..]).unwrap_err();
    assert_eq!(parsed("u", Err(empty)), Err("could not parse u".to_string()));
}

#[test]
fn a_failed_request_is_named() {
    assert_eq!(fetch_failure("https://example.org/feed"), "could not fetch https://example.org/feed");
    assert_eq!(fetch_failure(""), "could not fetch ");
}
