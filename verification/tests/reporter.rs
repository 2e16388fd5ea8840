use feed2imap::reporter::{decimal, SimpleReporter};
use feed2imap::sync::SyncError;
use feed2imap::transform::TransformError;

#[test]
fn decimal_writes_numbers() {
    assert_eq!(decimal(0), "0");
    assert_eq!(decimal(7), "7");
    assert_eq!(decimal(10), "10");
    assert_eq!(decimal(1905), "1905");
    assert_eq!(decimal(u64::MAX), "18446744073709551615");
}

#[test]
fn simple_reporter_lines() {
    let r = SimpleReporter {};
    assert_eq!(r.on_begin("https://e.org/f"), "tfetching: https://e.org/f");
    assert_eq!(
        r.on_entries_count("https://e.org/f", "Title", 12),
        "fetched: https://e.org/f (Title) has 12 entries"
    );
    assert_eq!(r.on_entry("https://e.org/f"), "processed: https://e.org/f one more !");
    assert_eq!(r.on_end("https://e.org/f", &Ok(())), "synced: https://e.org/f");
}

#[test]
fn simple_reporter_names_the_failure() {
    let r = SimpleReporter {};
    assert_eq!(
        r.on_end("u", &Err(SyncError::Fetch("could not fetch u".to_string()))),
        "ERROR: u: could not fetch u"
    );
    assert_eq!(
        r.on_end("u", &Err(SyncError::Transform(TransformError::NoContent))),
        "ERROR: u: no content"
    );
    assert_eq!(
        r.on_end("u", &Err(SyncError::Append("mailbox is full".to_string()))),
        "ERROR: u: mailbox is full"
    );
}

#[test]
fn failures_in_words() {
    assert_eq!(SyncError::Fetch("x".to_string()).message(), "x");
    assert_eq!(SyncError::Append("y".to_string()).message(), "y");
    assert_eq!(
        SyncError::Transform(TransformError::InvalidBaseUrl).message(),
        "the base URL of the entry is not absolute"
    );
    assert_eq!(
        SyncError::Transform(TransformError::Rewrite).message(),
        "the body of the entry could not be rewritten"
    );
    let e = SyncError::Append("y".to_string());
    assert_eq!(e.duplicate(), e);
}
