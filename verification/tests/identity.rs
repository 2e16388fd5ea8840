use feed2imap::digest::to_lower_hex;
use feed2imap::model::{Entry, Feed};
use feed2imap::transform::extract_message_id;

fn feed(id: &str) -> Feed {
    Feed { id: id.to_string(), title: None, authors: vec![], links: vec![], entries: vec![] }
}

fn entry(id: &str) -> Entry {
    Entry {
        id: id.to_string(),
        title: None,
        content: None,
        summary: None,
        published: None,
        updated: None,
        links: vec![],
        authors: vec![],
        base: None,
    }
}

#[test]
fn lower_hex_writes_two_digits_per_byte() {
    assert_eq!(to_lower_hex(&[0x00, 0x0f, 0xa5, 0xff]), "000fa5ff");
    assert_eq!(to_lower_hex(&[0x12, 0x34, 0x56, 0x78, 0x9a, 0xbc, 0xde, 0xf0]), "123456789abcdef0");
    assert_eq!(to_lower_hex(&[]), "");
}

#[test]
fn lower_hex_agrees_with_the_digest_crate() {
    for input in ["", "a", "feed and entry", "\u{e9}\u{e8}"] {
        let hash = blake3::hash(input.as_bytes());
        assert_eq!(to_lower_hex(hash.as_bytes()), hash.to_hex().to_string());
        assert_eq!(to_lower_hex(hash.as_bytes()), format!("{}", hash));
    }
}

#[test]
fn identity_of_empty_ids_is_the_digest_of_nothing() {
    assert_eq!(
        extract_message_id(&feed(""), &entry("")),
        "af1349b9f5f9a1a6a0404dea36dcc9499bcb25c9adc112b7cc9a93cae41f3262"
    );
}

#[test]
fn identity_is_the_digest_of_feed_id_then_entry_id() {
    let id = extract_message_id(&feed("a"), &entry("bc"));
    assert_eq!(id, "6437b3ac38465133ffb63b75273a8db548c558465d79db03fd359c6cd5bd9d85");
    assert_eq!(id, blake3::hash(b"abc").to_hex().to_string());
    let other = extract_message_id(&feed("https://example.com/feed"), &entry("urn:post:1"));
    assert_eq!(other, blake3::hash(b"https://example.com/feedurn:post:1").to_hex().to_string());
    assert_ne!(other, blake3::hash(b"urn:post:1https://example.com/feed").to_hex().to_string());
}

#[test]
fn identity_has_sixty_four_hexadecimal_digits() {
    let id = extract_message_id(&feed("f"), &entry("e"));
    assert_eq!(id.len(), 64);
    assert!(id.chars().all(|c| c.is_ascii_digit() || ('a'..='f').contains(&c)));
}

#[test]
fn identity_is_the_same_on_every_call() {
    let f = feed("https://example.com/feed");
    let e = entry("urn:post:1");
    assert_eq!(extract_message_id(&f, &e), extract_message_id(&f, &e));
}

#[test]
fn identity_ignores_everything_but_the_ids() {
    let f = feed("https://example.com/feed");
    let plain = entry("urn:post:1");
    let mut edited = entry("urn:post:1");
    edited.title = Some("A new title".to_string());
    edited.content = Some("<p>rewritten</p>".to_string());
    edited.summary = Some("short".to_string());
    edited.published = Some(1_700_000_000);
    edited.updated = Some(1_700_000_500);
    edited.base = Some("https://example.com/".to_string());
    let mut renamed = feed("https://example.com/feed");
    renamed.title = Some("Renamed".to_string());
    assert_eq!(extract_message_id(&f, &plain), extract_message_id(&f, &edited));
    assert_eq!(extract_message_id(&f, &plain), extract_message_id(&renamed, &edited));
}

#[test]
fn identities_of_a_corpus_do_not_collide() {
    let mut seen = std::collections::BTreeSet::new();
    for f in 0..20 {
        for e in 0..50 {
            let id = extract_message_id(
                &feed(&format!("https://example.com/feed/{}", f)),
                &entry(&format!("urn:entry:{}", e)),
            );
            assert!(seen.insert(id));
        }
    }
    assert_eq!(seen.len(), 1000);
}

#[test]
fn identity_joins_the_ids_without_a_separator() {
    assert_eq!(
        extract_message_id(&feed("ab"), &entry("c")),
        extract_message_id(&feed("a"), &entry("bc"))
    );
    assert_ne!(
        extract_message_id(&feed("a"), &entry("b")),
        extract_message_id(&feed("b"), &entry("a"))
    );
}
