use feed2imap::imap::{list_message_ids, MessageIds};

#[test]
fn message_ids_start_empty() {
    let ids = MessageIds::new();
    assert_eq!(ids.len(), 0);
    assert!(!ids.contains("a"));
    assert!(!ids.contains(""));
}

#[test]
fn message_ids_hold_each_identity_once() {
    let mut ids = MessageIds::new();
    assert!(ids.insert("a".to_string()));
    assert!(ids.insert("b".to_string()));
    assert!(!ids.insert("a".to_string()));
    assert_eq!(ids.len(), 2);
    assert!(ids.contains("a"));
    assert!(ids.contains("b"));
    assert!(!ids.contains("c"));
    assert!(!ids.contains("A"));
}

#[test]
fn listing_reads_the_message_id_of_each_block() {
    let headers = vec![
        b"Message-ID: <one@example.org>\r\n\r\n".to_vec(),
        b"Subject: hi\r\nMESSAGE-ID: <two>\r\n\r\n".to_vec(),
    ];
    let ids = list_message_ids(&headers);
    assert_eq!(ids.len(), 2);
    assert!(ids.contains("one@example.org"));
    assert!(ids.contains("two"));
    assert!(!ids.contains("<two>"));
}

#[test]
fn listing_passes_over_blocks_without_an_identity() {
    let headers = vec![
        b"Subject: no identity here\r\n\r\n".to_vec(),
        Vec::new(),
        b"\xff\xfe garbage".to_vec(),
        b"Message-ID: <kept>\r\n\r\n".to_vec(),
    ];
    let ids = list_message_ids(&headers);
    assert_eq!(ids.len(), 1);
    assert!(ids.contains("kept"));
}

#[test]
fn listing_holds_a_repeated_identity_once() {
    let headers = vec![
        b"Message-ID: <same>\r\n\r\n".to_vec(),
        b"Message-ID: <same>\r\n\r\n".to_vec(),
    ];
    let ids = list_message_ids(&headers);
    assert_eq!(ids.len(), 1);
    assert!(ids.contains("same"));
}

#[test]
fn listing_of_no_messages_is_empty() {
    assert_eq!(list_message_ids(&Vec::new()).len(), 0);
}
