use feed2imap::imap::list_message_ids;
use feed2imap::model::{Entry, Feed, Link, Person};
use feed2imap::transform::html::rewrite_relative_link;
use feed2imap::transform::{
    extract_article_link, extract_atom_content, extract_authors, extract_body, extract_content,
    extract_email, extract_feed_title, extract_message, extract_message_at, extract_message_id,
    extract_published_date, extract_rss_summary, extract_title, wrap_content, TransformError,
};

fn feed(id: &str) -> Feed {
    Feed { id: id.to_string(), title: None, authors: vec![], links: vec![], entries: vec![] }
}

fn entry(id: &str) -> Entry {
    Entry {
        id: id.to_string(),
        title: None,
        content: None,
        summary: None,
        published: None,
        updated: None,
        links: vec![],
        authors: vec![],
        base: None,
    }
}

fn person(email: Option<&str>) -> Person {
    Person { email: email.map(|e| e.to_string()) }
}

fn link(href: &str, title: Option<&str>) -> Link {
    Link { href: href.to_string(), title: title.map(|t| t.to_string()) }
}

#[test]
fn title_of_an_entry_or_unknown() {
    let mut e = entry("1");
    assert_eq!(extract_title(&e), "Unknown");
    e.title = Some("Hello".to_string());
    assert_eq!(extract_title(&e), "Hello");
}

#[test]
fn title_of_a_feed_or_unknown() {
    let mut f = feed("f");
    assert_eq!(extract_feed_title(&f).unwrap(), "Unknown");
    f.title = Some("The Feed".to_string());
    assert_eq!(extract_feed_title(&f).unwrap(), "The Feed");
}

#[test]
fn first_author_with_an_email_is_taken() {
    assert_eq!(extract_authors(&vec![]), None);
    assert_eq!(extract_authors(&vec![person(None), person(None)]), None);
    assert_eq!(
        extract_authors(&vec![person(None), person(Some("b@x.org")), person(Some("c@x.org"))]),
        Some("b@x.org".to_string())
    );
}

#[test]
fn sender_is_the_entry_author_first() {
    let mut f = feed("f");
    f.authors = vec![person(Some("feed@example.org"))];
    f.links = vec![link("https://blog.example.net/", None)];
    let mut e = entry("1");
    e.authors = vec![person(None), person(Some("writer@example.org"))];
    assert_eq!(extract_email(&f, &e).unwrap(), "writer@example.org");
}

#[test]
fn sender_is_the_feed_author_next() {
    let mut f = feed("f");
    f.authors = vec![person(Some("feed@example.org"))];
    f.links = vec![link("https://blog.example.net/", None)];
    let mut e = entry("1");
    e.authors = vec![person(None)];
    assert_eq!(extract_email(&f, &e).unwrap(), "feed@example.org");
}

#[test]
fn sender_is_made_from_the_host_of_the_first_link() {
    let mut f = feed("f");
    f.links = vec![
        link("https://blog.example.net/posts?page=2", None),
        link("https://other.example.org/", None),
    ];
    assert_eq!(extract_email(&f, &entry("1")).unwrap(), "rss@blog.example.net");
}

#[test]
fn sender_of_a_link_without_a_host() {
    let mut f = feed("f");
    f.links = vec![link("not a url", None)];
    assert_eq!(extract_email(&f, &entry("1")).unwrap(), "placeholder@example.com");
    f.links = vec![link("mailto:someone@example.org", None)];
    assert_eq!(extract_email(&f, &entry("1")).unwrap(), "placeholder@example.com");
    f.links = vec![link("not a url", None), link("https://blog.example.net/", None)];
    assert_eq!(extract_email(&f, &entry("1")).unwrap(), "placeholder@example.com");
}

#[test]
fn sender_placeholder_without_authors_and_links() {
    assert_eq!(extract_email(&feed("f"), &entry("1")).unwrap(), "placeholder@example.com");
}

#[test]
fn body_is_the_content_before_the_summary() {
    let mut e = entry("1");
    e.content = Some("<p>full</p>".to_string());
    e.summary = Some("short".to_string());
    assert_eq!(extract_body(&e), Ok("<p>full</p>".to_string()));
}

#[test]
fn body_of_an_entry_with_only_a_summary() {
    let mut e = entry("1");
    e.summary = Some("short".to_string());
    assert_eq!(extract_body(&e), Ok("short".to_string()));
}

#[test]
fn summary_alone_is_read() {
    let mut e = entry("1");
    assert_eq!(extract_rss_summary(&e), Err(TransformError::NoContent));
    e.content = Some("<p>full</p>".to_string());
    assert_eq!(extract_rss_summary(&e), Err(TransformError::NoContent));
    e.summary = Some("short".to_string());
    assert_eq!(extract_rss_summary(&e), Ok("short".to_string()));
}

#[test]
fn content_alone_is_read() {
    let mut e = entry("1");
    e.summary = Some("short".to_string());
    assert_eq!(extract_atom_content(&e), Err(TransformError::NoContent));
    e.content = Some("<p>full</p>".to_string());
    assert_eq!(extract_atom_content(&e), Ok("<p>full</p>".to_string()));
}

#[test]
fn body_of_an_entry_with_neither_fails() {
    assert_eq!(extract_body(&entry("1")), Err(TransformError::NoContent));
    assert_eq!(extract_content(&entry("1")), Err(TransformError::NoContent));
    assert_eq!(TransformError::NoContent.message(), "no content");
}

#[test]
fn date_is_published_then_updated_then_now() {
    let mut e = entry("1");
    assert_eq!(extract_published_date(&e, 42), 42);
    e.updated = Some(1_700_000_500);
    assert_eq!(extract_published_date(&e, 42), 1_700_000_500);
    e.published = Some(1_700_000_000);
    assert_eq!(extract_published_date(&e, 42), 1_700_000_000);
}

#[test]
fn relative_image_source_is_resolved() {
    let out =
        rewrite_relative_link("https://example.com/a/", "<img src=\"b.png\">".to_string()).unwrap();
    assert_eq!(out, "<img src=\"https://example.com/a/b.png\">");
}

#[test]
fn absolute_image_source_is_unchanged() {
    let out = rewrite_relative_link(
        "https://example.com/a/",
        "<p><img src=\"https://cdn.example.org/x.png\" alt=\"x\"></p>".to_string(),
    ).unwrap();
    assert_eq!(out, "<p><img src=\"https://cdn.example.org/x.png\" alt=\"x\"></p>");
}

#[test]
fn absolute_image_source_is_kept_as_written() {
    let html = "<img src=\"HTTP://EXAMPLE.COM\"><img src=\"https://cdn.example.org/a/../x.png?a=1&amp;b=2\"><img src=\"data:image/png;base64,AAAA\">";
    let out = rewrite_relative_link("https://example.com/a/", html.to_string()).unwrap();
    assert_eq!(out, html);
}

#[test]
fn unresolvable_image_source_is_left_alone() {
    let html = "<img src=\"http://[::1\"><img src=\"c.png\">";
    let out = rewrite_relative_link("https://example.com/a/", html.to_string()).unwrap();
    assert_eq!(out, "<img src=\"http://[::1\"><img src=\"https://example.com/a/c.png\">");
}

#[test]
fn image_source_is_decoded_before_it_is_resolved() {
    let out = rewrite_relative_link(
        "https://example.com/a/index.html",
        "<img src=\"../b.png?x=1&amp;y=2\">".to_string(),
    ).unwrap();
    assert_eq!(out, "<img src=\"https://example.com/b.png?x=1&y=2\">");
}

#[test]
fn only_images_with_a_source_are_rewritten() {
    let html = "<a href=\"b.html\">b</a><img alt=\"none\"><script src=\"s.js\"></script>";
    let out = rewrite_relative_link("https://example.com/a/", html.to_string()).unwrap();
    assert_eq!(out, html);
}

#[test]
fn rewriting_needs_an_absolute_base() {
    assert_eq!(
        rewrite_relative_link("a/b", "<img src=\"b.png\">".to_string()),
        Err(TransformError::InvalidBaseUrl)
    );
    let mut e = entry("1");
    e.content = Some("<img src=\"b.png\">".to_string());
    e.base = Some("not absolute".to_string());
    assert_eq!(extract_content(&e), Err(TransformError::InvalidBaseUrl));
}

#[test]
fn markup_that_the_rewriter_gives_up_on_fails() {
    let html = "<select><xmp><script>\"use strict\";</script></select><img src=\"b.png\">";
    assert_eq!(
        rewrite_relative_link("https://example.com/a/", html.to_string()),
        Err(TransformError::Rewrite)
    );
    assert_eq!(
        TransformError::Rewrite.message(),
        "the body of the entry could not be rewritten"
    );
}

#[test]
fn article_link_is_the_first_link() {
    let mut e = entry("1");
    assert!(extract_article_link(&e).unwrap().is_none());
    e.links = vec![link("https://example.com/1", Some("One")), link("https://example.com/2", None)];
    let first = extract_article_link(&e).unwrap().unwrap();
    assert_eq!(first.href, "https://example.com/1");
    assert_eq!(first.title, Some("One".to_string()));
}

const PAGE_BEFORE_BODY: &str = "\n        <html>\n            <head>\n                <meta http-equiv=\"Content-Type\" content=\"text/html\">\n                <style>\n                    body { margin: 0 auto; max-width: 48em; padding: 1em; font-family: sans-serif; line-height: 1.5; }\n                    img { max-width: 100%; height: auto; }\n                    pre { overflow-x: auto; }\n                    #links { margin-top: 2em; border-top: 1px solid #ccc; font-size: 0.9em; }\n                </style>\n            </head>\n    \n            <body>\n                <div id=\"entry\">\n                    ";

fn page(body: &str, href: &str, title: &str) -> String {
    format!(
        "{}{}\n                </div>\n                <div id=links>\n                    <h4>Links</h4>\n                    <ul>\n                        <li><a href=\"{}\">{}</a></li>\n                    <ul>\n                </div>\n            </body>\n        </html>\n        ",
        PAGE_BEFORE_BODY, body, href, title
    )
}

#[test]
fn page_links_to_the_article_by_its_title() {
    let out = wrap_content(
        "<p>hi</p>".to_string(),
        Some(link("https://example.com/1", Some("The article"))),
    );
    assert_eq!(out, page("<p>hi</p>", "https://example.com/1", "The article"));
}

#[test]
fn page_links_to_the_article_by_its_address() {
    let out = wrap_content("<p>hi</p>".to_string(), Some(link("https://example.com/1", None)));
    assert_eq!(out, page("<p>hi</p>", "https://example.com/1", "https://example.com/1"));
}

#[test]
fn page_without_a_link_says_none() {
    let out = wrap_content("<p>hi</p>".to_string(), None);
    assert_eq!(out, page("<p>hi</p>", "none", "none"));
    assert!(out.contains("<style>"));
    assert!(out.contains("<h4>Links</h4>"));
}

#[test]
fn content_is_rewritten_and_wrapped() {
    let mut e = entry("1");
    e.summary = Some("<img src=\"b.png\">".to_string());
    e.base = Some("https://example.com/a/".to_string());
    e.links = vec![link("https://example.com/a/1", None)];
    assert_eq!(
        extract_content(&e).unwrap(),
        page(
            "<img src=\"https://example.com/a/b.png\">",
            "https://example.com/a/1",
            "https://example.com/a/1"
        )
    );
    e.base = None;
    assert_eq!(
        extract_content(&e).unwrap(),
        page("<img src=\"b.png\">", "https://example.com/a/1", "https://example.com/a/1")
    );
}

fn sample() -> (Feed, Entry) {
    let mut f = feed("https://example.com/feed");
    f.title = Some("Example Feed".to_string());
    f.links = vec![link("https://blog.example.net/", None)];
    let mut e = entry("urn:post:1");
    e.title = Some("First post".to_string());
    e.content = Some("<p>Hello, reader.</p>".to_string());
    e.published = Some(1_700_000_000);
    e.updated = Some(1_700_000_500);
    e.links = vec![link("https://blog.example.net/1", Some("First post"))];
    (f, e)
}

#[test]
fn message_carries_the_headers_of_the_entry() {
    let (f, e) = sample();
    let mail = extract_message_at("Reader", "reader@example.org", &f, &e, 5).unwrap();
    let parsed = mail_parser::MessageParser::default().parse(&mail[..]).unwrap();
    assert_eq!(parsed.message_id(), Some(extract_message_id(&f, &e).as_str()));
    let from = parsed.from().unwrap().first().unwrap();
    assert_eq!(from.name(), Some("Example Feed"));
    assert_eq!(from.address(), Some("rss@blog.example.net"));
    let to = parsed.to().unwrap().first().unwrap();
    assert_eq!(to.name(), Some("Reader"));
    assert_eq!(to.address(), Some("reader@example.org"));
    assert_eq!(parsed.subject(), Some("First post"));
    assert_eq!(parsed.date().unwrap().to_timestamp(), 1_700_000_000);
    let text = String::from_utf8(mail.clone()).unwrap();
    assert!(text.contains("Content-Type: text/html"));
    let body = parsed.body_html(0).unwrap();
    assert!(body.contains("<p>Hello, reader.</p>"));
    assert!(body.contains("<a href=\"https://blog.example.net/1\">First post</a>"));
}

#[test]
fn message_is_dated_by_the_update_or_the_given_time() {
    let (f, mut e) = sample();
    e.published = None;
    let mail = extract_message_at("Reader", "reader@example.org", &f, &e, 5).unwrap();
    let parsed = mail_parser::MessageParser::default().parse(&mail[..]).unwrap();
    assert_eq!(parsed.date().unwrap().to_timestamp(), 1_700_000_500);
    e.updated = None;
    let mail = extract_message_at("Reader", "reader@example.org", &f, &e, 86_400).unwrap();
    let parsed = mail_parser::MessageParser::default().parse(&mail[..]).unwrap();
    assert_eq!(parsed.date().unwrap().to_timestamp(), 86_400);
}

#[test]
fn message_is_the_same_for_the_same_entry_and_time() {
    let (f, e) = sample();
    let one = extract_message_at("Reader", "reader@example.org", &f, &e, 5).unwrap();
    let two = extract_message_at("Reader", "reader@example.org", &f, &e, 5).unwrap();
    assert_eq!(one, two);
    assert_eq!(extract_message("Reader", "reader@example.org", &f, &e).unwrap(), one);
}

#[test]
fn message_without_content_fails() {
    let (f, mut e) = sample();
    e.content = None;
    assert_eq!(
        extract_message_at("Reader", "reader@example.org", &f, &e, 5),
        Err(TransformError::NoContent)
    );
    assert_eq!(
        extract_message("Reader", "reader@example.org", &f, &e),
        Err(TransformError::NoContent)
    );
}

#[test]
fn message_is_found_again_by_its_identity() {
    let (f, e) = sample();
    let mail = extract_message_at("Reader", "reader@example.org", &f, &e, 5).unwrap();
    let ids = list_message_ids(&vec![mail]);
    assert!(ids.contains(&extract_message_id(&f, &e)));
    assert_eq!(ids.len(), 1);
}
