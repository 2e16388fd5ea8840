//! From a feed entry to a message: identity, sender, body and the composed
//! mail.

use crate::digest::{
    blake3_of_pair, lemma_lower_hex_injective, spec_blake3, spec_lower_hex, to_lower_hex,
};
use crate::location::{spec_url_host, url_host};
use crate::model::{Entry, EntryView, Feed, FeedView, Link, LinkView, Person, PersonView};
use crate::model::{persons_view, text_of};
use mail_builder::headers::address::Address;
use mail_builder::mime::MimePart;
use mail_builder::MessageBuilder;
use vstd::prelude::*;
use vstd::string::StringExecFns;
use vstd::utf8::encode_utf8;

pub mod html;

verus! {

/// Why an entry could not be turned into a message.
#[derive(Debug, Clone, Copy, PartialEq, Eq, Structural)]
pub enum TransformError {
    /// The entry has neither a content body nor a summary.
    NoContent,
    /// The base URL of the entry is no absolute URL.
    InvalidBaseUrl,
    /// The body of the entry could not be rewritten.
    Rewrite,
}

impl TransformError {
    /// The error in words.
    pub fn message(&self) -> (text: String)
        ensures
            text@ == match *self {
                TransformError::NoContent => "no content"@,
                TransformError::InvalidBaseUrl => "the base URL of the entry is not absolute"@,
                TransformError::Rewrite => "the body of the entry could not be rewritten"@,
            },
    {
        match self {
            TransformError::NoContent => String::from_str("no content"),
            TransformError::InvalidBaseUrl => String::from_str(
                "the base URL of the entry is not absolute",
            ),
            TransformError::Rewrite => String::from_str(
                "the body of the entry could not be rewritten",
            ),
        }
    }
}

/// The title of an entry or a feed that has none.
pub const UNKNOWN_TITLE: &'static str = "Unknown";

/// The sender where neither an author nor the first link of the feed gives
/// one.
pub const PLACEHOLDER_EMAIL: &'static str = "placeholder@example.com";

/// The local part and the at sign of a sender made from a link of the feed.
pub const LINK_SENDER_PREFIX: &'static str = "rss@";

/// The address of the article where the entry has no link.
pub const NO_LINK: &'static str = "none";

/// The media type of the body of a message.
pub const BODY_TYPE: &'static str = "text/html";

/// The identity of an entry: the lower-case hexadecimal BLAKE3 digest of the
/// feed's id followed by the entry's id, both in UTF-8.
pub open spec fn spec_identity(feed_id: Seq<char>, entry_id: Seq<char>) -> Seq<char> {
    spec_lower_hex(spec_blake3(encode_utf8(feed_id) + encode_utf8(entry_id)))
}

/// Derives the identity of an entry. It depends on the ids of the feed and
/// of the entry and on nothing else, and has 64 characters.
pub fn extract_message_id(feed: &Feed, entry: &Entry) -> (id: String)
    ensures
        id@ == spec_identity(feed@.id, entry@.id),
        id@.len() == 64,
{
    let digest = blake3_of_pair(feed.id.as_str().as_bytes(), entry.id.as_str().as_bytes());
    to_lower_hex(digest.as_slice())
}

/// Entries with the ids of one feed and one entry have one identity, whatever
/// else they hold.
pub proof fn lemma_identity_ignores_content(
    feed_a: FeedView,
    entry_a: EntryView,
    feed_b: FeedView,
    entry_b: EntryView,
)
    requires
        feed_a.id == feed_b.id,
        entry_a.id == entry_b.id,
    ensures
        spec_identity(feed_a.id, entry_a.id) == spec_identity(feed_b.id, entry_b.id),
{
}

/// Two identities are equal only where the digests behind them are: the
/// hexadecimal form loses nothing. Ids that give one digest give one
/// identity; so do ids that are different but give the same bytes when
/// joined.
pub proof fn lemma_identity_tells_digests_apart(
    feed_a: Seq<char>,
    entry_a: Seq<char>,
    feed_b: Seq<char>,
    entry_b: Seq<char>,
)
    requires
        spec_identity(feed_a, entry_a) == spec_identity(feed_b, entry_b),
    ensures
        spec_blake3(encode_utf8(feed_a) + encode_utf8(entry_a)) == spec_blake3(
            encode_utf8(feed_b) + encode_utf8(entry_b),
        ),
{
    lemma_lower_hex_injective(
        spec_blake3(encode_utf8(feed_a) + encode_utf8(entry_a)),
        spec_blake3(encode_utf8(feed_b) + encode_utf8(entry_b)),
    );
}

/// The title of a feed, or the placeholder.
pub open spec fn spec_feed_title(feed: FeedView) -> Seq<char> {
    match feed.title {
        Some(title) => title,
        None => UNKNOWN_TITLE@,
    }
}

/// The title of a feed, or `Unknown` where it has none. Never fails.
pub fn extract_feed_title(full_feed: &Feed) -> (res: Result<String, TransformError>)
    ensures
        res matches Ok(title) && title@ == spec_feed_title(full_feed@),
{
    match &full_feed.title {
        Some(title) => Ok(title.clone()),
        None => Ok(String::from_str(UNKNOWN_TITLE)),
    }
}

/// The title of an entry, or the placeholder.
pub open spec fn spec_title(entry: EntryView) -> Seq<char> {
    match entry.title {
        Some(title) => title,
        None => UNKNOWN_TITLE@,
    }
}

/// The title of an entry, or `Unknown` where it has none.
pub fn extract_title(entry: &Entry) -> (title: String)
    ensures
        title@ == spec_title(entry@),
{
    match &entry.title {
        Some(title) => title.clone(),
        None => String::from_str(UNKNOWN_TITLE),
    }
}

/// The email of the first author, from `from` on, that has one.
pub open spec fn spec_first_email_from(authors: Seq<PersonView>, from: int) -> Option<Seq<char>>
    decreases authors.len() - from,
{
    if from < 0 || from >= authors.len() {
        None
    } else {
        match authors[from].email {
            Some(email) => Some(email),
            None => spec_first_email_from(authors, from + 1),
        }
    }
}

/// The email of the first author that has one.
pub open spec fn spec_first_email(authors: Seq<PersonView>) -> Option<Seq<char>> {
    spec_first_email_from(authors, 0)
}

/// The email of the first of the authors that has one.
pub fn extract_authors(authors: &Vec<Person>) -> (email: Option<String>)
    ensures
        text_of(email) == spec_first_email(persons_view(authors@)),
{
    let mut i: usize = 0;
    while i < authors.len()
        invariant
            i <= authors.len(),
            spec_first_email(persons_view(authors@)) == spec_first_email_from(
                persons_view(authors@),
                i as int,
            ),
        decreases authors.len() - i,
    {
        match &authors[i].email {
            Some(email) => {
                return Some(email.clone());
            },
            None => {},
        }
        i += 1;
    }
    None
}

/// The sender of the message for an entry: the email of the first author of
/// the entry that has one, else that of the first author of the feed that has
/// one, else `rss@` and the host of the feed's first link, else the
/// placeholder address. The last stands in where the feed has no link and
/// where its first link is no URL with a host.
pub open spec fn spec_email(feed: FeedView, entry: EntryView) -> Seq<char> {
    match spec_first_email(entry.authors) {
        Some(email) => email,
        None => match spec_first_email(feed.authors) {
            Some(email) => email,
            None => if feed.links.len() > 0 {
                match spec_url_host(feed.links[0].href) {
                    Some(host) => LINK_SENDER_PREFIX@ + host,
                    None => PLACEHOLDER_EMAIL@,
                }
            } else {
                PLACEHOLDER_EMAIL@
            },
        },
    }
}

/// The sender address of the message for an entry. Never fails.
pub fn extract_email(feed: &Feed, entry: &Entry) -> (res: Result<String, TransformError>)
    ensures
        res matches Ok(email) && email@ == spec_email(feed@, entry@),
{
    if let Some(email) = extract_authors(&entry.authors) {
        return Ok(email);
    }
    if let Some(email) = extract_authors(&feed.authors) {
        return Ok(email);
    }
    if feed.links.len() > 0 {
        match url_host(feed.links[0].href.as_str()) {
            Some(host) => Ok(String::from_str(LINK_SENDER_PREFIX).concat(host.as_str())),
            None => Ok(String::from_str(PLACEHOLDER_EMAIL)),
        }
    } else {
        Ok(String::from_str(PLACEHOLDER_EMAIL))
    }
}

/// The body of the full content of an entry, or `NoContent` where it has
/// none.
pub fn extract_atom_content(entry: &Entry) -> (res: Result<String, TransformError>)
    ensures
        match res {
            Ok(body) => entry@.content == Some(body@),
            Err(e) => e == TransformError::NoContent && entry@.content is None,
        },
{
    match &entry.content {
        Some(content) => Ok(content.clone()),
        None => Err(TransformError::NoContent),
    }
}

/// The summary of an entry, or `NoContent` where it has none.
pub fn extract_rss_summary(entry: &Entry) -> (res: Result<String, TransformError>)
    ensures
        match res {
            Ok(summary) => entry@.summary == Some(summary@),
            Err(e) => e == TransformError::NoContent && entry@.summary is None,
        },
{
    match &entry.summary {
        Some(summary) => Ok(summary.clone()),
        None => Err(TransformError::NoContent),
    }
}

/// The body of an entry: its content, else its summary.
pub open spec fn spec_body(entry: EntryView) -> Option<Seq<char>> {
    match entry.content {
        Some(content) => Some(content),
        None => entry.summary,
    }
}

/// The body of an entry: its full content where it has one, else its
/// summary. Fails with `NoContent` where it has neither.
pub fn extract_body(entry: &Entry) -> (res: Result<String, TransformError>)
    ensures
        match res {
            Ok(body) => spec_body(entry@) == Some(body@),
            Err(e) => e == TransformError::NoContent && spec_body(entry@) is None,
        },
{
    match extract_atom_content(entry) {
        Ok(content) => Ok(content),
        Err(_) => extract_rss_summary(entry),
    }
}

/// The date of the message for an entry: when it was published, else when it
/// was updated, else `now`.
pub open spec fn spec_published_date(entry: EntryView, now: i64) -> i64 {
    match entry.published {
        Some(published) => published,
        None => match entry.updated {
            Some(updated) => updated,
            None => now,
        },
    }
}

/// The date of the message for an entry, in seconds since the Unix epoch.
pub fn extract_published_date(entry: &Entry, now: i64) -> (date: i64)
    ensures
        date == spec_published_date(entry@, now),
{
    match entry.published {
        Some(published) => published,
        None => match entry.updated {
            Some(updated) => updated,
            None => now,
        },
    }
}

/// A link, where there is one, by its view.
pub open spec fn link_of(link: Option<Link>) -> Option<LinkView> {
    match link {
        Some(l) => Some(l@),
        None => None,
    }
}

/// The link to the article of an entry: its first link.
pub open spec fn spec_article_link(entry: EntryView) -> Option<LinkView> {
    if entry.links.len() > 0 {
        Some(entry.links[0])
    } else {
        None
    }
}

/// The link to the article of an entry: a copy of its first link, `None`
/// where it has none. Never fails.
pub fn extract_article_link(entry: &Entry) -> (res: Result<Option<Link>, TransformError>)
    ensures
        res matches Ok(link) && link_of(link) == spec_article_link(entry@),
{
    if entry.links.len() > 0 {
        let first = &entry.links[0];
        let title = match &first.title {
            Some(title) => Some(title.clone()),
            None => None,
        };
        Ok(Some(Link { href: first.href.clone(), title }))
    } else {
        Ok(None)
    }
}

/// The page up to the style sheet.
pub const PAGE_HEAD: &'static str =
    "\n        <html>\n            <head>\n                <meta http-equiv=\"Content-Type\" content=\"text/html\">\n                <style>\n                    ";

/// The style sheet of every message.
pub const PAGE_STYLE: &'static str =
    "body { margin: 0 auto; max-width: 48em; padding: 1em; font-family: sans-serif; line-height: 1.5; }\n                    img { max-width: 100%; height: auto; }\n                    pre { overflow-x: auto; }\n                    #links { margin-top: 2em; border-top: 1px solid #ccc; font-size: 0.9em; }";

/// The page between the style sheet and the body of the entry.
pub const PAGE_ENTRY: &'static str =
    "\n                </style>\n            </head>\n    \n            <body>\n                <div id=\"entry\">\n                    ";

/// The page between the body of the entry and the address of the article.
pub const PAGE_LINKS: &'static str =
    "\n                </div>\n                <div id=links>\n                    <h4>Links</h4>\n                    <ul>\n                        <li><a href=\"";

/// The page between the address of the article and its title.
pub const PAGE_LINK_TITLE: &'static str = "\">";

/// The page after the title of the article.
pub const PAGE_TAIL: &'static str =
    "</a></li>\n                    <ul>\n                </div>\n            </body>\n        </html>\n        ";

/// The address that the links section points at: that of the link, or `none`
/// where there is no link.
pub open spec fn spec_link_href(article_link: Option<LinkView>) -> Seq<char> {
    match article_link {
        Some(link) => link.href,
        None => NO_LINK@,
    }
}

/// The text of the one item of the links section: the title of the link, or
/// the address where there is no link or it has no title.
pub open spec fn spec_link_title(article_link: Option<LinkView>) -> Seq<char> {
    match article_link {
        Some(link) => match link.title {
            Some(title) => title,
            None => link.href,
        },
        None => NO_LINK@,
    }
}

/// The page of a message: the style sheet, the body of the entry, and a
/// links section with one item, which points at the article.
pub open spec fn spec_wrap_content(content: Seq<char>, article_link: Option<LinkView>) -> Seq<
    char,
> {
    PAGE_HEAD@ + PAGE_STYLE@ + PAGE_ENTRY@ + content + PAGE_LINKS@ + spec_link_href(article_link)
        + PAGE_LINK_TITLE@ + spec_link_title(article_link) + PAGE_TAIL@
}

/// Wraps the body of an entry in the page of a message.
pub fn wrap_content(content: String, article_link: Option<Link>) -> (page: String)
    ensures
        page@ == spec_wrap_content(content@, link_of(article_link)),
{
    let mut page = String::from_str(PAGE_HEAD);
    page.append(PAGE_STYLE);
    page.append(PAGE_ENTRY);
    page.append(content.as_str());
    page.append(PAGE_LINKS);
    match &article_link {
        Some(link) => {
            page.append(link.href.as_str());
            page.append(PAGE_LINK_TITLE);
            match &link.title {
                Some(title) => page.append(title.as_str()),
                None => page.append(link.href.as_str()),
            }
        },
        None => {
            page.append(NO_LINK);
            page.append(PAGE_LINK_TITLE);
            page.append(NO_LINK);
        },
    }
    page.append(PAGE_TAIL);
    page
}

/// The body of an entry after its images have been made absolute: the body
/// itself where the entry has no base URL.
pub open spec fn spec_absolute_body(entry: EntryView, body: Seq<char>) -> Result<
    Seq<char>,
    TransformError,
> {
    match entry.base {
        Some(base) => html::spec_rewrite_relative_link(base, body),
        None => Ok(body),
    }
}

/// The page of the message for an entry, or the reason why there is none.
pub open spec fn spec_content(entry: EntryView) -> Result<Seq<char>, TransformError> {
    match spec_body(entry) {
        None => Err(TransformError::NoContent),
        Some(body) => match spec_absolute_body(entry, body) {
            Ok(absolute) => Ok(spec_wrap_content(absolute, spec_article_link(entry))),
            Err(e) => Err(e),
        },
    }
}

/// The page of the message for an entry: its body, with the sources of its
/// images resolved against the base URL where the entry has one, wrapped in
/// the page. Fails where the entry has no body, where its base URL is not
/// absolute, and where the body cannot be rewritten.
pub fn extract_content(entry: &Entry) -> (res: Result<String, TransformError>)
    ensures
        match res {
            Ok(page) => spec_content(entry@) == Ok::<Seq<char>, TransformError>(page@),
            Err(e) => spec_content(entry@) == Err::<Seq<char>, TransformError>(e),
        },
{
    let mut content = match extract_body(entry) {
        Ok(body) => body,
        Err(e) => {
            return Err(e);
        },
    };
    if let Some(base_url) = &entry.base {
        content = match html::rewrite_relative_link(base_url.as_str(), content) {
            Ok(absolute) => absolute,
            Err(e) => {
                return Err(e);
            },
        };
    }
    match extract_article_link(entry) {
        Ok(link) => Ok(wrap_content(content, link)),
        Err(e) => Err(e),
    }
}

/// The bytes of the mail with these headers and this one body part.
pub uninterp spec fn spec_mime_message(
    message_id: Seq<char>,
    from_name: Seq<char>,
    from_email: Seq<char>,
    to_name: Seq<char>,
    to_email: Seq<char>,
    date: i64,
    subject: Seq<char>,
    body_type: Seq<char>,
    body: Seq<char>,
) -> Seq<u8>;

/// Builds a mail with `mail_builder::MessageBuilder` and writes it out with
/// `write_to_vec`. All headers that the builder would make up are given, and
/// the body is one text part, so the bytes depend on the arguments alone.
/// Writing to memory does not fail: an error would give no bytes.
#[verifier::external_body]
fn build_message(
    message_id: &str,
    from_name: &str,
    from_email: &str,
    to_name: &str,
    to_email: &str,
    date: i64,
    subject: &str,
    body_type: &str,
    body: &str,
) -> (bytes: Vec<u8>)
    ensures
        bytes@ == spec_mime_message(
            message_id@,
            from_name@,
            from_email@,
            to_name@,
            to_email@,
            date,
            subject@,
            body_type@,
            body@,
        ),
{
    MessageBuilder::new()
        .message_id(message_id)
        .from(Address::new_address(Some(from_name), from_email))
        .to(Address::new_address(Some(to_name), to_email))
        .date(date)
        .subject(subject)
        .body(MimePart::new(body_type, body))
        .write_to_vec()
        .unwrap_or_default()
}

/// The seconds since the Unix epoch on the clock of the machine, from
/// `chrono::Utc::now`.
#[verifier::external_body]
pub(crate) fn unix_now() -> i64 {
    chrono::Utc::now().timestamp()
}

/// The mail for an entry at the time `now`, or the reason why there is none.
/// Its Message-ID is the identity of the entry, it is from the feed's title
/// at the sender address, to the recipient, dated as the entry is, and its
/// subject is the title of the entry.
pub open spec fn spec_message(
    name: Seq<char>,
    email: Seq<char>,
    feed: FeedView,
    entry: EntryView,
    now: i64,
) -> Result<Seq<u8>, TransformError> {
    match spec_content(entry) {
        Ok(page) => Ok(
            spec_mime_message(
                spec_identity(feed.id, entry.id),
                spec_feed_title(feed),
                spec_email(feed, entry),
                name,
                email,
                spec_published_date(entry, now),
                spec_title(entry),
                BODY_TYPE@,
                page,
            ),
        ),
        Err(e) => Err(e),
    }
}

/// Composes the mail for an entry, to `name` at `email`, with `now` as the
/// date where the entry has none.
pub fn extract_message_at(name: &str, email: &str, full_feed: &Feed, entry: &Entry, now: i64) -> (res:
    Result<Vec<u8>, TransformError>)
    ensures
        match res {
            Ok(mail) => spec_message(name@, email@, full_feed@, entry@, now) == Ok::<
                Seq<u8>,
                TransformError,
            >(mail@),
            Err(e) => spec_message(name@, email@, full_feed@, entry@, now) == Err::<
                Seq<u8>,
                TransformError,
            >(e),
        },
{
    let message_id = extract_message_id(full_feed, entry);
    let from_name = match extract_feed_title(full_feed) {
        Ok(title) => title,
        Err(e) => {
            return Err(e);
        },
    };
    let from_email = match extract_email(full_feed, entry) {
        Ok(sender) => sender,
        Err(e) => {
            return Err(e);
        },
    };
    let date = extract_published_date(entry, now);
    let subject = extract_title(entry);
    let page = match extract_content(entry) {
        Ok(page) => page,
        Err(e) => {
            return Err(e);
        },
    };
    Ok(
        build_message(
            message_id.as_str(),
            from_name.as_str(),
            from_email.as_str(),
            name,
            email,
            date,
            subject.as_str(),
            BODY_TYPE,
            page.as_str(),
        ),
    )
}

/// Composes the mail for an entry, to `name` at `email`. An entry without a
/// date of its own is dated by the clock, so the mail is that of
/// `extract_message_at` for some time.
pub fn extract_message(name: &str, email: &str, full_feed: &Feed, entry: &Entry) -> (res: Result<
    Vec<u8>,
    TransformError,
>)
    ensures
        exists|now: i64|
            match res {
                Ok(mail) => #[trigger] spec_message(name@, email@, full_feed@, entry@, now) == Ok::<
                    Seq<u8>,
                    TransformError,
                >(mail@),
                Err(e) => spec_message(name@, email@, full_feed@, entry@, now) == Err::<
                    Seq<u8>,
                    TransformError,
                >(e),
            },
{
    let now = unix_now();
    extract_message_at(name, email, full_feed, entry, now)
}

} // verus!
