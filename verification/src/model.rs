//! The parsed feed as the rest of the library reads it, and its
//! mathematical view.

use vstd::prelude::*;

verus! {

/// An author of a feed or of an entry.
#[derive(Debug, Clone, PartialEq, Eq)]
pub struct Person {
    pub email: Option<String>,
}

/// A link of a feed or of an entry.
#[derive(Debug, Clone, PartialEq, Eq)]
pub struct Link {
    pub href: String,
    pub title: Option<String>,
}

/// One item of a feed. Timestamps are seconds since the Unix epoch.
#[derive(Debug, Clone, PartialEq, Eq)]
pub struct Entry {
    pub id: String,
    pub title: Option<String>,
    /// The body of the full content, where the entry has one.
    pub content: Option<String>,
    pub summary: Option<String>,
    pub published: Option<i64>,
    pub updated: Option<i64>,
    pub links: Vec<Link>,
    pub authors: Vec<Person>,
    /// The URL against which relative links of the entry are resolved.
    pub base: Option<String>,
}

/// A subscription with its entries in the order the source gave them.
#[derive(Debug, Clone, PartialEq, Eq)]
pub struct Feed {
    pub id: String,
    pub title: Option<String>,
    pub authors: Vec<Person>,
    pub links: Vec<Link>,
    pub entries: Vec<Entry>,
}

pub ghost struct PersonView {
    pub email: Option<Seq<char>>,
}

pub ghost struct LinkView {
    pub href: Seq<char>,
    pub title: Option<Seq<char>>,
}

pub ghost struct EntryView {
    pub id: Seq<char>,
    pub title: Option<Seq<char>>,
    pub content: Option<Seq<char>>,
    pub summary: Option<Seq<char>>,
    pub published: Option<i64>,
    pub updated: Option<i64>,
    pub links: Seq<LinkView>,
    pub authors: Seq<PersonView>,
    pub base: Option<Seq<char>>,
}

pub ghost struct FeedView {
    pub id: Seq<char>,
    pub title: Option<Seq<char>>,
    pub authors: Seq<PersonView>,
    pub links: Seq<LinkView>,
    pub entries: Seq<EntryView>,
}

/// The characters of an optional string.
pub open spec fn text_of(value: Option<String>) -> Option<Seq<char>> {
    match value {
        Some(s) => Some(s@),
        None => None,
    }
}

impl View for Person {
    type V = PersonView;

    open spec fn view(&self) -> PersonView {
        PersonView { email: text_of(self.email) }
    }
}

impl View for Link {
    type V = LinkView;

    open spec fn view(&self) -> LinkView {
        LinkView { href: self.href@, title: text_of(self.title) }
    }
}

pub open spec fn persons_view(persons: Seq<Person>) -> Seq<PersonView> {
    Seq::new(persons.len(), |i: int| persons[i]@)
}

pub open spec fn links_view(links: Seq<Link>) -> Seq<LinkView> {
    Seq::new(links.len(), |i: int| links[i]@)
}

impl View for Entry {
    type V = EntryView;

    open spec fn view(&self) -> EntryView {
        EntryView {
            id: self.id@,
            title: text_of(self.title),
            content: text_of(self.content),
            summary: text_of(self.summary),
            published: self.published,
            updated: self.updated,
            links: links_view(self.links@),
            authors: persons_view(self.authors@),
            base: text_of(self.base),
        }
    }
}

pub open spec fn entries_view(entries: Seq<Entry>) -> Seq<EntryView> {
    Seq::new(entries.len(), |i: int| entries[i]@)
}

impl View for Feed {
    type V = FeedView;

    open spec fn view(&self) -> FeedView {
        FeedView {
            id: self.id@,
            title: text_of(self.title),
            authors: persons_view(self.authors@),
            links: links_view(self.links@),
            entries: entries_view(self.entries@),
        }
    }
}

} // verus!
