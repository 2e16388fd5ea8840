//! What a run is configured with: the mailbox account, the recipient and
//! the feeds.

use crate::sync::Input;
use vstd::prelude::*;
use vstd::string::StringExecFns;

verus! {

/// How the refusal of a feed that is configured already ends; the URL comes
/// first.
pub const ALREADY_CONFIGURED: &'static str = " already in config";

/// The mailbox account and the recipient of the messages.
#[derive(Debug, Clone, PartialEq, Eq)]
pub struct Imap {
    pub host: String,
    pub port: u16,
    pub username: String,
    pub password: String,
    pub name: String,
    pub email: String,
    pub default_folder: String,
}

/// A configured feed.
#[derive(Debug, Clone, PartialEq, Eq)]
pub struct Feed {
    pub url: String,
}

/// The whole configuration.
#[derive(Debug, Clone, PartialEq, Eq)]
pub struct Config {
    pub imap: Imap,
    pub feeds: Vec<Feed>,
}

/// Why a feed was not added to the configuration.
#[derive(Debug, Clone, PartialEq, Eq)]
pub enum ConfigError {
    /// A feed with this URL is configured already.
    AlreadyConfigured(String),
}

impl ConfigError {
    /// The error in words.
    pub fn message(&self) -> (text: String)
        ensures
            text@ == match *self {
                ConfigError::AlreadyConfigured(url) => url@ + ALREADY_CONFIGURED@,
            },
    {
        match self {
            ConfigError::AlreadyConfigured(url) => url.clone().concat(ALREADY_CONFIGURED),
        }
    }
}

impl Default for Imap {
    fn default() -> (imap: Imap)
        ensures
            imap.host@.len() == 0,
            imap.port == 0,
            imap.username@.len() == 0,
            imap.password@.len() == 0,
            imap.name@.len() == 0,
            imap.email@.len() == 0,
            imap.default_folder@.len() == 0,
    {
        Imap {
            host: String::new(),
            port: 0,
            username: String::new(),
            password: String::new(),
            name: String::new(),
            email: String::new(),
            default_folder: String::new(),
        }
    }
}

impl Default for Config {
    fn default() -> (config: Config)
        ensures
            config.imap.host@.len() == 0,
            config.imap.port == 0,
            config.imap.username@.len() == 0,
            config.imap.password@.len() == 0,
            config.imap.name@.len() == 0,
            config.imap.email@.len() == 0,
            config.imap.default_folder@.len() == 0,
            config.feeds@.len() == 0,
    {
        Config { imap: Imap::default(), feeds: Vec::new() }
    }
}

impl Input for Feed {
    fn url(&self) -> (url: &str)
        ensures
            url@ == self.url@,
    {
        self.url.as_str()
    }
}

/// The URLs of a list of feeds.
pub open spec fn urls(feeds: Seq<Feed>) -> Seq<Seq<char>> {
    Seq::new(feeds.len(), |i: int| feeds[i].url@)
}

impl Config {
    /// Whether a feed with this URL is configured.
    pub fn has_feed(&self, url: &str) -> (found: bool)
        ensures
            found == urls(self.feeds@).contains(url@),
    {
        let needle = String::from_str(url);
        let mut i: usize = 0;
        while i < self.feeds.len()
            invariant
                i <= self.feeds.len(),
                needle@ == url@,
                forall|j: int| 0 <= j < i ==> urls(self.feeds@)[j] != url@,
            decreases self.feeds.len() - i,
        {
            if self.feeds[i].url == needle {
                assert(urls(self.feeds@)[i as int] == url@);
                return true;
            }
            i += 1;
        }
        false
    }

    /// Adds a feed at the end of the list. A URL that is configured already
    /// is refused, and the configuration stays as it was.
    pub fn add_feed(&mut self, url: &str) -> (res: Result<(), ConfigError>)
        ensures
            final(self).imap == old(self).imap,
            match res {
                Ok(()) => !urls(old(self).feeds@).contains(url@) && urls(final(self).feeds@)
                    == urls(old(self).feeds@).push(url@),
                Err(ConfigError::AlreadyConfigured(refused)) => urls(old(self).feeds@).contains(
                    url@,
                ) && refused@ == url@ && final(self).feeds == old(self).feeds,
            },
    {
        if self.has_feed(url) {
            Err(ConfigError::AlreadyConfigured(String::from_str(url)))
        } else {
            self.feeds.push(Feed { url: String::from_str(url) });
            assert(urls(self.feeds@) =~= urls(old(self).feeds@).push(url@));
            Ok(())
        }
    }
}

} // verus!
