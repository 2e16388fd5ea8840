//! What a feed's task is told of its feed once the outside world has fetched
//! and parsed the document.

use crate::model::Feed;
use feed_rs::parser::ParseFeedError;
use vstd::prelude::*;
use vstd::string::StringExecFns;

verus! {

/// How the failure of a request for a feed begins; the URL follows.
pub const FETCH_FAILURE: &'static str = "could not fetch ";

/// How the failure to parse a feed begins; the URL follows.
pub const PARSE_FAILURE: &'static str = "could not parse ";

/// `feed_rs::parser::ParseFeedError`: why a document is no feed. Nothing is
/// read out of it.
#[verifier::external_type_specification]
#[verifier::external_body]
pub struct ExParseFeedError(ParseFeedError);

/// Why the feed at `url` could not be had: the request for it failed.
pub fn fetch_failure(url: &str) -> (reason: String)
    ensures
        reason@ == FETCH_FAILURE@ + url@,
{
    String::from_str(FETCH_FAILURE).concat(url)
}

/// What a task is told of the feed at `url` once its document has been
/// parsed: the feed, or that it could not be parsed.
pub fn parsed(url: &str, document: Result<Feed, ParseFeedError>) -> (res: Result<Feed, String>)
    ensures
        match document {
            Ok(feed) => res == Ok::<Feed, String>(feed),
            Err(_) => res matches Err(reason) && reason@ == PARSE_FAILURE@ + url@,
        },
{
    match document {
        Ok(feed) => Ok(feed),
        Err(_) => Err(String::from_str(PARSE_FAILURE).concat(url)),
    }
}

} // verus!
