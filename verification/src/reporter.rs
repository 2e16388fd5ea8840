//! The lines of the plain reporter: one for each thing that a feed's task
//! reports.

use crate::digest::{hex_digit, spec_hex_digit};
use crate::sync::{outcome_view, SyncError, SyncErrorView};
use vstd::prelude::*;
use vstd::string::StringExecFns;

verus! {

/// A number in decimal, without leading zeros.
pub open spec fn spec_decimal(n: nat) -> Seq<char>
    decreases n,
{
    if n < 10 {
        seq![spec_hex_digit(n as u8)]
    } else {
        spec_decimal(n / 10).push(spec_hex_digit((n % 10) as u8))
    }
}

/// Writes a number in decimal.
pub fn decimal(n: u64) -> (text: String)
    ensures
        text@ == spec_decimal(n as nat),
    decreases n,
{
    if n < 10 {
        String::from_str(hex_digit(n as u8))
    } else {
        let mut text = decimal(n / 10);
        text.append(hex_digit((n % 10) as u8));
        text
    }
}

/// A reporter that writes a line for each report.
#[derive(Clone, Debug)]
pub struct SimpleReporter {}

/// What a failure is reported as.
pub open spec fn spec_failure_text(e: SyncErrorView) -> Seq<char> {
    match e {
        SyncErrorView::Fetch(reason) => reason,
        SyncErrorView::Transform(crate::transform::TransformError::NoContent) => "no content"@,
        SyncErrorView::Transform(crate::transform::TransformError::InvalidBaseUrl) =>
            "the base URL of the entry is not absolute"@,
        SyncErrorView::Transform(crate::transform::TransformError::Rewrite) =>
            "the body of the entry could not be rewritten"@,
        SyncErrorView::Append(reason) => reason,
    }
}

impl SimpleReporter {
    /// The line for a task that has begun.
    pub fn on_begin(&self, feed: &str) -> (line: String)
        ensures
            line@ == "tfetching: "@ + feed@,
    {
        String::from_str("tfetching: ").concat(feed)
    }

    /// The line for a feed that was fetched.
    pub fn on_entries_count(&self, feed: &str, title: &str, count: u64) -> (line: String)
        ensures
            line@ == "fetched: "@ + feed@ + " ("@ + title@ + ") has "@ + spec_decimal(count as nat)
                + " entries"@,
    {
        let mut line = String::from_str("fetched: ");
        line.append(feed);
        line.append(" (");
        line.append(title);
        line.append(") has ");
        line.append(decimal(count).as_str());
        line.append(" entries");
        line
    }

    /// The line for an entry that was dealt with.
    pub fn on_entry(&self, feed: &str) -> (line: String)
        ensures
            line@ == "processed: "@ + feed@ + " one more !"@,
    {
        String::from_str("processed: ").concat(feed).concat(" one more !")
    }

    /// The line for a task that has ended.
    pub fn on_end(&self, feed: &str, result: &Result<(), SyncError>) -> (line: String)
        ensures
            line@ == match outcome_view(*result) {
                Ok(()) => "synced: "@ + feed@,
                Err(e) => "ERROR: "@ + feed@ + ": "@ + spec_failure_text(e),
            },
    {
        match result {
            Ok(()) => String::from_str("synced: ").concat(feed),
            Err(e) => {
                String::from_str("ERROR: ").concat(feed).concat(": ").concat(e.message().as_str())
            },
        }
    }
}

} // verus!
