//! The failures that a crawl or a search reports to its caller.

use vstd::prelude::*;
use vstd::string::StringExecFns;
use crate::text::{decimal, decimal_text};

verus! {

/// Why a call gave no result.
#[derive(Debug, Clone, Copy, PartialEq, Eq, Structural)]
pub enum CrawlError {
    /// The engine could not be constructed or reached.
    EngineUnavailable,
    /// The page answered with a status outside the success classes.
    Navigation { status: u16 },
    /// No link was found on any attempt.
    ExtractionEmpty,
}

impl CrawlError {
    /// The text under which this failure is reported.
    pub open spec fn spec_message(self) -> Seq<char> {
        match self {
            CrawlError::EngineUnavailable => "Browser engine unavailable"@,
            CrawlError::Navigation { status } => "HTTP error: "@ + decimal(status as nat),
            CrawlError::ExtractionEmpty => "No links extracted after 3 attempts"@,
        }
    }

    /// The text under which this failure is reported.
    pub fn message(&self) -> (text: String)
        ensures
            text@ == self.spec_message(),
    {
        match self {
            CrawlError::EngineUnavailable => String::from_str("Browser engine unavailable"),
            CrawlError::Navigation { status } => {
                let mut text = String::from_str("HTTP error: ");
                let code = decimal_text(*status as u64);
                text.append(code.as_str());
                text
            },
            CrawlError::ExtractionEmpty => String::from_str("No links extracted after 3 attempts"),
        }
    }
}

/// Whether a page load counts as failed: it produced a response whose status
/// is neither in the 2xx nor in the 3xx class. A load without a response is
/// not rejected.
pub open spec fn rejects(status: Option<u16>) -> bool {
    match status {
        Some(code) => !(200 <= code < 400),
        None => false,
    }
}

/// Whether a page load counts as failed.
pub fn is_rejected(status: Option<u16>) -> (bad: bool)
    ensures
        bad == rejects(status),
{
    match status {
        Some(code) => !(200 <= code && code < 400),
        None => false,
    }
}

} // verus!
