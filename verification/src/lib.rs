//! Decision logic of a page crawler: readiness polling, paginated search with
//! bounded retries, link filtering and the tiered main-content extraction.
//!
//! The library never touches a browser. A crawl ([`crawl::Crawl`]) and a
//! search ([`search::Search`]) are state machines: each names the next
//! [`protocol::Action`], the driver performs it in the page and hands back a
//! [`protocol::Event`]. Every transition is specified over the mathematical
//! view of the state, and what holds of every run is proved beside it.
//!
//! Taken on trust are the answers of the HTML libraries behind
//! [`extractor::dom`] and the percent-encoding behind [`url`]; all else is
//! verified.

pub mod constants;
pub mod crawl;
pub mod engine;
pub mod error;
pub mod extractor;
pub mod links;
pub mod models;
pub mod poller;
pub mod protocol;
pub mod search;
pub mod text;
pub mod url;
