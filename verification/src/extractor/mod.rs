//! Reduction of a page to its main content by a cascade of tiers.

pub mod cascade;
pub mod dom;
pub mod frameworks;
pub mod names;

pub use cascade::extract_content;
