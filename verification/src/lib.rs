//! An automatic torrent acquisition agent, as a verified core.
//!
//! The crate holds the rules of the agent: how announcements are decoded and
//! matched against per-feed rules, which announcements a feed worker hands to
//! the torrent client, and which torrents the reconciler pauses. Network and
//! file access belong to the program around this library, which feeds it the
//! outcome of each outside operation.

use vstd::prelude::*;

pub mod monitor;
pub mod qbit_data;
pub mod rss;
pub mod text;
pub mod yaml;

verus! {

/// The failures that the library itself reports.
#[derive(Debug, Clone, Copy, PartialEq, Eq)]
pub enum Error {
    /// A feed document lacks its channel or its item list, or an item lacks
    /// a download address.
    SerdeMissing,
    /// No candidate location held a configuration.
    ConfigMissing,
}

} // verus!
