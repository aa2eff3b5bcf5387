//! Records that the torrent client reports.

use vstd::prelude::*;

verus! {

/// One tracker of a torrent, as the client reports it.
#[derive(Debug)]
pub struct TrackerData {
    pub msg: String,
    pub num_peers: u32,
    pub status: String,
    pub url: String,
}

impl TrackerData {
    /// The tracker's address.
    pub fn url(&self) -> (url: &String)
        ensures
            *url == self.url,
    {
        &self.url
    }
}

} // verus!
