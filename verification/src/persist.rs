use vstd::prelude::*;

use crate::config::FakerConfig;
use crate::stats::FakerState;
use crate::torrent::TorrentInfo;

verus! {

/// How an instance came to exist.
#[derive(Debug, Clone, Copy, PartialEq, Eq, Structural)]
pub enum InstanceSource {
    Manual,
    WatchFolder,
}

/// One instance as a snapshot records it: enough to rebuild the entry
/// with its lifetime totals as the next run's starting point.
pub struct PersistedInstance {
    pub id: String,
    pub torrent: TorrentInfo,
    pub config: FakerConfig,
    pub cumulative_uploaded: u64,
    pub cumulative_downloaded: u64,
    pub state: FakerState,
    pub created_at: u64,
    pub updated_at: u64,
    pub source: InstanceSource,
    pub tags: Vec<String>,
}

/// A whole snapshot: every instance, the stock configuration if one was
/// chosen, and a format version.
pub struct PersistedState {
    pub instances: Vec<PersistedInstance>,
    pub default_config: Option<FakerConfig>,
    pub version: u32,
}

impl PersistedState {
    /// An empty snapshot at the current format version.
    pub fn new() -> (r: PersistedState)
        ensures
            r.instances@.len() == 0,
            r.default_config is None,
            r.version == 1,
    {
        PersistedState { instances: Vec::new(), default_config: None, version: 1 }
    }
}

} // verus!
