use vstd::prelude::*;

verus! {

/// What the engine knows of one torrent: its display name, its size, its
/// twenty-byte identifier, and the tracker it announces to.
#[derive(Debug, Clone)]
pub struct TorrentInfo {
    pub name: String,
    pub total_size: u64,
    pub info_hash: [u8; 20],
    pub tracker_url: String,
}

impl TorrentInfo {
    /// A field-for-field copy.
    pub fn snapshot(&self) -> (r: TorrentInfo)
        ensures
            r.name@ == self.name@,
            r.total_size == self.total_size,
            r.info_hash == self.info_hash,
            r.tracker_url@ == self.tracker_url@,
    {
        TorrentInfo {
            name: self.name.clone(),
            total_size: self.total_size,
            info_hash: self.info_hash,
            tracker_url: self.tracker_url.clone(),
        }
    }

    /// The announce endpoint of this torrent's tracker.
    pub fn get_tracker_url(&self) -> (r: &String)
        ensures
            r@ == self.tracker_url@,
    {
        &self.tracker_url
    }
}

} // verus!
