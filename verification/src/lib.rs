pub mod api;
pub mod arith;
pub mod bencode;
pub mod client;
pub mod clock;
pub mod config;
pub mod entropy;
pub mod events;
pub mod faker;
pub mod grid;
pub mod laws;
pub mod persist;
pub mod protocol;
pub mod registry;
pub mod stats;
pub mod strutil;
pub mod torrent;

pub use api::{ApiError, ApiSuccess, AuthStatusResponse, BrowseEntry, BrowseQuery, BrowseResponse};
pub use api::{CreateInstanceResponse, DeleteInstanceQuery, EmptyData, GridIdsRequest};
pub use api::{GridActionError, GridActionResponse, GridImportResponse, GridImportedInstance};
pub use api::{GridTagRequest, LoadTorrentResponse, NetworkStatus, ReloadAllResponse, SetTagsRequest};
pub use client::{ClientConfig, ClientInfo, ClientType, HttpVersion};
pub use clock::{now_secs, now_timestamp};
pub use config::{FakerConfig, PresetSettings, MAX_RATE_KBS};
pub use events::{InstanceEvent, LogEvent};
pub use faker::{FakerError, RatioFaker, UpdateActions};
pub use grid::{GridImportSettings, GridMode, InstanceSummary};
pub use persist::{InstanceSource, PersistedInstance, PersistedState};
pub use protocol::{AnnounceRequest, AnnounceResponse, CompactPeer, ScrapeResponse};
pub use protocol::{TrackerError, TrackerEvent};
pub use registry::{FakerInstance, GridActionOutcome, InstanceInfo, Registry};
pub use stats::{FakerState, FakerStats, IdlingReason};
pub use torrent::TorrentInfo;

use vstd::prelude::*;

verus! {

/// Compare two byte slices for equality without early exit on mismatch,
/// so that the running time does not depend on where the inputs differ.
pub fn constant_time_eq(a: &[u8], b: &[u8]) -> (r: bool)
    ensures
        r == (a@ == b@),
{
    if a.len() != b.len() {
        proof {
            assert(a@.len() != b@.len());
        }
        return false;
    }
    let mut acc: u8 = 0;
    let mut i: usize = 0;
    while i < a.len()
        invariant
            a@.len() == b@.len(),
            i <= a@.len(),
            acc == 0 <==> (forall|j: int| 0 <= j < i ==> a@[j] == b@[j]),
        decreases a@.len() - i,
    {
        let x = a[i];
        let y = b[i];
        let ghost before = acc;
        acc = acc | (x ^ y);
        proof {
            assert((before | (x ^ y)) == 0 <==> (before == 0 && x == y)) by (bit_vector);
        }
        i += 1;
    }
    proof {
        if acc == 0 {
            assert(a@ =~= b@);
        }
    }
    acc == 0
}

/// A torrent identifier rendered as forty lowercase hexadecimal
/// characters.
pub fn hex_info_hash(hash: &[u8; 20]) -> (r: String)
    ensures
        r@ == crate::strutil::hex_lower(hash@),
{
    crate::strutil::hex_lower_string(hash)
}

} // verus!
