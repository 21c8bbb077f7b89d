use vstd::prelude::*;
use vstd::string::*;

verus! {

/// The lifecycle state of one emulated session.
#[derive(Debug, Clone, Copy, PartialEq, Eq, Structural)]
pub enum FakerState {
    Idle,
    Starting,
    Running,
    Stopping,
    Paused,
    Stopped,
}

/// Why a session is idling while staying announced.
#[derive(Debug, Clone, Copy, PartialEq, Eq, Structural)]
pub enum IdlingReason {
    NoLeechers,
    NoSeeders,
}

impl IdlingReason {
    /// The reason's wire label.
    pub fn label(&self) -> (r: String)
        ensures
            *self == IdlingReason::NoLeechers ==> r@ == "no_leechers"@,
            *self == IdlingReason::NoSeeders ==> r@ == "no_seeders"@,
    {
        match self {
            IdlingReason::NoLeechers => String::from_str("no_leechers"),
            IdlingReason::NoSeeders => String::from_str("no_seeders"),
        }
    }
}

/// How many samples a rolling history holds at most.
pub const HISTORY_LEN: usize = 60;

/// A rolling history after one more sample: the sample is appended, and
/// the oldest entry leaves once the history is full.
pub open spec fn push_capped(s: Seq<u64>, v: u64) -> Seq<u64> {
    if s.len() < HISTORY_LEN {
        s.push(v)
    } else {
        s.push(v).drop_first()
    }
}

/// Appends a sample to a rolling history, matching `push_capped`.
pub fn push_history(h: &mut Vec<u64>, v: u64)
    requires
        old(h)@.len() <= HISTORY_LEN,
    ensures
        final(h)@ == push_capped(old(h)@, v),
        final(h)@.len() <= HISTORY_LEN,
{
    h.push(v);
    if h.len() > HISTORY_LEN {
        h.remove(0);
        proof {
            assert(final(h)@ =~= old(h)@.push(v).drop_first());
        }
    }
}

/// The live statistics of one emulated session.  Amounts are bytes, rates
/// are kilobytes per second, shares and ratios are thousandths, instants
/// are milliseconds of the caller's clock.
#[derive(Debug, Clone)]
pub struct FakerStats {
    /// Lifetime uploaded bytes, across runs.
    pub uploaded: u64,
    /// Lifetime downloaded bytes, across runs.
    pub downloaded: u64,
    /// Lifetime ratio in thousandths: uploaded over torrent size.
    pub ratio_permille: u64,
    /// Bytes still to download of this torrent.
    pub left: u64,
    /// Share of the torrent held, in thousandths.
    pub torrent_completion_permille: u64,
    /// Seeders last reported by the tracker.
    pub seeders: i64,
    /// Leechers last reported by the tracker.
    pub leechers: i64,
    /// Lifecycle state.
    pub state: FakerState,
    /// Whether the session is idling for want of peers.
    pub is_idling: bool,
    /// Why it is idling, when it is.
    pub idling_reason: Option<IdlingReason>,
    /// Bytes uploaded in the current session.
    pub session_uploaded: u64,
    /// Bytes downloaded in the current session.
    pub session_downloaded: u64,
    /// Session ratio in thousandths: session upload over torrent size.
    pub session_ratio_permille: u64,
    /// Milliseconds since the session started.
    pub elapsed_ms: u64,
    /// Upload rate applied by the last tick.
    pub current_upload_rate: u64,
    /// Download rate applied by the last tick.
    pub current_download_rate: u64,
    /// Average session upload rate.
    pub average_upload_rate: u64,
    /// Average session download rate.
    pub average_download_rate: u64,
    /// Progress toward the session upload target, in thousandths.
    pub upload_progress_permille: u64,
    /// Progress toward the session download target, in thousandths.
    pub download_progress_permille: u64,
    /// Progress toward the session ratio target, in thousandths.
    pub ratio_progress_permille: u64,
    /// Progress toward the seed time target, in thousandths.
    pub seed_time_progress_permille: u64,
    /// Seconds until the ratio target at the average rate.
    pub eta_ratio_secs: Option<u64>,
    /// Seconds until the upload target at the average rate.
    pub eta_uploaded_secs: Option<u64>,
    /// Seconds until the seed time target.
    pub eta_seed_time_secs: Option<u64>,
    /// Seconds until the torrent is fully downloaded.
    pub eta_download_completion_secs: Option<u64>,
    /// Rolling upload rate samples.
    pub upload_rate_history: Vec<u64>,
    /// Rolling download rate samples.
    pub download_rate_history: Vec<u64>,
    /// Rolling lifetime ratio samples, in thousandths.
    pub ratio_history: Vec<u64>,
    /// Clock instants of the rolling samples.
    pub history_timestamps: Vec<u64>,
    /// When the last announce went out.
    pub last_announce_ms: Option<u64>,
    /// When the next announce is scheduled.
    pub next_announce_ms: Option<u64>,
    /// How many announces have been answered.
    pub announce_count: u32,
}

/// Whether two statistics records agree in every field.
pub open spec fn same_stats(a: FakerStats, b: FakerStats) -> bool {
    &&& a.uploaded == b.uploaded
    &&& a.downloaded == b.downloaded
    &&& a.ratio_permille == b.ratio_permille
    &&& a.left == b.left
    &&& a.torrent_completion_permille == b.torrent_completion_permille
    &&& a.seeders == b.seeders
    &&& a.leechers == b.leechers
    &&& a.state == b.state
    &&& a.is_idling == b.is_idling
    &&& a.idling_reason == b.idling_reason
    &&& a.session_uploaded == b.session_uploaded
    &&& a.session_downloaded == b.session_downloaded
    &&& a.session_ratio_permille == b.session_ratio_permille
    &&& a.elapsed_ms == b.elapsed_ms
    &&& a.current_upload_rate == b.current_upload_rate
    &&& a.current_download_rate == b.current_download_rate
    &&& a.average_upload_rate == b.average_upload_rate
    &&& a.average_download_rate == b.average_download_rate
    &&& a.upload_progress_permille == b.upload_progress_permille
    &&& a.download_progress_permille == b.download_progress_permille
    &&& a.ratio_progress_permille == b.ratio_progress_permille
    &&& a.seed_time_progress_permille == b.seed_time_progress_permille
    &&& a.eta_ratio_secs == b.eta_ratio_secs
    &&& a.eta_uploaded_secs == b.eta_uploaded_secs
    &&& a.eta_seed_time_secs == b.eta_seed_time_secs
    &&& a.eta_download_completion_secs == b.eta_download_completion_secs
    &&& a.upload_rate_history@ == b.upload_rate_history@
    &&& a.download_rate_history@ == b.download_rate_history@
    &&& a.ratio_history@ == b.ratio_history@
    &&& a.history_timestamps@ == b.history_timestamps@
    &&& a.last_announce_ms == b.last_announce_ms
    &&& a.next_announce_ms == b.next_announce_ms
    &&& a.announce_count == b.announce_count
}

/// Whether two statistics records agree in every field but the
/// lifecycle state.
pub open spec fn same_stats_except_state(a: FakerStats, b: FakerStats) -> bool {
    &&& a.uploaded == b.uploaded
    &&& a.downloaded == b.downloaded
    &&& a.ratio_permille == b.ratio_permille
    &&& a.left == b.left
    &&& a.torrent_completion_permille == b.torrent_completion_permille
    &&& a.seeders == b.seeders
    &&& a.leechers == b.leechers
    &&& a.is_idling == b.is_idling
    &&& a.idling_reason == b.idling_reason
    &&& a.session_uploaded == b.session_uploaded
    &&& a.session_downloaded == b.session_downloaded
    &&& a.session_ratio_permille == b.session_ratio_permille
    &&& a.elapsed_ms == b.elapsed_ms
    &&& a.current_upload_rate == b.current_upload_rate
    &&& a.current_download_rate == b.current_download_rate
    &&& a.average_upload_rate == b.average_upload_rate
    &&& a.average_download_rate == b.average_download_rate
    &&& a.upload_progress_permille == b.upload_progress_permille
    &&& a.download_progress_permille == b.download_progress_permille
    &&& a.ratio_progress_permille == b.ratio_progress_permille
    &&& a.seed_time_progress_permille == b.seed_time_progress_permille
    &&& a.eta_ratio_secs == b.eta_ratio_secs
    &&& a.eta_uploaded_secs == b.eta_uploaded_secs
    &&& a.eta_seed_time_secs == b.eta_seed_time_secs
    &&& a.eta_download_completion_secs == b.eta_download_completion_secs
    &&& a.upload_rate_history == b.upload_rate_history
    &&& a.download_rate_history == b.download_rate_history
    &&& a.ratio_history == b.ratio_history
    &&& a.history_timestamps == b.history_timestamps
    &&& a.last_announce_ms == b.last_announce_ms
    &&& a.next_announce_ms == b.next_announce_ms
    &&& a.announce_count == b.announce_count
}

impl FakerStats {
    /// A field-for-field copy.
    pub fn snapshot(&self) -> (r: FakerStats)
        ensures
            same_stats(r, *self),
    {
        FakerStats {
            uploaded: self.uploaded,
            downloaded: self.downloaded,
            ratio_permille: self.ratio_permille,
            left: self.left,
            torrent_completion_permille: self.torrent_completion_permille,
            seeders: self.seeders,
            leechers: self.leechers,
            state: self.state,
            is_idling: self.is_idling,
            idling_reason: self.idling_reason,
            session_uploaded: self.session_uploaded,
            session_downloaded: self.session_downloaded,
            session_ratio_permille: self.session_ratio_permille,
            elapsed_ms: self.elapsed_ms,
            current_upload_rate: self.current_upload_rate,
            current_download_rate: self.current_download_rate,
            average_upload_rate: self.average_upload_rate,
            average_download_rate: self.average_download_rate,
            upload_progress_permille: self.upload_progress_permille,
            download_progress_permille: self.download_progress_permille,
            ratio_progress_permille: self.ratio_progress_permille,
            seed_time_progress_permille: self.seed_time_progress_permille,
            eta_ratio_secs: self.eta_ratio_secs,
            eta_uploaded_secs: self.eta_uploaded_secs,
            eta_seed_time_secs: self.eta_seed_time_secs,
            eta_download_completion_secs: self.eta_download_completion_secs,
            upload_rate_history: clone_u64_vec(&self.upload_rate_history),
            download_rate_history: clone_u64_vec(&self.download_rate_history),
            ratio_history: clone_u64_vec(&self.ratio_history),
            history_timestamps: clone_u64_vec(&self.history_timestamps),
            last_announce_ms: self.last_announce_ms,
            next_announce_ms: self.next_announce_ms,
            announce_count: self.announce_count,
        }
    }
}

/// An element-for-element copy.
fn clone_u64_vec(v: &Vec<u64>) -> (r: Vec<u64>)
    ensures
        r@ == v@,
{
    let mut r: Vec<u64> = Vec::new();
    let mut i: usize = 0;
    while i < v.len()
        invariant
            i <= v@.len(),
            r@ == v@.take(i as int),
        decreases v@.len() - i,
    {
        r.push(v[i]);
        proof {
            assert(r@ =~= v@.take(i + 1));
        }
        i += 1;
    }
    proof {
        assert(r@ =~= v@);
    }
    r
}

} // verus!
