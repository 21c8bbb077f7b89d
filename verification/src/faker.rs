use vstd::prelude::*;
use vstd::string::*;

use crate::arith::{sat_add, sat_add_exec, sat_mul, sat_mul_exec, sat_sub, sat_sub_exec};
use crate::client::{peer_prefix_chars, resolved_version_chars, ClientConfig};
use crate::config::FakerConfig;
use crate::protocol::{AnnounceRequest, AnnounceResponse, ScrapeResponse, TrackerError, TrackerEvent};
use crate::stats::{same_stats, FakerState, FakerStats, IdlingReason};
use crate::torrent::TorrentInfo;

verus! {

/// What an engine operation can fail with.
#[derive(Debug, Clone)]
pub enum FakerError {
    /// A tracker exchange failed.
    TrackerError(TrackerError),
    /// The operation does not fit the current lifecycle state.
    InvalidState(String),
    /// The configuration was rejected before the engine was built.
    ConfigError(String),
}

impl FakerError {
    /// A short account of the error for logs and callers.
    pub fn message(&self) -> (r: String)
        ensures
            ({
                match *self {
                    FakerError::TrackerError(_) => true,
                    FakerError::InvalidState(ref m) => r@ == "invalid state: "@ + m@,
                    FakerError::ConfigError(ref m) => r@ == "configuration error: "@ + m@,
                }
            }),
    {
        match self {
            FakerError::TrackerError(e) => e.message(),
            FakerError::InvalidState(m) => {
                let mut s = String::from_str("invalid state: ");
                s.append(m.as_str());
                s
            },
            FakerError::ConfigError(m) => {
                let mut s = String::from_str("configuration error: ");
                s.append(m.as_str());
                s
            },
        }
    }
}

/// Milliseconds gone by between two readings of the caller's clock; a
/// reading that went backwards counts as no time gone by.
pub open spec fn elapsed_between(earlier: u64, now: u64) -> u64 {
    if now >= earlier {
        (now - earlier) as u64
    } else {
        0
    }
}

/// A share of `size` given in thousandths, rounded down.
pub open spec fn portion(size: u64, permille: u64) -> int {
    size * permille / 1000
}

/// A ratio in thousandths: `amount` over `size`, zero when `size` is zero,
/// stopping at the largest representable value.
pub open spec fn ratio_permille_of(amount: u64, size: u64) -> u64 {
    if size == 0 {
        0
    } else if amount * 1000 / (size as int) <= u64::MAX {
        (amount * 1000 / (size as int)) as u64
    } else {
        u64::MAX
    }
}

/// The held share of a torrent in thousandths: the whole when the torrent
/// is empty.
pub open spec fn completion_permille_of(size: u64, left: u64) -> u64 {
    if size == 0 {
        1000
    } else {
        ((size - left) * 1000 / (size as int)) as u64
    }
}

/// Whether two optional strings hold the same characters.
pub open spec fn opt_string_eq(a: Option<String>, b: Option<String>) -> bool {
    match (a, b) {
        (Some(x), Some(y)) => x@ == y@,
        (None, None) => true,
        _ => false,
    }
}

/// Copies an optional string.
pub fn clone_opt_string(o: &Option<String>) -> (r: Option<String>)
    ensures
        opt_string_eq(r, *o),
{
    match o {
        Some(s) => Some(s.clone()),
        None => None,
    }
}

/// Whether closing this session still owes the tracker a `stopped`
/// announce: it does unless the session is already `Stopped`.
pub open spec fn stop_announce_owed(f: RatioFaker) -> bool {
    f.stats.state != FakerState::Stopped
}

/// What settling a stop does, whatever came of the announce: the state
/// turns `Stopped`, the idling flag clears, an answered announce counts,
/// and the transfer accounting and identity stay as they were.
pub open spec fn stop_settled(pre: RatioFaker, post: RatioFaker, announce_ok: bool) -> bool {
    &&& post.stats.state == FakerState::Stopped
    &&& !post.stats.is_idling
    &&& post.stats.idling_reason is None
    &&& post.stats.announce_count == (if announce_ok && pre.stats.announce_count < u32::MAX {
        (pre.stats.announce_count + 1) as u32
    } else {
        pre.stats.announce_count
    })
    &&& post.stats.uploaded == pre.stats.uploaded
    &&& post.stats.downloaded == pre.stats.downloaded
    &&& post.stats.left == pre.stats.left
    &&& post.stats.session_uploaded == pre.stats.session_uploaded
    &&& post.stats.session_downloaded == pre.stats.session_downloaded
    &&& post.torrent == pre.torrent
    &&& post.config == pre.config
    &&& post.peer_id == pre.peer_id
    &&& post.key == pre.key
    &&& post.tracker_id == pre.tracker_id
    &&& post.scrape_supported == pre.scrape_supported
}

/// Whether two sessions agree everywhere but in the lifecycle state.
pub open spec fn same_but_state(pre: RatioFaker, post: RatioFaker) -> bool {
    &&& crate::stats::same_stats_except_state(pre.stats, post.stats)
    &&& post.torrent == pre.torrent
    &&& post.config == pre.config
    &&& post.client == pre.client
    &&& post.peer_id == pre.peer_id
    &&& post.key == pre.key
    &&& post.tracker_id == pre.tracker_id
    &&& post.start_time_ms == pre.start_time_ms
    &&& post.last_update_ms == pre.last_update_ms
    &&& post.announce_interval_secs == pre.announce_interval_secs
    &&& post.last_scrape_ms == pre.last_scrape_ms
    &&& post.scrape_supported == pre.scrape_supported
}

/// One emulated torrent session: its torrent, its settings, its identity
/// toward the tracker, and its live statistics.  The engine makes no
/// network call itself: operations hand back the announce request to send,
/// and the caller reports what came of it.
pub struct RatioFaker {
    pub torrent: TorrentInfo,
    pub config: FakerConfig,
    pub client: ClientConfig,
    pub stats: FakerStats,
    pub peer_id: String,
    pub key: String,
    pub tracker_id: Option<String>,
    pub start_time_ms: u64,
    pub last_update_ms: u64,
    pub announce_interval_secs: u64,
    pub last_scrape_ms: u64,
    pub scrape_supported: bool,
}

impl RatioFaker {
    /// The accounting that every operation keeps: the configuration lies
    /// in range, what is left never exceeds the torrent, neither the
    /// session's nor the lifetime's downloads outgrow it, and the rolling
    /// histories stay within their sixty entries.
    pub open spec fn wf(&self) -> bool {
        &&& self.config.valid()
        &&& self.stats.left <= self.torrent.total_size
        &&& self.stats.left + self.stats.session_downloaded <= self.torrent.total_size
        &&& self.stats.left + self.stats.downloaded <= self.torrent.total_size
        &&& self.stats.upload_rate_history@.len() <= crate::stats::HISTORY_LEN
        &&& self.stats.download_rate_history@.len() <= crate::stats::HISTORY_LEN
        &&& self.stats.ratio_history@.len() <= crate::stats::HISTORY_LEN
        &&& self.stats.history_timestamps@.len() <= crate::stats::HISTORY_LEN
    }

    /// Whether a configuration can open a session on this torrent: its
    /// settings lie in range and the carried downloaded total does not
    /// exceed what the starting share says is already held.
    pub open spec fn admissible(torrent: TorrentInfo, config: FakerConfig) -> bool {
        &&& config.valid()
        &&& config.initial_downloaded <= portion(torrent.total_size, config.completion_permille as u64)
    }

    /// Builds a session in the `Stopped` state.  The lifetime totals start
    /// at the carried-over amounts, the session totals at zero, and what
    /// is left to download is the torrent minus the starting share.
    pub fn new(torrent: TorrentInfo, config: FakerConfig, now_ms: u64) -> (r: Result<
        RatioFaker,
        FakerError,
    >)
        ensures
            r is Ok <==> Self::admissible(torrent, config),
            r matches Err(e) ==> e is ConfigError,
            r matches Ok(f) ==> {
                &&& f.wf()
                &&& f.torrent == torrent
                &&& f.config == config
                &&& f.stats.state == FakerState::Stopped
                &&& f.stats.uploaded == config.initial_uploaded
                &&& f.stats.downloaded == config.initial_downloaded
                &&& f.stats.left == torrent.total_size - portion(
                    torrent.total_size,
                    config.completion_permille as u64,
                )
                &&& f.stats.session_uploaded == 0
                &&& f.stats.session_downloaded == 0
                &&& f.stats.session_ratio_permille == 0
                &&& f.stats.elapsed_ms == 0
                &&& f.stats.current_upload_rate == 0
                &&& f.stats.current_download_rate == 0
                &&& f.stats.average_upload_rate == 0
                &&& f.stats.average_download_rate == 0
                &&& f.stats.upload_progress_permille == 0
                &&& f.stats.download_progress_permille == 0
                &&& f.stats.ratio_progress_permille == 0
                &&& f.stats.seed_time_progress_permille == 0
                &&& f.stats.eta_ratio_secs is None
                &&& f.stats.eta_uploaded_secs is None
                &&& f.stats.eta_seed_time_secs is None
                &&& f.stats.eta_download_completion_secs is None
                &&& f.stats.ratio_permille == ratio_permille_of(
                    config.initial_uploaded,
                    torrent.total_size,
                )
                &&& f.stats.torrent_completion_permille == completion_permille_of(
                    torrent.total_size,
                    f.stats.left,
                )
                &&& f.stats.seeders == 0
                &&& f.stats.leechers == 0
                &&& !f.stats.is_idling
                &&& f.stats.idling_reason is None
                &&& f.stats.announce_count == 0
                &&& f.stats.upload_rate_history@.len() == 0
                &&& f.stats.download_rate_history@.len() == 0
                &&& f.stats.ratio_history@.len() == 0
                &&& f.stats.history_timestamps@.len() == 0
                &&& f.stats.last_announce_ms is None
                &&& f.stats.next_announce_ms is None
                &&& f.peer_id@.len() == 20
                &&& f.peer_id@.take(8) == peer_prefix_chars(
                    config.client_type,
                    resolved_version_chars(config.client_type, config.client_version),
                )
                &&& f.key@.len() == 8
                &&& f.tracker_id is None
                &&& f.start_time_ms == now_ms
                &&& f.last_update_ms == now_ms
                &&& f.last_scrape_ms == now_ms
                &&& f.announce_interval_secs == 1800
                &&& f.scrape_supported
            },
    {
        if !config.is_valid() {
            return Err(FakerError::ConfigError(String::from_str("configuration out of range")));
        }
        let done = portion_exec(torrent.total_size, config.completion_permille as u64);
        if config.initial_downloaded > done {
            return Err(FakerError::ConfigError(
                String::from_str("carried downloaded total exceeds the starting share"),
            ));
        }
        let left = torrent.total_size - done;
        let client = ClientConfig::get(config.client_type, clone_opt_string(&config.client_version));
        let peer_id = client.generate_peer_id();
        let key = ClientConfig::generate_key();
        let ratio = ratio_permille_exec(config.initial_uploaded, torrent.total_size);
        let completion = completion_permille_exec(torrent.total_size, left);
        let stats = FakerStats {
            uploaded: config.initial_uploaded,
            downloaded: config.initial_downloaded,
            ratio_permille: ratio,
            left,
            torrent_completion_permille: completion,
            seeders: 0,
            leechers: 0,
            state: FakerState::Stopped,
            is_idling: false,
            idling_reason: None,
            session_uploaded: 0,
            session_downloaded: 0,
            session_ratio_permille: 0,
            elapsed_ms: 0,
            current_upload_rate: 0,
            current_download_rate: 0,
            average_upload_rate: 0,
            average_download_rate: 0,
            upload_progress_permille: 0,
            download_progress_permille: 0,
            ratio_progress_permille: 0,
            seed_time_progress_permille: 0,
            eta_ratio_secs: None,
            eta_uploaded_secs: None,
            eta_seed_time_secs: None,
            eta_download_completion_secs: None,
            upload_rate_history: Vec::new(),
            download_rate_history: Vec::new(),
            ratio_history: Vec::new(),
            history_timestamps: Vec::new(),
            last_announce_ms: None,
            next_announce_ms: None,
            announce_count: 0,
        };
        Ok(RatioFaker {
            torrent,
            config,
            client,
            stats,
            peer_id,
            key,
            tracker_id: None,
            start_time_ms: now_ms,
            last_update_ms: now_ms,
            announce_interval_secs: 1800,
            last_scrape_ms: now_ms,
            scrape_supported: true,
        })
    }

    /// The announce payload for the session as it stands now.
    pub fn announce_request(&self, event: TrackerEvent) -> (r: AnnounceRequest)
        ensures
            r.info_hash == self.torrent.info_hash,
            r.peer_id@ == self.peer_id@,
            r.port == self.config.port,
            r.uploaded == self.stats.uploaded,
            r.downloaded == self.stats.downloaded,
            r.left == self.stats.left,
            r.compact,
            !r.no_peer_id,
            r.event == event,
            r.ip is None,
            r.numwant == Some(self.config.num_want),
            r.key matches Some(k) && k@ == self.key@,
            opt_string_eq(r.tracker_id, self.tracker_id),
    {
        AnnounceRequest {
            info_hash: self.torrent.info_hash,
            peer_id: self.peer_id.clone(),
            port: self.config.port,
            uploaded: self.stats.uploaded,
            downloaded: self.stats.downloaded,
            left: self.stats.left,
            compact: true,
            no_peer_id: false,
            event,
            ip: None,
            numwant: Some(self.config.num_want),
            key: Some(self.key.clone()),
            tracker_id: clone_opt_string(&self.tracker_id),
        }
    }

    /// Opens a session: the state turns `Starting`, the session counters
    /// and the elapsed-time origin reset, and the `started` announce to
    /// send comes back.  The tracker's answer goes to `complete_start`.
    pub fn start(&mut self, now_ms: u64) -> (r: AnnounceRequest)
        requires
            old(self).wf(),
        ensures
            final(self).wf(),
            final(self).stats.state == FakerState::Starting,
            final(self).stats.session_uploaded == 0,
            final(self).stats.session_downloaded == 0,
            final(self).stats.session_ratio_permille == 0,
            final(self).stats.elapsed_ms == 0,
            final(self).start_time_ms == now_ms,
            final(self).last_update_ms == now_ms,
            final(self).stats.uploaded == old(self).stats.uploaded,
            final(self).stats.downloaded == old(self).stats.downloaded,
            final(self).stats.left == old(self).stats.left,
            final(self).stats.ratio_permille == old(self).stats.ratio_permille,
            final(self).stats.torrent_completion_permille == old(self).stats.torrent_completion_permille,
            final(self).stats.seeders == old(self).stats.seeders,
            final(self).stats.leechers == old(self).stats.leechers,
            final(self).stats.is_idling == old(self).stats.is_idling,
            final(self).stats.idling_reason == old(self).stats.idling_reason,
            final(self).stats.announce_count == old(self).stats.announce_count,
            final(self).stats.upload_rate_history == old(self).stats.upload_rate_history,
            final(self).stats.download_rate_history == old(self).stats.download_rate_history,
            final(self).stats.ratio_history == old(self).stats.ratio_history,
            final(self).stats.history_timestamps == old(self).stats.history_timestamps,
            final(self).stats.last_announce_ms == old(self).stats.last_announce_ms,
            final(self).stats.next_announce_ms == old(self).stats.next_announce_ms,
            final(self).torrent == old(self).torrent,
            final(self).config == old(self).config,
            final(self).client == old(self).client,
            final(self).peer_id == old(self).peer_id,
            final(self).key == old(self).key,
            final(self).tracker_id == old(self).tracker_id,
            final(self).announce_interval_secs == old(self).announce_interval_secs,
            final(self).last_scrape_ms == old(self).last_scrape_ms,
            final(self).scrape_supported == old(self).scrape_supported,
            r.event == TrackerEvent::Started,
            r.info_hash == old(self).torrent.info_hash,
            r.uploaded == old(self).stats.uploaded,
            r.downloaded == old(self).stats.downloaded,
            r.left == old(self).stats.left,
            r.port == old(self).config.port,
            r.peer_id@ == old(self).peer_id@,
    {
        self.stats.state = FakerState::Starting;
        self.stats.session_uploaded = 0;
        self.stats.session_downloaded = 0;
        self.stats.session_ratio_permille = 0;
        self.stats.elapsed_ms = 0;
        self.start_time_ms = now_ms;
        self.last_update_ms = now_ms;
        self.announce_request(TrackerEvent::Started)
    }

    /// Settles a start: on a tracker answer, adopt its interval and
    /// session id and record the peer counts; on failure, schedule a
    /// retry thirty seconds out.  Either way the state turns `Running`.
    pub fn complete_start(&mut self, now_ms: u64, outcome: Option<&AnnounceResponse>)
        requires
            old(self).wf(),
        ensures
            final(self).wf(),
            final(self).stats.state == FakerState::Running,
            ({
                match outcome {
                    Some(resp) => {
                        &&& final(self).announce_interval_secs == resp.interval as u64
                        &&& opt_string_eq(final(self).tracker_id, resp.tracker_id)
                        &&& final(self).stats.seeders == resp.complete
                        &&& final(self).stats.leechers == resp.incomplete
                        &&& final(self).stats.last_announce_ms == Some(now_ms)
                        &&& final(self).stats.next_announce_ms == Some(
                            sat_add(now_ms, sat_mul(resp.interval as u64, 1000)),
                        )
                        &&& final(self).stats.announce_count == (if old(self).stats.announce_count < u32::MAX {
                            (old(self).stats.announce_count + 1) as u32
                        } else {
                            u32::MAX
                        })
                    },
                    None => {
                        &&& final(self).announce_interval_secs == old(self).announce_interval_secs
                        &&& final(self).tracker_id == old(self).tracker_id
                        &&& final(self).stats.seeders == old(self).stats.seeders
                        &&& final(self).stats.leechers == old(self).stats.leechers
                        &&& final(self).stats.last_announce_ms == old(self).stats.last_announce_ms
                        &&& final(self).stats.next_announce_ms == Some(sat_add(now_ms, 30000))
                        &&& final(self).stats.announce_count == old(self).stats.announce_count
                    },
                }
            }),
            final(self).stats.uploaded == old(self).stats.uploaded,
            final(self).stats.downloaded == old(self).stats.downloaded,
            final(self).stats.left == old(self).stats.left,
            final(self).stats.session_uploaded == old(self).stats.session_uploaded,
            final(self).stats.session_downloaded == old(self).stats.session_downloaded,
            final(self).torrent == old(self).torrent,
            final(self).config == old(self).config,
            final(self).peer_id == old(self).peer_id,
            final(self).key == old(self).key,
            final(self).start_time_ms == old(self).start_time_ms,
            final(self).last_update_ms == old(self).last_update_ms,
            final(self).scrape_supported == old(self).scrape_supported,
            final(self).last_scrape_ms == old(self).last_scrape_ms,
    {
        match outcome {
            Some(resp) => {
                self.announce_interval_secs = resp.interval as u64;
                self.tracker_id = clone_opt_string(&resp.tracker_id);
                self.stats.seeders = resp.complete;
                self.stats.leechers = resp.incomplete;
                self.stats.last_announce_ms = Some(now_ms);
                self.stats.next_announce_ms = Some(
                    sat_add_exec(now_ms, sat_mul_exec(resp.interval as u64, 1000)),
                );
                self.stats.announce_count = self.stats.announce_count.saturating_add(1);
            },
            None => {
                self.stats.next_announce_ms = Some(sat_add_exec(now_ms, 30000));
            },
        }
        self.stats.state = FakerState::Running;
    }

    /// Closes a session.  A session already `Stopped` is left untouched
    /// and no announce is owed; otherwise the state turns `Stopping` and
    /// the `stopped` announce to send comes back, to be settled by
    /// `complete_stop` whatever came of it.
    pub fn stop(&mut self) -> (r: Option<AnnounceRequest>)
        requires
            old(self).wf(),
        ensures
            final(self).wf(),
            (r is Some) == stop_announce_owed(*old(self)),
            old(self).stats.state == FakerState::Stopped ==> {
                &&& r is None
                &&& *final(self) == *old(self)
            },
            old(self).stats.state != FakerState::Stopped ==> {
                &&& final(self).stats.state == FakerState::Stopping
                &&& r matches Some(req) && req.event == TrackerEvent::Stopped
                    && req.uploaded == old(self).stats.uploaded && req.downloaded == old(self).stats.downloaded && req.left == old(self).stats.left
                &&& same_but_state(*old(self), *final(self))
            },
    {
        if matches!(self.stats.state, FakerState::Stopped) {
            return None;
        }
        let req = self.announce_request(TrackerEvent::Stopped);
        self.stats.state = FakerState::Stopping;
        Some(req)
    }

    /// Settles a stop: the state turns `Stopped` whatever came of the
    /// announce, the idling flag clears, and an answered announce counts.
    pub fn complete_stop(&mut self, announce_ok: bool)
        requires
            old(self).wf(),
        ensures
            final(self).wf(),
            stop_settled(*old(self), *final(self), announce_ok),
    {
        if announce_ok {
            self.stats.announce_count = self.stats.announce_count.saturating_add(1);
        }
        self.stats.state = FakerState::Stopped;
        self.stats.is_idling = false;
        self.stats.idling_reason = None;
    }

    /// Pauses the session without telling the tracker.
    pub fn pause(&mut self)
        requires
            old(self).wf(),
        ensures
            final(self).wf(),
            final(self).stats.state == FakerState::Paused,
            !final(self).stats.is_idling,
            final(self).stats.idling_reason is None,
            final(self).stats.uploaded == old(self).stats.uploaded,
            final(self).stats.downloaded == old(self).stats.downloaded,
            final(self).stats.left == old(self).stats.left,
            final(self).stats.session_uploaded == old(self).stats.session_uploaded,
            final(self).stats.session_downloaded == old(self).stats.session_downloaded,
            final(self).stats.announce_count == old(self).stats.announce_count,
            final(self).torrent == old(self).torrent,
            final(self).config == old(self).config,
            final(self).last_update_ms == old(self).last_update_ms,
            final(self).start_time_ms == old(self).start_time_ms,
    {
        self.stats.state = FakerState::Paused;
        self.stats.is_idling = false;
        self.stats.idling_reason = None;
    }

    /// Resumes the session.  The last-update instant moves to now, so the
    /// next tick applies no stale elapsed time.
    pub fn resume(&mut self, now_ms: u64)
        requires
            old(self).wf(),
        ensures
            final(self).wf(),
            final(self).stats.state == FakerState::Running,
            final(self).last_update_ms == now_ms,
            final(self).stats.uploaded == old(self).stats.uploaded,
            final(self).stats.downloaded == old(self).stats.downloaded,
            final(self).stats.left == old(self).stats.left,
            final(self).stats.session_uploaded == old(self).stats.session_uploaded,
            final(self).stats.session_downloaded == old(self).stats.session_downloaded,
            final(self).stats.announce_count == old(self).stats.announce_count,
            final(self).torrent == old(self).torrent,
            final(self).config == old(self).config,
            final(self).start_time_ms == old(self).start_time_ms,
    {
        self.stats.state = FakerState::Running;
        self.last_update_ms = now_ms;
    }

    /// A copy of the live statistics.
    pub fn get_stats(&self) -> (r: FakerStats)
        ensures
            same_stats(r, self.stats),
    {
        self.stats.snapshot()
    }

    /// The torrent this session emulates.
    pub fn get_torrent(&self) -> (r: &TorrentInfo)
        ensures
            *r == self.torrent,
    {
        &self.torrent
    }

    /// Books a periodic announce's answer: the tracker's interval and peer
    /// counts are adopted and the next announce is scheduled one interval
    /// out.
    pub fn apply_periodic_response(&mut self, now_ms: u64, resp: &AnnounceResponse)
        requires
            old(self).wf(),
        ensures
            final(self).wf(),
            final(self).announce_interval_secs == resp.interval as u64,
            final(self).stats.seeders == resp.complete,
            final(self).stats.leechers == resp.incomplete,
            final(self).stats.last_announce_ms == Some(now_ms),
            final(self).stats.next_announce_ms == Some(
                sat_add(now_ms, sat_mul(resp.interval as u64, 1000)),
            ),
            final(self).stats.announce_count == (if old(self).stats.announce_count < u32::MAX {
                (old(self).stats.announce_count + 1) as u32
            } else {
                u32::MAX
            }),
            final(self).stats.state == old(self).stats.state,
            final(self).stats.uploaded == old(self).stats.uploaded,
            final(self).stats.downloaded == old(self).stats.downloaded,
            final(self).stats.left == old(self).stats.left,
            final(self).stats.session_uploaded == old(self).stats.session_uploaded,
            final(self).stats.session_downloaded == old(self).stats.session_downloaded,
            final(self).tracker_id == old(self).tracker_id,
            final(self).torrent == old(self).torrent,
            final(self).config == old(self).config,
    {
        self.announce_interval_secs = resp.interval as u64;
        self.stats.seeders = resp.complete;
        self.stats.leechers = resp.incomplete;
        self.stats.last_announce_ms = Some(now_ms);
        self.stats.next_announce_ms = Some(
            sat_add_exec(now_ms, sat_mul_exec(resp.interval as u64, 1000)),
        );
        self.stats.announce_count = self.stats.announce_count.saturating_add(1);
    }

    /// Books a periodic announce's failure: retry thirty seconds out
    /// rather than a whole interval away.
    pub fn note_periodic_failure(&mut self, now_ms: u64)
        requires
            old(self).wf(),
        ensures
            final(self).wf(),
            final(self).stats.next_announce_ms == Some(sat_add(now_ms, 30000)),
            final(self).stats.state == old(self).stats.state,
            final(self).stats.uploaded == old(self).stats.uploaded,
            final(self).stats.downloaded == old(self).stats.downloaded,
            final(self).stats.left == old(self).stats.left,
            final(self).stats.announce_count == old(self).stats.announce_count,
            final(self).torrent == old(self).torrent,
            final(self).config == old(self).config,
    {
        self.stats.next_announce_ms = Some(sat_add_exec(now_ms, 30000));
    }

    /// Books a completed announce's answer: peer counts refresh and the
    /// announce counts; the state does not change.
    pub fn apply_completed_response(&mut self, resp: &AnnounceResponse)
        requires
            old(self).wf(),
        ensures
            final(self).wf(),
            final(self).stats.seeders == resp.complete,
            final(self).stats.leechers == resp.incomplete,
            final(self).stats.announce_count == (if old(self).stats.announce_count < u32::MAX {
                (old(self).stats.announce_count + 1) as u32
            } else {
                u32::MAX
            }),
            final(self).stats.state == old(self).stats.state,
            final(self).stats.uploaded == old(self).stats.uploaded,
            final(self).stats.downloaded == old(self).stats.downloaded,
            final(self).stats.left == old(self).stats.left,
            final(self).torrent == old(self).torrent,
            final(self).config == old(self).config,
    {
        self.stats.seeders = resp.complete;
        self.stats.leechers = resp.incomplete;
        self.stats.announce_count = self.stats.announce_count.saturating_add(1);
    }

    /// Books a scrape's answer: peer counts refresh and the scrape clock
    /// restarts.
    pub fn apply_scrape_response(&mut self, now_ms: u64, resp: &ScrapeResponse)
        requires
            old(self).wf(),
        ensures
            final(self).wf(),
            final(self).stats.seeders == resp.complete,
            final(self).stats.leechers == resp.incomplete,
            final(self).last_scrape_ms == now_ms,
            final(self).scrape_supported == old(self).scrape_supported,
            final(self).stats.state == old(self).stats.state,
            final(self).stats.uploaded == old(self).stats.uploaded,
            final(self).stats.downloaded == old(self).stats.downloaded,
            final(self).stats.left == old(self).stats.left,
            final(self).torrent == old(self).torrent,
            final(self).config == old(self).config,
    {
        self.stats.seeders = resp.complete;
        self.stats.leechers = resp.incomplete;
        self.last_scrape_ms = now_ms;
    }

    /// Books a scrape's failure: the tracker is taken not to support
    /// scraping, for the rest of this session's life.
    pub fn disable_scrape(&mut self)
        requires
            old(self).wf(),
        ensures
            final(self).wf(),
            !final(self).scrape_supported,
            final(self).stats == old(self).stats,
            final(self).torrent == old(self).torrent,
            final(self).config == old(self).config,
    {
        self.scrape_supported = false;
    }
}

/// The smaller of two counters.
pub open spec fn min64(a: u64, b: u64) -> u64 {
    if a <= b {
        a
    } else {
        b
    }
}

/// The rate a progressive ramp gives after `elapsed` of `duration`
/// seconds: the target once the duration is over, and in between a
/// straight line from the starting rate toward it.
pub open spec fn progressive_rate(start: u64, target: u64, elapsed: u64, duration: u64) -> u64 {
    if elapsed >= duration {
        target
    } else if target >= start {
        (start + (target - start) * elapsed / (duration as int)) as u64
    } else {
        (start - (start - target) * elapsed / (duration as int)) as u64
    }
}

/// The base rate of a tick: the configured rate, or the ramp's value when
/// progressive rates are on (a ramp without a target holds the rate).
pub open spec fn base_rate(
    rate: u64,
    target: Option<u64>,
    progressive: bool,
    elapsed_secs: u64,
    duration: u64,
) -> u64 {
    if progressive {
        progressive_rate(
            rate,
            match target {
                Some(t) => t,
                None => rate,
            },
            elapsed_secs,
            duration,
        )
    } else {
        rate
    }
}

/// Whether a drawn rate lies in the randomization band around the base:
/// within `p` percent either way.
pub open spec fn rate_in_band(r: u64, base: u64, p: u64) -> bool {
    base * (1000 - 10 * p) / 1000 <= r <= base * (1000 + 10 * p) / 1000
}

/// Bytes moved in a tick: rate in KB/s times elapsed milliseconds,
/// stopping at the largest representable count.
pub open spec fn delta_bytes(rate_kbs: u64, elapsed_ms: u64) -> u64 {
    if rate_kbs * 1024 * elapsed_ms / 1000 <= u64::MAX {
        (rate_kbs * 1024 * elapsed_ms / 1000) as u64
    } else {
        u64::MAX
    }
}

/// Whether a tick idles the upload side: asked to, no leechers known, and
/// at least one announce answered.
pub open spec fn idle_no_leechers(cfg: FakerConfig, st: FakerStats) -> bool {
    cfg.idle_when_no_leechers && st.leechers == 0 && st.announce_count > 0
}

/// Whether a tick idles the download side: asked to, no seeders known,
/// data still missing, and at least one announce answered.
pub open spec fn idle_no_seeders(cfg: FakerConfig, st: FakerStats) -> bool {
    cfg.idle_when_no_seeders && st.seeders == 0 && st.left > 0 && st.announce_count > 0
}

/// Progress toward a target in thousandths, capped at the whole; a zero
/// target counts as reached.
pub open spec fn progress_permille(amount: u64, target: u64) -> u64 {
    if target == 0 {
        1000
    } else if amount * 1000 / (target as int) >= 1000 {
        1000
    } else {
        (amount * 1000 / (target as int)) as u64
    }
}

/// Seconds to move `remaining` bytes at `rate` KB/s, rounded down.
pub open spec fn eta_secs(remaining: u64, rate_kbs: u64) -> u64
    recommends
        rate_kbs > 0,
{
    ((remaining as int) / 1024 / (rate_kbs as int)) as u64
}

/// The session upload the ratio target asks for, in bytes, stopping at
/// the largest representable count.
pub open spec fn ratio_target_bytes(target_permille: u64, size: u64) -> u64 {
    if target_permille * size / 1000 <= u64::MAX {
        (target_permille * size / 1000) as u64
    } else {
        u64::MAX
    }
}

/// Whether any configured stop target is reached by the session-scoped
/// accumulators.  The ratio comparison allows one thousandth of slack.
pub open spec fn stop_met(cfg: FakerConfig, st: FakerStats, size: u64) -> bool {
    ||| (match cfg.stop_at_ratio_permille {
        Some(t) => if size == 0 {
            t <= 1
        } else {
            1000 * st.session_uploaded + size >= t * size
        },
        None => false,
    })
    ||| (match cfg.stop_at_uploaded {
        Some(t) => st.session_uploaded >= t,
        None => false,
    })
    ||| (match cfg.stop_at_downloaded {
        Some(t) => st.session_downloaded >= t,
        None => false,
    })
    ||| (match cfg.stop_at_seed_time {
        Some(t) => st.elapsed_ms / 1000 >= t,
        None => false,
    })
}

/// What the progress and estimate fields hold after a refresh: progress
/// toward each configured stop target, and each estimate defined exactly
/// when its target is set and its average rate is available.
pub open spec fn progress_eta_rel(cfg: FakerConfig, st: FakerStats, size: u64) -> bool {
    &&& (match cfg.stop_at_uploaded {
        Some(t) => st.upload_progress_permille == progress_permille(st.session_uploaded, t)
            && st.eta_uploaded_secs == (if st.average_upload_rate > 0 {
            Some(eta_secs(sat_sub(t, st.session_uploaded), st.average_upload_rate))
        } else {
            None
        }),
        None => st.upload_progress_permille == 0 && st.eta_uploaded_secs is None,
    })
    &&& (match cfg.stop_at_downloaded {
        Some(t) => st.download_progress_permille == progress_permille(st.session_downloaded, t),
        None => st.download_progress_permille == 0,
    })
    &&& (match cfg.stop_at_ratio_permille {
        Some(t) => st.ratio_progress_permille == progress_permille(st.session_ratio_permille, t)
            && st.eta_ratio_secs == (if st.average_upload_rate > 0 && size > 0 {
            Some(
                eta_secs(
                    sat_sub(ratio_target_bytes(t, size), st.session_uploaded),
                    st.average_upload_rate,
                ),
            )
        } else {
            None
        }),
        None => st.ratio_progress_permille == 0 && st.eta_ratio_secs is None,
    })
    &&& (match cfg.stop_at_seed_time {
        Some(t) => st.seed_time_progress_permille == progress_permille(st.elapsed_ms / 1000, t)
            && st.eta_seed_time_secs == Some(sat_sub(t, st.elapsed_ms / 1000)),
        None => st.seed_time_progress_permille == 0 && st.eta_seed_time_secs is None,
    })
    &&& st.eta_download_completion_secs == (if st.left > 0 && st.average_download_rate > 0 {
        Some(eta_secs(st.left, st.average_download_rate))
    } else {
        None
    })
}

/// Everything one tick does to a session, short of the lifecycle decision:
/// how the applied rates relate to the configuration and the drawn
/// randomization, how the transfer counters move by rate times elapsed
/// time with the download clamped to what is left, how the derived
/// statistics are recomputed, and how each rolling history gains exactly
/// this tick's sample.
pub open spec fn tick_rel(pre: RatioFaker, post: RatioFaker, now: u64) -> bool {
    let size = pre.torrent.total_size;
    let e = elapsed_between(pre.last_update_ms, now);
    let esess = pre.stats.elapsed_ms / 1000;
    let up = post.stats.current_upload_rate;
    let down = post.stats.current_download_rate;
    let updelta = delta_bytes(up, e);
    let ddelta = delta_bytes(down, e);
    let applied = if pre.stats.left > 0 {
        min64(ddelta, pre.stats.left)
    } else {
        0
    };
    let ilee = idle_no_leechers(pre.config, pre.stats);
    let isee = idle_no_seeders(pre.config, pre.stats);
    let bup = base_rate(
        pre.config.upload_rate,
        pre.config.target_upload_rate,
        pre.config.progressive_rates,
        esess,
        pre.config.progressive_duration,
    );
    let bdown = base_rate(
        pre.config.download_rate,
        pre.config.target_download_rate,
        pre.config.progressive_rates,
        esess,
        pre.config.progressive_duration,
    );
    &&& post.last_update_ms == now
    &&& (ilee ==> up == 0)
    &&& (!ilee && !pre.config.randomize_rates ==> up == bup)
    &&& (!ilee && pre.config.randomize_rates ==> rate_in_band(
        up,
        bup,
        pre.config.random_range_percent,
    ))
    &&& ((pre.stats.left == 0 || isee) ==> down == 0)
    &&& (pre.stats.left > 0 && !isee && !pre.config.randomize_rates ==> down == bdown)
    &&& (pre.stats.left > 0 && !isee && pre.config.randomize_rates ==> rate_in_band(
        down,
        bdown,
        pre.config.random_range_percent,
    ))
    &&& post.stats.is_idling == (ilee || isee)
    &&& post.stats.idling_reason == (if ilee {
        Some(IdlingReason::NoLeechers)
    } else if isee {
        Some(IdlingReason::NoSeeders)
    } else {
        None::<IdlingReason>
    })
    &&& post.stats.uploaded == sat_add(pre.stats.uploaded, updelta)
    &&& post.stats.session_uploaded == sat_add(pre.stats.session_uploaded, updelta)
    &&& post.stats.downloaded == pre.stats.downloaded + applied
    &&& post.stats.session_downloaded == pre.stats.session_downloaded + applied
    &&& post.stats.left == pre.stats.left - applied
    &&& post.stats.ratio_permille == ratio_permille_of(post.stats.uploaded, size)
    &&& post.stats.session_ratio_permille == ratio_permille_of(post.stats.session_uploaded, size)
    &&& post.stats.elapsed_ms == elapsed_between(pre.start_time_ms, now)
    &&& post.stats.torrent_completion_permille == completion_permille_of(size, post.stats.left)
    &&& (post.stats.elapsed_ms / 1000 > 0 ==> {
        &&& post.stats.average_upload_rate == post.stats.session_uploaded / 1024 / (
        post.stats.elapsed_ms / 1000)
        &&& post.stats.average_download_rate == post.stats.session_downloaded / 1024 / (
        post.stats.elapsed_ms / 1000)
    })
    &&& (post.stats.elapsed_ms / 1000 == 0 ==> {
        &&& post.stats.average_upload_rate == pre.stats.average_upload_rate
        &&& post.stats.average_download_rate == pre.stats.average_download_rate
    })
    &&& progress_eta_rel(pre.config, post.stats, size)
    &&& post.stats.history_timestamps@ == crate::stats::push_capped(
        pre.stats.history_timestamps@,
        now,
    )
    &&& post.stats.upload_rate_history@ == crate::stats::push_capped(
        pre.stats.upload_rate_history@,
        up,
    )
    &&& post.stats.download_rate_history@ == crate::stats::push_capped(
        pre.stats.download_rate_history@,
        down,
    )
    &&& post.stats.ratio_history@ == crate::stats::push_capped(
        pre.stats.ratio_history@,
        post.stats.ratio_permille,
    )
    &&& post.stats.seeders == pre.stats.seeders
    &&& post.stats.leechers == pre.stats.leechers
    &&& post.stats.announce_count == pre.stats.announce_count
    &&& post.stats.last_announce_ms == pre.stats.last_announce_ms
    &&& post.stats.next_announce_ms == pre.stats.next_announce_ms
    &&& post.torrent == pre.torrent
    &&& post.config == pre.config
    &&& post.client == pre.client
    &&& post.peer_id == pre.peer_id
    &&& post.key == pre.key
    &&& post.tracker_id == pre.tracker_id
    &&& post.announce_interval_secs == pre.announce_interval_secs
    &&& post.last_scrape_ms == pre.last_scrape_ms
    &&& post.scrape_supported == pre.scrape_supported
    &&& post.start_time_ms == pre.start_time_ms
}

/// A session that differs only in lifecycle state ticks the same: the
/// tick relation and the stop decision ignore the state field.
proof fn lemma_tick_rel_state_change(pre: RatioFaker, mid: RatioFaker, post: RatioFaker, now: u64)
    requires
        tick_rel(pre, mid, now),
        same_but_state(mid, post),
    ensures
        tick_rel(pre, post, now),
        stop_met(post.config, post.stats, post.torrent.total_size) == stop_met(
            mid.config,
            mid.stats,
            mid.torrent.total_size,
        ),
{
}

/// How the actions a periodic tick hands back relate to the session
/// before and after it: the `completed` announce comes exactly when the
/// torrent just finished, the `stopped` announce exactly when a stop
/// target was reached on a session not already stopped, and the periodic
/// announce exactly when none was and its scheduled time had come — each
/// carrying its event tag and the session's counters.
pub open spec fn actions_rel(pre: RatioFaker, post: RatioFaker, now: u64, a: UpdateActions) -> bool {
    let met = stop_met(post.config, post.stats, post.torrent.total_size);
    &&& !a.scrape_due
    &&& (a.completed is Some <==> (pre.stats.left > 0 && post.stats.left == 0))
    &&& (a.completed matches Some(req) ==> req.event == TrackerEvent::Completed
        && req.uploaded == post.stats.uploaded && req.left == post.stats.left)
    &&& (a.stop is Some <==> (met && pre.stats.state != FakerState::Stopped))
    &&& (a.stop matches Some(req) ==> req.event == TrackerEvent::Stopped && req.uploaded
        == post.stats.uploaded && req.downloaded == post.stats.downloaded && req.left
        == post.stats.left)
    &&& (a.periodic is Some <==> (!met && (match pre.stats.next_announce_ms {
        Some(t) => now >= t,
        None => false,
    })))
    &&& (a.periodic matches Some(req) ==> req.event == TrackerEvent::NoEvent && req.uploaded
        == post.stats.uploaded && req.left == post.stats.left)
}

/// What a tick asks the caller to do: send the `completed` announce when
/// the torrent just finished, send the `stopped` announce when a stop
/// target was reached, send the periodic announce when it is due, and
/// scrape when the scrape clock ran out.
pub struct UpdateActions {
    pub completed: Option<AnnounceRequest>,
    pub stop: Option<AnnounceRequest>,
    pub periodic: Option<AnnounceRequest>,
    pub scrape_due: bool,
}

/// A share of `size` in thousandths, matching `portion`; never more than
/// the whole.
pub fn portion_exec(size: u64, permille: u64) -> (r: u64)
    requires
        permille <= 1000,
    ensures
        r == portion(size, permille),
        r <= size,
{
    proof {
        assert(size * permille <= size * 1000) by (nonlinear_arith)
            requires
                permille <= 1000,
        ;
        assert(size * 1000 / 1000 == size) by (nonlinear_arith);
        assert(size * permille / 1000 <= size * 1000 / 1000) by (nonlinear_arith)
            requires
                size * permille <= size * 1000,
        ;
        assert(size * permille <= u64::MAX * 1000) by (nonlinear_arith)
            requires
                size <= u64::MAX,
                permille <= 1000,
        ;
    }
    let wide: u128 = (size as u128) * (permille as u128) / 1000;
    wide as u64
}

/// A ratio in thousandths, matching `ratio_permille_of`.
pub fn ratio_permille_exec(amount: u64, size: u64) -> (r: u64)
    ensures
        r == ratio_permille_of(amount, size),
{
    if size == 0 {
        0
    } else {
        let wide: u128 = (amount as u128) * 1000 / (size as u128);
        if wide > u64::MAX as u128 {
            u64::MAX
        } else {
            wide as u64
        }
    }
}

/// The ramp's rate, matching `progressive_rate`; never beyond the range
/// the two rates span.
fn progressive_rate_exec(start: u64, target: u64, elapsed: u64, duration: u64) -> (r: u64)
    requires
        start <= crate::config::MAX_RATE_KBS,
        target <= crate::config::MAX_RATE_KBS,
    ensures
        r == progressive_rate(start, target, elapsed, duration),
        r <= crate::config::MAX_RATE_KBS,
{
    if elapsed >= duration {
        return target;
    }
    if target >= start {
        let diff = target - start;
        proof {
            assert(diff * elapsed <= diff * duration) by (nonlinear_arith)
                requires
                    elapsed <= duration,
                    diff >= 0,
            ;
            assert(diff * duration / (duration as int) == diff) by (nonlinear_arith)
                requires
                    duration > 0,
            ;
            assert(diff * elapsed / (duration as int) <= diff * duration / (duration as int)) by (nonlinear_arith)
                requires
                    duration > 0,
                    diff * elapsed <= diff * duration,
            ;
            assert(diff * elapsed <= u64::MAX * u64::MAX) by (nonlinear_arith)
                requires
                    diff <= u64::MAX,
                    elapsed <= u64::MAX,
            ;
        }
        let w: u128 = (diff as u128) * (elapsed as u128) / (duration as u128);
        start + (w as u64)
    } else {
        let diff = start - target;
        proof {
            assert(diff * elapsed <= diff * duration) by (nonlinear_arith)
                requires
                    elapsed <= duration,
                    diff >= 0,
            ;
            assert(diff * duration / (duration as int) == diff) by (nonlinear_arith)
                requires
                    duration > 0,
            ;
            assert(diff * elapsed / (duration as int) <= diff * duration / (duration as int)) by (nonlinear_arith)
                requires
                    duration > 0,
                    diff * elapsed <= diff * duration,
            ;
            assert(diff * elapsed <= u64::MAX * u64::MAX) by (nonlinear_arith)
                requires
                    diff <= u64::MAX,
                    elapsed <= u64::MAX,
            ;
        }
        let w: u128 = (diff as u128) * (elapsed as u128) / (duration as u128);
        start - (w as u64)
    }
}

/// The tick's base rate, matching `base_rate`; never beyond the accepted
/// maximum.
fn base_rate_exec(
    rate: u64,
    target: Option<u64>,
    progressive: bool,
    elapsed_secs: u64,
    duration: u64,
) -> (r: u64)
    requires
        rate <= crate::config::MAX_RATE_KBS,
        (match target {
            Some(t) => t <= crate::config::MAX_RATE_KBS,
            None => true,
        }),
    ensures
        r == base_rate(rate, target, progressive, elapsed_secs, duration),
        r <= crate::config::MAX_RATE_KBS,
{
    if progressive {
        let t = match target {
            Some(t) => t,
            None => rate,
        };
        progressive_rate_exec(rate, t, elapsed_secs, duration)
    } else {
        rate
    }
}

/// Bytes moved in a tick, matching `delta_bytes`.
fn delta_bytes_exec(rate_kbs: u64, elapsed_ms: u64) -> (r: u64)
    requires
        rate_kbs <= 2000000000,
    ensures
        r == delta_bytes(rate_kbs, elapsed_ms),
{
    proof {
        assert(rate_kbs * 1024 <= 2048000000000) by (nonlinear_arith)
            requires
                rate_kbs <= 2000000000,
        ;
        assert(rate_kbs * 1024 * elapsed_ms <= 2048000000000 * u64::MAX) by (nonlinear_arith)
            requires
                rate_kbs * 1024 <= 2048000000000,
                elapsed_ms <= u64::MAX,
                rate_kbs >= 0,
        ;
    }
    let w: u128 = (rate_kbs as u128) * 1024 * (elapsed_ms as u128) / 1000;
    if w > u64::MAX as u128 {
        u64::MAX
    } else {
        w as u64
    }
}

/// Progress toward a target, matching `progress_permille`.
fn progress_permille_exec(amount: u64, target: u64) -> (r: u64)
    ensures
        r == progress_permille(amount, target),
{
    if target == 0 {
        1000
    } else {
        let w: u128 = (amount as u128) * 1000 / (target as u128);
        if w >= 1000 {
            1000
        } else {
            w as u64
        }
    }
}

/// The ratio target in bytes, matching `ratio_target_bytes`.
fn ratio_target_bytes_exec(target_permille: u64, size: u64) -> (r: u64)
    ensures
        r == ratio_target_bytes(target_permille, size),
{
    proof {
        assert(target_permille * size <= u64::MAX * u64::MAX) by (nonlinear_arith)
            requires
                target_permille <= u64::MAX,
                size <= u64::MAX,
        ;
    }
    let w: u128 = (target_permille as u128) * (size as u128) / 1000;
    if w > u64::MAX as u128 {
        u64::MAX
    } else {
        w as u64
    }
}

impl RatioFaker {
    /// Recomputes the progress and estimate fields from the session
    /// counters and averages, per `progress_eta_rel`.
    fn update_progress_and_eta(&mut self)
        ensures
            progress_eta_rel(old(self).config, final(self).stats, old(self).torrent.total_size),
            final(self).config == old(self).config,
            final(self).torrent == old(self).torrent,
            final(self).client == old(self).client,
            final(self).peer_id == old(self).peer_id,
            final(self).key == old(self).key,
            final(self).tracker_id == old(self).tracker_id,
            final(self).start_time_ms == old(self).start_time_ms,
            final(self).last_update_ms == old(self).last_update_ms,
            final(self).announce_interval_secs == old(self).announce_interval_secs,
            final(self).last_scrape_ms == old(self).last_scrape_ms,
            final(self).scrape_supported == old(self).scrape_supported,
            final(self).stats.uploaded == old(self).stats.uploaded,
            final(self).stats.downloaded == old(self).stats.downloaded,
            final(self).stats.ratio_permille == old(self).stats.ratio_permille,
            final(self).stats.left == old(self).stats.left,
            final(self).stats.torrent_completion_permille == old(self).stats.torrent_completion_permille,
            final(self).stats.seeders == old(self).stats.seeders,
            final(self).stats.leechers == old(self).stats.leechers,
            final(self).stats.state == old(self).stats.state,
            final(self).stats.is_idling == old(self).stats.is_idling,
            final(self).stats.idling_reason == old(self).stats.idling_reason,
            final(self).stats.session_uploaded == old(self).stats.session_uploaded,
            final(self).stats.session_downloaded == old(self).stats.session_downloaded,
            final(self).stats.session_ratio_permille == old(self).stats.session_ratio_permille,
            final(self).stats.elapsed_ms == old(self).stats.elapsed_ms,
            final(self).stats.current_upload_rate == old(self).stats.current_upload_rate,
            final(self).stats.current_download_rate == old(self).stats.current_download_rate,
            final(self).stats.average_upload_rate == old(self).stats.average_upload_rate,
            final(self).stats.average_download_rate == old(self).stats.average_download_rate,
            final(self).stats.upload_rate_history == old(self).stats.upload_rate_history,
            final(self).stats.download_rate_history == old(self).stats.download_rate_history,
            final(self).stats.ratio_history == old(self).stats.ratio_history,
            final(self).stats.history_timestamps == old(self).stats.history_timestamps,
            final(self).stats.last_announce_ms == old(self).stats.last_announce_ms,
            final(self).stats.next_announce_ms == old(self).stats.next_announce_ms,
            final(self).stats.announce_count == old(self).stats.announce_count,
    {
        match self.config.stop_at_uploaded {
            Some(t) => {
                self.stats.upload_progress_permille = progress_permille_exec(
                    self.stats.session_uploaded,
                    t,
                );
                if self.stats.average_upload_rate > 0 {
                    let remaining = sat_sub_exec(t, self.stats.session_uploaded);
                    self.stats.eta_uploaded_secs = Some(
                        remaining / 1024 / self.stats.average_upload_rate,
                    );
                } else {
                    self.stats.eta_uploaded_secs = None;
                }
            },
            None => {
                self.stats.upload_progress_permille = 0;
                self.stats.eta_uploaded_secs = None;
            },
        }
        match self.config.stop_at_downloaded {
            Some(t) => {
                self.stats.download_progress_permille = progress_permille_exec(
                    self.stats.session_downloaded,
                    t,
                );
            },
            None => {
                self.stats.download_progress_permille = 0;
            },
        }
        match self.config.stop_at_ratio_permille {
            Some(t) => {
                self.stats.ratio_progress_permille = progress_permille_exec(
                    self.stats.session_ratio_permille,
                    t,
                );
                if self.stats.average_upload_rate > 0 && self.torrent.total_size > 0 {
                    let goal = ratio_target_bytes_exec(t, self.torrent.total_size);
                    let remaining = sat_sub_exec(goal, self.stats.session_uploaded);
                    self.stats.eta_ratio_secs = Some(
                        remaining / 1024 / self.stats.average_upload_rate,
                    );
                } else {
                    self.stats.eta_ratio_secs = None;
                }
            },
            None => {
                self.stats.ratio_progress_permille = 0;
                self.stats.eta_ratio_secs = None;
            },
        }
        match self.config.stop_at_seed_time {
            Some(t) => {
                let elapsed_secs = self.stats.elapsed_ms / 1000;
                self.stats.seed_time_progress_permille = progress_permille_exec(elapsed_secs, t);
                self.stats.eta_seed_time_secs = Some(sat_sub_exec(t, elapsed_secs));
            },
            None => {
                self.stats.seed_time_progress_permille = 0;
                self.stats.eta_seed_time_secs = None;
            },
        }
        if self.stats.left > 0 && self.stats.average_download_rate > 0 {
            self.stats.eta_download_completion_secs = Some(
                self.stats.left / 1024 / self.stats.average_download_rate,
            );
        } else {
            self.stats.eta_download_completion_secs = None;
        }
    }

    /// Whether any stop target is reached, per `stop_met`.
    fn stop_conditions_met(&self) -> (r: bool)
        ensures
            r == stop_met(self.config, self.stats, self.torrent.total_size),
    {
        let size = self.torrent.total_size;
        match self.config.stop_at_ratio_permille {
            Some(t) => {
                if size == 0 {
                    if t <= 1 {
                        return true;
                    }
                } else {
                    proof {
                        assert(t * size <= u64::MAX * u64::MAX) by (nonlinear_arith)
                            requires
                                t <= u64::MAX,
                                size <= u64::MAX,
                        ;
                    }
                    let lhs: u128 = 1000 * (self.stats.session_uploaded as u128) + (size as u128);
                    let rhs: u128 = (t as u128) * (size as u128);
                    if lhs >= rhs {
                        return true;
                    }
                }
            },
            None => {},
        }
        match self.config.stop_at_uploaded {
            Some(t) => {
                if self.stats.session_uploaded >= t {
                    return true;
                }
            },
            None => {},
        }
        match self.config.stop_at_downloaded {
            Some(t) => {
                if self.stats.session_downloaded >= t {
                    return true;
                }
            },
            None => {},
        }
        match self.config.stop_at_seed_time {
            Some(t) => {
                if self.stats.elapsed_ms / 1000 >= t {
                    return true;
                }
            },
            None => {},
        }
        false
    }

    /// One tick's rate, transfer, derived-statistic and history work, per
    /// `tick_rel`.  Returns whether the torrent just reached completion.
    #[verifier::rlimit(80)]
    fn tick_core(&mut self, now_ms: u64) -> (completed: bool)
        requires
            old(self).wf(),
        ensures
            final(self).wf(),
            tick_rel(*old(self), *final(self), now_ms),
            final(self).stats.state == old(self).stats.state,
            completed == (old(self).stats.left > 0 && final(self).stats.left == 0),
    {
        let ghost pre = *self;
        let elapsed_ms: u64 = if now_ms >= self.last_update_ms {
            now_ms - self.last_update_ms
        } else {
            0
        };
        self.last_update_ms = now_ms;

        let esess = self.stats.elapsed_ms / 1000;
        let base_up = base_rate_exec(
            self.config.upload_rate,
            self.config.target_upload_rate,
            self.config.progressive_rates,
            esess,
            self.config.progressive_duration,
        );
        let base_down = base_rate_exec(
            self.config.download_rate,
            self.config.target_download_rate,
            self.config.progressive_rates,
            esess,
            self.config.progressive_duration,
        );
        let mut up: u64;
        let mut down: u64;
        if self.config.randomize_rates {
            let p = self.config.random_range_percent;
            let lo = 1000 - 10 * p;
            let hi = 1000 + 10 * p;
            let uf = crate::entropy::random_in_range(lo, hi);
            let df = crate::entropy::random_in_range(lo, hi);
            proof {
                assert(base_up * uf <= 2000000000000) by (nonlinear_arith)
                    requires
                        base_up <= 1000000000,
                        uf <= 2000,
                ;
                assert(base_down * df <= 2000000000000) by (nonlinear_arith)
                    requires
                        base_down <= 1000000000,
                        df <= 2000,
                ;
                assert(base_up * lo <= base_up * uf && base_up * uf <= base_up * hi)
                    by (nonlinear_arith)
                    requires
                        lo <= uf <= hi,
                        base_up >= 0,
                ;
                assert(base_down * lo <= base_down * df && base_down * df <= base_down * hi)
                    by (nonlinear_arith)
                    requires
                        lo <= df <= hi,
                        base_down >= 0,
                ;
            }
            up = base_up * uf / 1000;
            down = base_down * df / 1000;
        } else {
            up = base_up;
            down = base_down;
        }
        proof {
            assert(up <= 2000000000);
            assert(down <= 2000000000);
        }

        self.stats.is_idling = false;
        self.stats.idling_reason = None;
        if self.stats.left == 0 {
            down = 0;
        }
        if self.config.idle_when_no_leechers && self.stats.leechers == 0
            && self.stats.announce_count > 0 {
            up = 0;
            self.stats.is_idling = true;
            self.stats.idling_reason = Some(IdlingReason::NoLeechers);
        }
        if self.config.idle_when_no_seeders && self.stats.seeders == 0 && self.stats.left > 0
            && self.stats.announce_count > 0 {
            down = 0;
            if !self.stats.is_idling {
                self.stats.is_idling = true;
                self.stats.idling_reason = Some(IdlingReason::NoSeeders);
            }
        }
        self.stats.current_upload_rate = up;
        self.stats.current_download_rate = down;

        crate::stats::push_history(&mut self.stats.history_timestamps, now_ms);
        crate::stats::push_history(&mut self.stats.upload_rate_history, up);
        crate::stats::push_history(&mut self.stats.download_rate_history, down);

        let up_delta = delta_bytes_exec(up, elapsed_ms);
        let down_delta = delta_bytes_exec(down, elapsed_ms);
        self.stats.uploaded = sat_add_exec(self.stats.uploaded, up_delta);
        self.stats.session_uploaded = sat_add_exec(self.stats.session_uploaded, up_delta);
        let completed: bool;
        if self.stats.left > 0 {
            let actual = if down_delta < self.stats.left {
                down_delta
            } else {
                self.stats.left
            };
            self.stats.downloaded = self.stats.downloaded + actual;
            self.stats.session_downloaded = self.stats.session_downloaded + actual;
            self.stats.left = self.stats.left - actual;
            completed = self.stats.left == 0;
        } else {
            completed = false;
        }

        self.stats.ratio_permille = ratio_permille_exec(
            self.stats.uploaded,
            self.torrent.total_size,
        );
        crate::stats::push_history(&mut self.stats.ratio_history, self.stats.ratio_permille);
        self.stats.session_ratio_permille = ratio_permille_exec(
            self.stats.session_uploaded,
            self.torrent.total_size,
        );
        self.stats.elapsed_ms = if now_ms >= self.start_time_ms {
            now_ms - self.start_time_ms
        } else {
            0
        };
        self.stats.torrent_completion_permille = completion_permille_exec(
            self.torrent.total_size,
            self.stats.left,
        );
        let es = self.stats.elapsed_ms / 1000;
        if es > 0 {
            self.stats.average_upload_rate = self.stats.session_uploaded / 1024 / es;
            self.stats.average_download_rate = self.stats.session_downloaded / 1024 / es;
        }
        self.update_progress_and_eta();
        completed
    }

    /// The periodic tick: advances the transfer model, and asks the
    /// caller to send whichever announces fell due — `completed` when the
    /// torrent just finished, `stopped` when a stop target was reached
    /// (the state turns `Stopping`, to be settled by `complete_stop`),
    /// else the scheduled periodic announce once its time has come.
    #[verifier::rlimit(80)]
    pub fn update(&mut self, now_ms: u64) -> (r: UpdateActions)
        requires
            old(self).wf(),
        ensures
            final(self).wf(),
            tick_rel(*old(self), *final(self), now_ms),
            actions_rel(*old(self), *final(self), now_ms, r),
            final(self).stats.state == (if stop_met(final(self).config, final(self).stats, final(self).torrent.total_size)
                && old(self).stats.state != FakerState::Stopped {
                FakerState::Stopping
            } else {
                old(self).stats.state
            }),
    {
        let completed = self.tick_core(now_ms);
        let completed_req: Option<AnnounceRequest> = if completed {
            Some(self.announce_request(TrackerEvent::Completed))
        } else {
            None
        };
        if self.stop_conditions_met() {
            let ghost mid = *self;
            let stop_req = self.stop();
            proof {
                if mid.stats.state == FakerState::Stopped {
                    assert(same_but_state(mid, *self));
                }
                lemma_tick_rel_state_change(*old(self), mid, *self, now_ms);
            }
            return UpdateActions {
                completed: completed_req,
                stop: stop_req,
                periodic: None,
                scrape_due: false,
            };
        }
        let due = match self.stats.next_announce_ms {
            Some(t) => now_ms >= t,
            None => false,
        };
        let periodic: Option<AnnounceRequest> = if due {
            Some(self.announce_request(TrackerEvent::NoEvent))
        } else {
            None
        };
        UpdateActions { completed: completed_req, stop: stop_req_none(), periodic, scrape_due: false }
    }

    /// The statistics-only tick: the same transfer model, but never the
    /// periodic announce.  Instead it asks for a scrape once the scrape
    /// interval has passed, as long as scraping has not been found
    /// unsupported.
    #[verifier::rlimit(80)]
    pub fn update_stats_only(&mut self, now_ms: u64) -> (r: UpdateActions)
        requires
            old(self).wf(),
        ensures
            final(self).wf(),
            tick_rel(*old(self), *final(self), now_ms),
            r.periodic is None,
            r.scrape_due == (old(self).scrape_supported && elapsed_between(
                old(self).last_scrape_ms,
                now_ms,
            ) >= sat_mul(old(self).config.scrape_interval, 1000)),
            r.completed is Some <==> (old(self).stats.left > 0 && final(self).stats.left == 0),
            (r.completed matches Some(req) ==> req.event == TrackerEvent::Completed),
            ({
                let met = stop_met(final(self).config, final(self).stats, final(self).torrent.total_size);
                &&& (r.stop is Some <==> (met && old(self).stats.state != FakerState::Stopped))
                &&& (r.stop matches Some(req) ==> req.event == TrackerEvent::Stopped)
                &&& final(self).stats.state == (if met && old(self).stats.state
                    != FakerState::Stopped {
                    FakerState::Stopping
                } else {
                    old(self).stats.state
                })
            }),
    {
        let scrape_due = self.scrape_supported && {
            let since = if now_ms >= self.last_scrape_ms {
                now_ms - self.last_scrape_ms
            } else {
                0
            };
            since >= sat_mul_exec(self.config.scrape_interval, 1000)
        };
        let completed = self.tick_core(now_ms);
        let completed_req: Option<AnnounceRequest> = if completed {
            Some(self.announce_request(TrackerEvent::Completed))
        } else {
            None
        };
        if self.stop_conditions_met() {
            let ghost mid = *self;
            let stop_req = self.stop();
            proof {
                if mid.stats.state == FakerState::Stopped {
                    assert(same_but_state(mid, *self));
                }
                lemma_tick_rel_state_change(*old(self), mid, *self, now_ms);
            }
            return UpdateActions {
                completed: completed_req,
                stop: stop_req,
                periodic: None,
                scrape_due,
            };
        }
        UpdateActions { completed: completed_req, stop: stop_req_none(), periodic: None, scrape_due }
    }
}

/// No stop announce owed.
fn stop_req_none() -> (r: Option<AnnounceRequest>)
    ensures
        r is None,
{
    None
}

/// The held share in thousandths, matching `completion_permille_of`.
pub fn completion_permille_exec(size: u64, left: u64) -> (r: u64)
    requires
        left <= size,
    ensures
        r == completion_permille_of(size, left),
{
    if size == 0 {
        1000
    } else {
        let wide: u128 = ((size - left) as u128) * 1000 / (size as u128);
        proof {
            assert((size - left) * 1000 / (size as int) <= 1000) by (nonlinear_arith)
                requires
                    0 < size <= u64::MAX,
                    0 <= left <= size,
            ;
        }
        wide as u64
    }
}

} // verus!
