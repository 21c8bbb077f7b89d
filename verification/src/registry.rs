use vstd::prelude::*;
use vstd::string::*;

use crate::config::FakerConfig;
use crate::faker::{tick_rel, FakerError, RatioFaker, UpdateActions};
use crate::persist::InstanceSource;
use crate::protocol::AnnounceRequest;
use crate::stats::{same_stats, FakerState, FakerStats};
use crate::strutil::str_eq;
use crate::torrent::TorrentInfo;

verus! {

/// One registered session: the engine, the configuration as the user gave
/// it, the lifetime totals carried across engine re-creations, and the
/// entry's bookkeeping.
pub struct FakerInstance {
    pub id: String,
    pub faker: RatioFaker,
    pub config: FakerConfig,
    pub cumulative_uploaded: u64,
    pub cumulative_downloaded: u64,
    pub created_at: u64,
    pub source: InstanceSource,
    pub tags: Vec<String>,
}

/// The set of live sessions, keyed by instance id.  One entry per id; an
/// id outlives engine re-creation.
pub struct Registry {
    pub entries: Vec<FakerInstance>,
    /// The stock configuration new instances get, when one was chosen.
    pub default_config: Option<FakerConfig>,
}

/// Whether some entry carries this id.
pub open spec fn contains_id(s: Seq<FakerInstance>, id: Seq<char>) -> bool {
    exists|i: int| 0 <= i < s.len() && s[i].id@ == id
}

/// Whether an id is in the busy list.
pub open spec fn is_busy(id: Seq<char>, busy: Seq<String>) -> bool {
    exists|k: int| 0 <= k < busy.len() && busy[k]@ == id
}

/// A reached completion share cut into the configuration's room.
pub open spec fn clamp1000(c: u64) -> u32 {
    if c > 1000 {
        1000u32
    } else {
        c as u32
    }
}

/// The downloaded total an engine re-creation carries: the recorded
/// total, cut to the starting share the carried completion implies.
pub open spec fn carried_download(downloaded: u64, size: u64, completion: u32) -> u64 {
    if downloaded <= crate::faker::portion(size, completion as u64) {
        downloaded
    } else {
        crate::faker::portion(size, completion as u64) as u64
    }
}

/// Whether a scheduler pass ticks this entry: not held busy, and running.
pub open spec fn is_ticked(e: FakerInstance, busy: Seq<String>) -> bool {
    !is_busy(e.id@, busy) && e.faker.stats.state == FakerState::Running
}

/// How many entries a scheduler pass ticks.
pub open spec fn count_ticked(s: Seq<FakerInstance>, busy: Seq<String>) -> int
    decreases s.len(),
{
    if s.len() == 0 {
        0
    } else {
        count_ticked(s.drop_last(), busy) + if is_ticked(s.last(), busy) {
            1int
        } else {
            0int
        }
    }
}

/// Whether a session still owes the tracker a parting announce at
/// shutdown: it is starting, running or paused.
pub open spec fn is_active(e: FakerInstance) -> bool {
    ||| e.faker.stats.state == FakerState::Starting
    ||| e.faker.stats.state == FakerState::Running
    ||| e.faker.stats.state == FakerState::Paused
}

/// How many entries a shutdown pass stops.
pub open spec fn count_active(s: Seq<FakerInstance>) -> int
    decreases s.len(),
{
    if s.len() == 0 {
        0
    } else {
        count_active(s.drop_last()) + if is_active(s.last()) {
            1int
        } else {
            0int
        }
    }
}

/// How many snapshot instances carry a configuration in range, and so
/// can be restored.
pub open spec fn count_valid(s: Seq<crate::persist::PersistedInstance>) -> int
    decreases s.len(),
{
    if s.len() == 0 {
        0
    } else {
        count_valid(s.drop_last()) + if s.last().config.valid() {
            1int
        } else {
            0int
        }
    }
}

/// Whether a restored instance should be started again: it can be
/// restored and was recorded underway.
pub open spec fn wants_restart(p: crate::persist::PersistedInstance) -> bool {
    p.config.valid() && (p.state == FakerState::Starting || p.state == FakerState::Running)
}

/// The ids of the snapshot instances to start again, in snapshot order.
pub open spec fn startable_ids(s: Seq<crate::persist::PersistedInstance>) -> Seq<Seq<char>>
    decreases s.len(),
{
    if s.len() == 0 {
        Seq::<Seq<char>>::empty()
    } else {
        startable_ids(s.drop_last()) + if wants_restart(s.last()) {
            seq![s.last().id@]
        } else {
            Seq::<Seq<char>>::empty()
        }
    }
}

/// The character sequences of a list of strings, in order.
pub open spec fn string_views(v: Seq<String>) -> Seq<Seq<char>> {
    v.map_values(|x: String| x@)
}

/// The restorable count never exceeds the snapshot's size.
pub proof fn lemma_count_valid_bounds(s: Seq<crate::persist::PersistedInstance>)
    ensures
        0 <= count_valid(s) <= s.len(),
    decreases s.len(),
{
    if s.len() > 0 {
        lemma_count_valid_bounds(s.drop_last());
    }
}

/// What a restored entry holds: the engine fresh and `Stopped`, the
/// recorded lifetime totals as its starting point (the downloaded total
/// cut to the recorded starting share), and the entry bookkeeping as
/// recorded.
pub open spec fn restored_entry(e: FakerInstance, p: crate::persist::PersistedInstance) -> bool {
    &&& e.faker.stats.session_uploaded == 0
    &&& e.faker.stats.session_downloaded == 0
    &&& e.faker.stats.uploaded == p.cumulative_uploaded
    &&& e.faker.stats.state == FakerState::Stopped
    &&& e.cumulative_uploaded == p.cumulative_uploaded
    &&& e.cumulative_downloaded == carried_download(
        p.cumulative_downloaded,
        p.torrent.total_size,
        p.config.completion_permille,
    )
    &&& e.faker.stats.downloaded == e.cumulative_downloaded
    &&& e.created_at == p.created_at
    &&& e.source == p.source
    &&& same_tags(e.tags@, p.tags@)
}

/// Whether a batch outcome's failure list names this id.
pub open spec fn failed_lists(f: Seq<crate::api::GridActionError>, id: Seq<char>) -> bool {
    exists|m: int| 0 <= m < f.len() && f[m].id@ == id
}

/// Whether two tag lists hold the same tags in the same order.
pub open spec fn same_tags(a: Seq<String>, b: Seq<String>) -> bool {
    a.len() == b.len() && forall|t: int| 0 <= t < a.len() ==> a[t]@ == b[t]@
}

impl Registry {
    /// Every entry's engine keeps its accounting, and no two entries
    /// share an id.
    pub open spec fn wf(&self) -> bool {
        &&& forall|i: int| 0 <= i < self.entries@.len() ==> (#[trigger] self.entries@[i]).faker.wf()
        &&& forall|i: int, j: int|
            0 <= i < j < self.entries@.len() ==> self.entries@[i].id@ != self.entries@[j].id@
    }

    /// An empty registry.
    pub fn new() -> (r: Registry)
        ensures
            r.wf(),
            r.entries@.len() == 0,
            r.default_config is None,
    {
        Registry { entries: Vec::new(), default_config: None }
    }

    /// A fresh opaque instance identifier of ten characters.
    pub fn next_instance_id(&self) -> (r: String)
        ensures
            r@.len() == 10,
    {
        crate::entropy::random_id_of_len(10)
    }

    /// Where the entry with this id sits, if anywhere.
    pub fn find(&self, id: &str) -> (r: Option<usize>)
        ensures
            (match r {
                Some(i) => i < self.entries@.len() && self.entries@[i as int].id@ == id@,
                None => !contains_id(self.entries@, id@),
            }),
    {
        let mut i: usize = 0;
        while i < self.entries.len()
            invariant
                i <= self.entries@.len(),
                forall|j: int| 0 <= j < i ==> self.entries@[j].id@ != id@,
            decreases self.entries@.len() - i,
        {
            if str_eq(self.entries[i].id.as_str(), id) {
                return Some(i);
            }
            i += 1;
        }
        None
    }

    /// Whether an entry with this id exists.
    pub fn instance_exists(&self, id: &str) -> (r: bool)
        ensures
            r == contains_id(self.entries@, id@),
    {
        match self.find(id) {
            Some(_) => true,
            None => false,
        }
    }

    /// Registers (or re-creates) the session under `id`.  When the entry
    /// already exists for the same torrent, the lifetime totals, creation
    /// instant, source, tags and the reached completion carry over into
    /// the fresh engine, whose session counters start at zero; otherwise
    /// the entry starts from the given settings alone.
    pub fn create_instance(
        &mut self,
        id: &str,
        torrent: TorrentInfo,
        config: FakerConfig,
        tags: Vec<String>,
        source: InstanceSource,
        now_ms: u64,
    ) -> (r: Result<(), FakerError>)
        requires
            old(self).wf(),
        ensures
            final(self).wf(),
            r is Err ==> *final(self) == *old(self),
            r is Err ==> !config.valid(),
            config.valid() ==> r is Ok,
            r is Ok ==> contains_id(final(self).entries@, id@),
            r is Ok ==> exists|i: int|
                {
                    &&& 0 <= i < final(self).entries@.len()
                    &&& (#[trigger] final(self).entries@[i]).id@ == id@
                    &&& final(self).entries@[i].faker.stats.session_uploaded == 0
                    &&& final(self).entries@[i].faker.stats.session_downloaded == 0
                    &&& final(self).entries@[i].faker.stats.state == FakerState::Stopped
                    &&& final(self).entries@[i].faker.stats.uploaded == final(self).entries@[i].cumulative_uploaded
                    &&& final(self).entries@[i].faker.stats.downloaded == final(self).entries@[i].cumulative_downloaded
                },
            r is Ok && contains_id(old(self).entries@, id@) ==> exists|i: int|
                {
                    &&& 0 <= i < old(self).entries@.len()
                    &&& (#[trigger] old(self).entries@[i]).id@ == id@
                    &&& final(self).entries@.len() == old(self).entries@.len()
                    &&& final(self).entries@[i].id@ == id@
                    &&& (forall|j: int|
                        0 <= j < final(self).entries@.len() && j != i
                            ==> final(self).entries@[j] == old(self).entries@[j])
                    &&& (old(self).entries@[i].faker.torrent.info_hash@ == torrent.info_hash@
                        ==> {
                        &&& final(self).entries@[i].cumulative_uploaded == old(self).entries@[i].faker.stats.uploaded
                        &&& final(self).entries@[i].cumulative_downloaded == carried_download(
                            old(self).entries@[i].faker.stats.downloaded,
                            torrent.total_size,
                            clamp1000(
                                old(self).entries@[i].faker.stats.torrent_completion_permille,
                            ),
                        )
                        &&& final(self).entries@[i].created_at == old(self).entries@[i].created_at
                        &&& final(self).entries@[i].source == old(self).entries@[i].source
                        &&& same_tags(final(self).entries@[i].tags@, old(self).entries@[i].tags@)
                        &&& final(self).entries@[i].faker.config.completion_permille == clamp1000(
                            old(self).entries@[i].faker.stats.torrent_completion_permille,
                        )
                    })
                    &&& (old(self).entries@[i].faker.torrent.info_hash@ != torrent.info_hash@
                        ==> {
                        &&& final(self).entries@[i].cumulative_uploaded == 0
                        &&& final(self).entries@[i].cumulative_downloaded == 0
                        &&& final(self).entries@[i].created_at == now_ms
                        &&& final(self).entries@[i].source == source
                        &&& same_tags(final(self).entries@[i].tags@, tags@)
                        &&& final(self).entries@[i].faker.config.completion_permille
                            == config.completion_permille
                    })
                },
            r is Ok && !contains_id(old(self).entries@, id@) ==> {
                &&& final(self).entries@.len() == old(self).entries@.len() + 1
                &&& (forall|j: int|
                    0 <= j < old(self).entries@.len() ==> final(self).entries@[j] == old(self).entries@[j])
                &&& final(self).entries@[old(self).entries@.len() as int].id@ == id@
                &&& final(self).entries@[old(self).entries@.len() as int].cumulative_uploaded == 0
                &&& final(self).entries@[old(self).entries@.len() as int].cumulative_downloaded
                    == 0
                &&& final(self).entries@[old(self).entries@.len() as int].created_at == now_ms
                &&& final(self).entries@[old(self).entries@.len() as int].source == source
                &&& same_tags(
                    final(self).entries@[old(self).entries@.len() as int].tags@,
                    tags@,
                )
            },
    {
        let existing = self.find(id);
        let mut cumulative_uploaded: u64 = 0;
        let mut cumulative_downloaded: u64 = 0;
        let mut created_at: u64 = now_ms;
        let mut source_used: InstanceSource = source;
        let mut tags_used: Vec<String> = tags;
        let mut completion: u32 = config.completion_permille;
        match existing {
            Some(i) => {
                let same_hash = info_hash_eq(
                    &self.entries[i].faker.torrent.info_hash,
                    &torrent.info_hash,
                );
                if same_hash {
                    cumulative_uploaded = self.entries[i].faker.stats.uploaded;
                    cumulative_downloaded = self.entries[i].faker.stats.downloaded;
                    created_at = self.entries[i].created_at;
                    source_used = self.entries[i].source;
                    tags_used = clone_string_vec(&self.entries[i].tags);
                    let c = self.entries[i].faker.stats.torrent_completion_permille;
                    completion = if c > 1000 {
                        1000
                    } else {
                        c as u32
                    };
                }
            },
            None => {},
        }
        let mut faker_config = config.clone_config();
        faker_config.initial_uploaded = cumulative_uploaded;
        faker_config.completion_permille = completion;
        if !faker_config.is_valid() {
            return Err(FakerError::ConfigError(String::from_str("configuration out of range")));
        }
        let allowed = crate::faker::portion_exec(torrent.total_size, completion as u64);
        let carried_downloaded = if cumulative_downloaded <= allowed {
            cumulative_downloaded
        } else {
            allowed
        };
        faker_config.initial_downloaded = carried_downloaded;
        let faker = match RatioFaker::new(torrent, faker_config, now_ms) {
            Ok(f) => f,
            Err(e) => {
                return Err(e);
            },
        };
        let entry = FakerInstance {
            id: id.to_owned(),
            faker,
            config,
            cumulative_uploaded,
            cumulative_downloaded: carried_downloaded,
            created_at,
            source: source_used,
            tags: tags_used,
        };
        let ghost ge = entry;
        match existing {
            Some(i) => {
                self.entries.set(i, entry);
                proof {
                    assert(self.entries@[i as int].id@ == id@);
                }
            },
            None => {
                self.entries.push(entry);
                proof {
                    assert(self.entries@[self.entries@.len() - 1].id@ == id@);
                }
            },
        }
        Ok(())
    }

    /// A copy of an instance's live statistics.
    pub fn get_stats(&self, id: &str) -> (r: Result<FakerStats, FakerError>)
        requires
            self.wf(),
        ensures
            r is Ok <==> contains_id(self.entries@, id@),
            r matches Ok(st) ==> exists|i: int|
                0 <= i < self.entries@.len() && (#[trigger] self.entries@[i]).id@ == id@
                    && same_stats(st, self.entries@[i].faker.stats),
            r matches Err(e) ==> e is InvalidState,
    {
        match self.find(id) {
            Some(i) => Ok(self.entries[i].faker.get_stats()),
            None => Err(FakerError::InvalidState(String::from_str("instance not found"))),
        }
    }

    /// Opens an instance's session: its engine turns `Starting` with fresh
    /// session counters, and the `started` announce to send comes back.
    pub fn start_instance(&mut self, id: &str, now_ms: u64) -> (r: Result<
        AnnounceRequest,
        FakerError,
    >)
        requires
            old(self).wf(),
        ensures
            final(self).wf(),
            r is Ok <==> contains_id(old(self).entries@, id@),
            r is Err ==> *final(self) == *old(self),
            final(self).entries@.len() == old(self).entries@.len(),
            r matches Ok(req) ==> exists|i: int|
                {
                    &&& 0 <= i < final(self).entries@.len()
                    &&& (#[trigger] final(self).entries@[i]).id@ == id@
                    &&& final(self).entries@[i].faker.stats.state == FakerState::Starting
                    &&& final(self).entries@[i].faker.stats.session_uploaded == 0
                    &&& final(self).entries@[i].faker.stats.session_downloaded == 0
                    &&& final(self).entries@[i].faker.stats.uploaded == old(self).entries@[i].faker.stats.uploaded
                    &&& final(self).entries@[i].faker.stats.downloaded == old(self).entries@[i].faker.stats.downloaded
                    &&& final(self).entries@[i].faker.stats.left == old(self).entries@[i].faker.stats.left
                    &&& req.event == crate::protocol::TrackerEvent::Started
                    &&& req.info_hash == old(self).entries@[i].faker.torrent.info_hash
                    &&& req.uploaded == old(self).entries@[i].faker.stats.uploaded
                    &&& req.downloaded == old(self).entries@[i].faker.stats.downloaded
                    &&& req.left == old(self).entries@[i].faker.stats.left
                    &&& req.port == old(self).entries@[i].faker.config.port
                    &&& req.peer_id@ == old(self).entries@[i].faker.peer_id@
                    &&& forall|j: int|
                        0 <= j < final(self).entries@.len() && j != i
                            ==> final(self).entries@[j] == old(self).entries@[j]
                },
    {
        match self.find(id) {
            Some(i) => {
                let ghost pres = self.entries@;
                let mut entry = self.entries.remove(i);
                let req = entry.faker.start(now_ms);
                let ghost ge = entry;
                self.entries.insert(i, entry);
                proof {
                    lemma_remove_insert(pres, i as int, ge);
                }
                proof {
                    assert(final(self).entries@[i as int].id@ == id@);
                    assert(forall|j: int|
                        0 <= j < final(self).entries@.len() && j != i
                            ==> final(self).entries@[j] == old(self).entries@[j]);
                }
                Ok(req)
            },
            None => Err(FakerError::InvalidState(String::from_str("instance not found"))),
        }
    }

    /// Settles an instance's start with the tracker's answer (or its
    /// failure); the engine turns `Running` either way.
    pub fn complete_start_instance(
        &mut self,
        id: &str,
        now_ms: u64,
        outcome: Option<&crate::protocol::AnnounceResponse>,
    ) -> (r: Result<(), FakerError>)
        requires
            old(self).wf(),
        ensures
            final(self).wf(),
            r is Ok <==> contains_id(old(self).entries@, id@),
            r is Err ==> *final(self) == *old(self),
            final(self).entries@.len() == old(self).entries@.len(),
            r is Ok ==> exists|i: int|
                {
                    &&& 0 <= i < final(self).entries@.len()
                    &&& (#[trigger] final(self).entries@[i]).id@ == id@
                    &&& final(self).entries@[i].faker.stats.state == FakerState::Running
                    &&& (match outcome {
                        Some(resp) => {
                            &&& final(self).entries@[i].faker.announce_interval_secs
                                == resp.interval as u64
                            &&& final(self).entries@[i].faker.stats.seeders == resp.complete
                            &&& final(self).entries@[i].faker.stats.leechers == resp.incomplete
                            &&& final(self).entries@[i].faker.stats.last_announce_ms == Some(
                                now_ms,
                            )
                            &&& final(self).entries@[i].faker.stats.next_announce_ms == Some(
                                crate::arith::sat_add(
                                    now_ms,
                                    crate::arith::sat_mul(resp.interval as u64, 1000),
                                ),
                            )
                        },
                        None => {
                            &&& final(self).entries@[i].faker.stats.next_announce_ms == Some(
                                crate::arith::sat_add(now_ms, 30000),
                            )
                            &&& final(self).entries@[i].faker.stats.seeders == old(
                                self,
                            ).entries@[i].faker.stats.seeders
                            &&& final(self).entries@[i].faker.stats.leechers == old(
                                self,
                            ).entries@[i].faker.stats.leechers
                        },
                    })
                    &&& forall|j: int|
                        0 <= j < final(self).entries@.len() && j != i
                            ==> final(self).entries@[j] == old(self).entries@[j]
                },
    {
        match self.find(id) {
            Some(i) => {
                let ghost pres = self.entries@;
                let mut entry = self.entries.remove(i);
                entry.faker.complete_start(now_ms, outcome);
                let ghost ge = entry;
                self.entries.insert(i, entry);
                proof {
                    lemma_remove_insert(pres, i as int, ge);
                }
                Ok(())
            },
            None => Err(FakerError::InvalidState(String::from_str("instance not found"))),
        }
    }

    /// Begins closing an instance's session; hands back the `stopped`
    /// announce to send, or nothing when the engine was already stopped.
    pub fn stop_instance(&mut self, id: &str) -> (r: Result<Option<AnnounceRequest>, FakerError>)
        requires
            old(self).wf(),
        ensures
            final(self).wf(),
            r is Ok <==> contains_id(old(self).entries@, id@),
            r is Err ==> *final(self) == *old(self),
            final(self).entries@.len() == old(self).entries@.len(),
            r matches Ok(req) ==> exists|i: int|
                {
                    &&& 0 <= i < final(self).entries@.len()
                    &&& (#[trigger] final(self).entries@[i]).id@ == id@
                    &&& (req is Some <==> old(self).entries@[i].faker.stats.state
                        != FakerState::Stopped)
                    &&& (req matches Some(q) ==> q.event == crate::protocol::TrackerEvent::Stopped
                        && q.uploaded == old(self).entries@[i].faker.stats.uploaded
                        && q.downloaded == old(self).entries@[i].faker.stats.downloaded
                        && q.left == old(self).entries@[i].faker.stats.left)
                    &&& (old(self).entries@[i].faker.stats.state == FakerState::Stopped
                        ==> final(self).entries@[i].faker == old(self).entries@[i].faker)
                    &&& (old(self).entries@[i].faker.stats.state != FakerState::Stopped ==> final(self).entries@[i].faker.stats.state == FakerState::Stopping)
                    &&& forall|j: int|
                        0 <= j < final(self).entries@.len() && j != i
                            ==> final(self).entries@[j] == old(self).entries@[j]
                },
    {
        match self.find(id) {
            Some(i) => {
                let ghost pres = self.entries@;
                let mut entry = self.entries.remove(i);
                let req = entry.faker.stop();
                let ghost ge = entry;
                self.entries.insert(i, entry);
                proof {
                    lemma_remove_insert(pres, i as int, ge);
                }
                Ok(req)
            },
            None => Err(FakerError::InvalidState(String::from_str("instance not found"))),
        }
    }

    /// Settles an instance's stop: the engine turns `Stopped` whatever
    /// came of the announce, and the entry's lifetime totals take the
    /// engine's final counters.
    pub fn complete_stop_instance(&mut self, id: &str, announce_ok: bool) -> (r: Result<
        (),
        FakerError,
    >)
        requires
            old(self).wf(),
        ensures
            final(self).wf(),
            r is Ok <==> contains_id(old(self).entries@, id@),
            r is Err ==> *final(self) == *old(self),
            final(self).entries@.len() == old(self).entries@.len(),
            r is Ok ==> exists|i: int|
                {
                    &&& 0 <= i < final(self).entries@.len()
                    &&& (#[trigger] final(self).entries@[i]).id@ == id@
                    &&& final(self).entries@[i].faker.stats.state == FakerState::Stopped
                    &&& final(self).entries@[i].cumulative_uploaded == final(self).entries@[i].faker.stats.uploaded
                    &&& final(self).entries@[i].cumulative_downloaded == final(self).entries@[i].faker.stats.downloaded
                    &&& forall|j: int|
                        0 <= j < final(self).entries@.len() && j != i
                            ==> final(self).entries@[j] == old(self).entries@[j]
                },
    {
        match self.find(id) {
            Some(i) => {
                let ghost pres = self.entries@;
                let mut entry = self.entries.remove(i);
                entry.faker.complete_stop(announce_ok);
                entry.cumulative_uploaded = entry.faker.stats.uploaded;
                entry.cumulative_downloaded = entry.faker.stats.downloaded;
                let ghost ge = entry;
                self.entries.insert(i, entry);
                proof {
                    lemma_remove_insert(pres, i as int, ge);
                }
                Ok(())
            },
            None => Err(FakerError::InvalidState(String::from_str("instance not found"))),
        }
    }

    /// Pauses an instance without contacting the tracker.
    pub fn pause_instance(&mut self, id: &str) -> (r: Result<(), FakerError>)
        requires
            old(self).wf(),
        ensures
            final(self).wf(),
            r is Ok <==> contains_id(old(self).entries@, id@),
            r is Err ==> *final(self) == *old(self),
            final(self).entries@.len() == old(self).entries@.len(),
            r is Ok ==> exists|i: int|
                {
                    &&& 0 <= i < final(self).entries@.len()
                    &&& (#[trigger] final(self).entries@[i]).id@ == id@
                    &&& final(self).entries@[i].faker.stats.state == FakerState::Paused
                    &&& !final(self).entries@[i].faker.stats.is_idling
                    &&& forall|j: int|
                        0 <= j < final(self).entries@.len() && j != i
                            ==> final(self).entries@[j] == old(self).entries@[j]
                },
    {
        match self.find(id) {
            Some(i) => {
                let ghost pres = self.entries@;
                let mut entry = self.entries.remove(i);
                entry.faker.pause();
                let ghost ge = entry;
                self.entries.insert(i, entry);
                proof {
                    lemma_remove_insert(pres, i as int, ge);
                }
                Ok(())
            },
            None => Err(FakerError::InvalidState(String::from_str("instance not found"))),
        }
    }

    /// Resumes an instance; the engine's last-update instant moves to now
    /// so the next tick applies no stale elapsed time.
    pub fn resume_instance(&mut self, id: &str, now_ms: u64) -> (r: Result<(), FakerError>)
        requires
            old(self).wf(),
        ensures
            final(self).wf(),
            r is Ok <==> contains_id(old(self).entries@, id@),
            r is Err ==> *final(self) == *old(self),
            final(self).entries@.len() == old(self).entries@.len(),
            r is Ok ==> exists|i: int|
                {
                    &&& 0 <= i < final(self).entries@.len()
                    &&& (#[trigger] final(self).entries@[i]).id@ == id@
                    &&& final(self).entries@[i].faker.stats.state == FakerState::Running
                    &&& final(self).entries@[i].faker.last_update_ms == now_ms
                    &&& forall|j: int|
                        0 <= j < final(self).entries@.len() && j != i
                            ==> final(self).entries@[j] == old(self).entries@[j]
                },
    {
        match self.find(id) {
            Some(i) => {
                let ghost pres = self.entries@;
                let mut entry = self.entries.remove(i);
                entry.faker.resume(now_ms);
                let ghost ge = entry;
                self.entries.insert(i, entry);
                proof {
                    lemma_remove_insert(pres, i as int, ge);
                }
                Ok(())
            },
            None => Err(FakerError::InvalidState(String::from_str("instance not found"))),
        }
    }

    /// Ticks one instance, handing back what the tick asks the caller to
    /// send.
    pub fn update_instance(&mut self, id: &str, now_ms: u64) -> (r: Result<
        UpdateActions,
        FakerError,
    >)
        requires
            old(self).wf(),
        ensures
            final(self).wf(),
            r is Ok <==> contains_id(old(self).entries@, id@),
            r is Err ==> *final(self) == *old(self),
            final(self).entries@.len() == old(self).entries@.len(),
            r matches Ok(actions) ==> exists|i: int|
                {
                    &&& 0 <= i < final(self).entries@.len()
                    &&& (#[trigger] final(self).entries@[i]).id@ == id@
                    &&& tick_rel(
                        old(self).entries@[i].faker,
                        final(self).entries@[i].faker,
                        now_ms,
                    )
                    &&& crate::faker::actions_rel(
                        old(self).entries@[i].faker,
                        final(self).entries@[i].faker,
                        now_ms,
                        actions,
                    )
                    &&& final(self).entries@[i].faker.last_update_ms == now_ms
                    &&& forall|j: int|
                        0 <= j < final(self).entries@.len() && j != i
                            ==> final(self).entries@[j] == old(self).entries@[j]
                },
    {
        match self.find(id) {
            Some(i) => {
                let ghost pres = self.entries@;
                let mut entry = self.entries.remove(i);
                let actions = entry.faker.update(now_ms);
                let ghost ge = entry;
                self.entries.insert(i, entry);
                proof {
                    lemma_remove_insert(pres, i as int, ge);
                }
                Ok(actions)
            },
            None => Err(FakerError::InvalidState(String::from_str("instance not found"))),
        }
    }

    /// One scheduler pass: every entry whose id is not in the busy list
    /// and whose engine is `Running` is ticked; a busy or non-running
    /// entry is left exactly as it was, to be seen again next pass.  What
    /// each ticked instance asks the caller to send comes back labelled
    /// with its id.
    pub fn scheduler_tick(&mut self, now_ms: u64, busy: &Vec<String>) -> (r: Vec<
        (String, UpdateActions),
    >)
        requires
            old(self).wf(),
        ensures
            final(self).wf(),
            final(self).entries@.len() == old(self).entries@.len(),
            forall|i: int|
                0 <= i < final(self).entries@.len() ==> (#[trigger] final(self).entries@[i]).id@
                    == old(self).entries@[i].id@,
            forall|i: int|
                0 <= i < final(self).entries@.len() && (is_busy(old(self).entries@[i].id@, busy@)
                    || old(self).entries@[i].faker.stats.state != FakerState::Running) ==> final(self).entries@[i] == old(self).entries@[i],
            forall|i: int|
                0 <= i < final(self).entries@.len() && !is_busy(
                    (#[trigger] old(self).entries@[i]).id@,
                    busy@,
                ) && old(self).entries@[i].faker.stats.state == FakerState::Running ==> {
                    &&& final(self).entries@[i].faker.last_update_ms == now_ms
                    &&& tick_rel(
                        old(self).entries@[i].faker,
                        final(self).entries@[i].faker,
                        now_ms,
                    )
                },
            r@.len() == count_ticked(old(self).entries@, busy@),
            forall|k: int|
                0 <= k < r@.len() ==> contains_id(old(self).entries@, (#[trigger] r@[k]).0@),
            forall|k: int, i: int|
                0 <= k < r@.len() && 0 <= i < old(self).entries@.len() && (#[trigger] old(
                    self,
                ).entries@[i]).id@ == (#[trigger] r@[k]).0@ ==> {
                    &&& is_ticked(old(self).entries@[i], busy@)
                    &&& crate::faker::actions_rel(
                        old(self).entries@[i].faker,
                        final(self).entries@[i].faker,
                        now_ms,
                        r@[k].1,
                    )
                },
    {
        let mut r: Vec<(String, UpdateActions)> = Vec::new();
        let ghost mut idxs: Seq<int> = Seq::<int>::empty();
        let mut i: usize = 0;
        while i < self.entries.len()
            invariant
                old(self).wf(),
                self.wf(),
                i <= self.entries@.len(),
                self.entries@.len() == old(self).entries@.len(),
                forall|j: int|
                    i <= j < self.entries@.len() ==> self.entries@[j] == old(self).entries@[j],
                forall|j: int|
                    0 <= j < self.entries@.len() ==> (#[trigger] self.entries@[j]).id@ == old(self).entries@[j].id@,
                forall|j: int|
                    0 <= j < i && (is_busy(old(self).entries@[j].id@, busy@) || old(self).entries@[j].faker.stats.state != FakerState::Running)
                        ==> self.entries@[j] == old(self).entries@[j],
                forall|j: int|
                    0 <= j < i && !is_busy((#[trigger] old(self).entries@[j]).id@, busy@) && old(self).entries@[j].faker.stats.state == FakerState::Running ==> {
                        &&& self.entries@[j].faker.last_update_ms == now_ms
                        &&& tick_rel(old(self).entries@[j].faker, self.entries@[j].faker, now_ms)
                    },
                r@.len() == count_ticked(old(self).entries@.take(i as int), busy@),
                idxs.len() == r@.len(),
                forall|k: int| 0 <= k < r@.len() ==> 0 <= (#[trigger] idxs[k]) < i,
                forall|k: int|
                    0 <= k < r@.len() ==> (#[trigger] r@[k]).0@ == old(self).entries@[idxs[k]].id@,
                forall|k: int|
                    0 <= k < r@.len() ==> is_ticked(
                        old(self).entries@[(#[trigger] idxs[k])],
                        busy@,
                    ),
                forall|k: int|
                    0 <= k < r@.len() ==> crate::faker::actions_rel(
                        old(self).entries@[idxs[k]].faker,
                        self.entries@[idxs[k]].faker,
                        now_ms,
                        (#[trigger] r@[k]).1,
                    ),
            decreases self.entries@.len() - i,
        {
            let busy_here = id_in_list(self.entries[i].id.as_str(), busy);
            proof {
                assert(old(self).entries@.take(i + 1).drop_last() =~= old(self).entries@.take(
                    i as int,
                ));
                assert(old(self).entries@.take(i + 1).last() == old(self).entries@[i as int]);
            }
            if !busy_here && matches!(self.entries[i].faker.stats.state, FakerState::Running) {
                let ghost pres = self.entries@;
                let mut entry = self.entries.remove(i);
                let actions = entry.faker.update(now_ms);
                let label = entry.id.clone();
                let ghost ge = entry;
                self.entries.insert(i, entry);
                proof {
                    lemma_remove_insert(pres, i as int, ge);
                }
                let ghost pres_r = r@;
                let ghost pres_idxs = idxs;
                r.push((label, actions));
                proof {
                    idxs = idxs.push(i as int);
                    assert(idxs[idxs.len() - 1] == i as int);
                    assert((#[trigger] r@[r@.len() - 1]).0@ == old(self).entries@[i as int].id@);
                    assert(is_ticked(old(self).entries@[i as int], busy@));
                    assert(crate::faker::actions_rel(
                        old(self).entries@[i as int].faker,
                        self.entries@[i as int].faker,
                        now_ms,
                        actions,
                    ));
                    assert forall|k: int| 0 <= k < r@.len() implies {
                        &&& 0 <= idxs[k] < i + 1
                        &&& (#[trigger] r@[k]).0@ == old(self).entries@[idxs[k]].id@
                        &&& is_ticked(old(self).entries@[idxs[k]], busy@)
                        &&& crate::faker::actions_rel(
                            old(self).entries@[idxs[k]].faker,
                            self.entries@[idxs[k]].faker,
                            now_ms,
                            r@[k].1,
                        )
                    } by {
                        if k < r@.len() - 1 {
                            assert(r@[k] == (#[trigger] pres_r[k]));
                            assert(idxs[k] == pres_idxs[k]);
                            assert(0 <= pres_idxs[k] < i);
                            assert(self.entries@[pres_idxs[k]] == pres[pres_idxs[k]]);
                        }
                    }
                }
            }
            i += 1;
        }
        proof {
            assert(old(self).entries@.take(old(self).entries@.len() as int) =~= old(
                self,
            ).entries@);
            assert forall|k: int| 0 <= k < r@.len() implies contains_id(
                old(self).entries@,
                (#[trigger] r@[k]).0@,
            ) by {
                assert(old(self).entries@[idxs[k]].id@ == r@[k].0@);
            }
            assert forall|k: int, i2: int|
                0 <= k < r@.len() && 0 <= i2 < old(self).entries@.len() && (#[trigger] old(
                    self,
                ).entries@[i2]).id@ == (#[trigger] r@[k]).0@ implies {
                &&& is_ticked(old(self).entries@[i2], busy@)
                &&& crate::faker::actions_rel(
                    old(self).entries@[i2].faker,
                    self.entries@[i2].faker,
                    now_ms,
                    r@[k].1,
                )
            } by {
                let ii = idxs[k];
                if i2 != ii {
                    if i2 < ii {
                        assert(old(self).entries@[i2].id@ != old(self).entries@[ii].id@);
                    } else {
                        assert(old(self).entries@[ii].id@ != old(self).entries@[i2].id@);
                    }
                }
                assert(i2 == ii);
            }
        }
        r
    }

    /// Removes an instance; hands back the best-effort `stopped` announce
    /// when its engine was not already stopped.  Removing an unknown id
    /// changes nothing.
    pub fn delete_instance(&mut self, id: &str) -> (r: Option<AnnounceRequest>)
        requires
            old(self).wf(),
        ensures
            final(self).wf(),
            !contains_id(final(self).entries@, id@),
            !contains_id(old(self).entries@, id@) ==> *final(self) == *old(self) && r is None,
            contains_id(old(self).entries@, id@) ==> exists|i: int|
                {
                    &&& 0 <= i < old(self).entries@.len()
                    &&& (#[trigger] old(self).entries@[i]).id@ == id@
                    &&& final(self).entries@ == old(self).entries@.remove(i)
                    &&& (r is Some <==> old(self).entries@[i].faker.stats.state
                        != FakerState::Stopped)
                    &&& (r matches Some(req) ==> req.event == crate::protocol::TrackerEvent::Stopped
                        && req.uploaded == old(self).entries@[i].faker.stats.uploaded
                        && req.downloaded == old(self).entries@[i].faker.stats.downloaded
                        && req.left == old(self).entries@[i].faker.stats.left)
                },
            forall|j: int|
                0 <= j < final(self).entries@.len() ==> contains_id(
                    old(self).entries@,
                    (#[trigger] final(self).entries@[j]).id@,
                ),
            final(self).default_config == old(self).default_config,
    {
        match self.find(id) {
            Some(i) => {
                let ghost pres = self.entries@;
                let mut entry = self.entries.remove(i);
                let req = entry.faker.stop();
                proof {
                    assert(forall|j: int|
                        0 <= j < final(self).entries@.len() ==> final(self).entries@[j] == (if j
                            < i {
                            old(self).entries@[j]
                        } else {
                            old(self).entries@[j + 1]
                        }));
                    assert forall|j: int| 0 <= j < final(self).entries@.len() implies (
                    #[trigger] final(self).entries@[j]).id@ != id@ by {
                        if j < i {
                            assert(old(self).entries@[j].id@ != old(self).entries@[i as int].id@);
                        } else {
                            assert(old(self).entries@[j + 1].id@ != old(self).entries@[i as int].id@);
                        }
                    }
                }
                req
            },
            None => None,
        }
    }

    /// Replaces an instance's tag list.
    pub fn update_instance_tags(&mut self, id: &str, tags: Vec<String>) -> (r: Result<
        (),
        FakerError,
    >)
        requires
            old(self).wf(),
        ensures
            final(self).wf(),
            r is Ok <==> contains_id(old(self).entries@, id@),
            r is Err ==> *final(self) == *old(self),
            r is Ok ==> exists|i: int|
                {
                    &&& 0 <= i < final(self).entries@.len()
                    &&& (#[trigger] final(self).entries@[i]).id@ == id@
                    &&& final(self).entries@[i].tags == tags
                    &&& final(self).entries@[i].faker == old(self).entries@[i].faker
                    &&& forall|j: int|
                        0 <= j < final(self).entries@.len() && j != i
                            ==> final(self).entries@[j] == old(self).entries@[j]
                },
    {
        match self.find(id) {
            Some(i) => {
                let ghost pres = self.entries@;
                let mut entry = self.entries.remove(i);
                entry.tags = tags;
                let ghost ge = entry;
                self.entries.insert(i, entry);
                proof {
                    lemma_remove_insert(pres, i as int, ge);
                }
                Ok(())
            },
            None => Err(FakerError::InvalidState(String::from_str("instance not found"))),
        }
    }

    /// The id of the instance emulating the torrent with this identifier.
    pub fn find_instance_by_info_hash(&self, info_hash: &[u8; 20]) -> (r: Option<String>)
        ensures
            (match r {
                Some(id) => exists|i: int|
                    0 <= i < self.entries@.len() && (#[trigger] self.entries@[i]).id@ == id@
                        && self.entries@[i].faker.torrent.info_hash@ == info_hash@,
                None => forall|i: int|
                    0 <= i < self.entries@.len() ==> (
                    #[trigger] self.entries@[i]).faker.torrent.info_hash@ != info_hash@,
            }),
    {
        let mut i: usize = 0;
        while i < self.entries.len()
            invariant
                i <= self.entries@.len(),
                forall|j: int|
                    0 <= j < i ==> (#[trigger] self.entries@[j]).faker.torrent.info_hash@
                        != info_hash@,
            decreases self.entries@.len() - i,
        {
            if info_hash_eq(&self.entries[i].faker.torrent.info_hash, info_hash) {
                return Some(self.entries[i].id.clone());
            }
            i += 1;
        }
        None
    }

    /// Begins closing every session still `Starting`, `Running` or
    /// `Paused`, for process shutdown: each such engine turns `Stopping`
    /// and its best-effort `stopped` announce comes back labelled with
    /// its id.
    pub fn shutdown_all(&mut self) -> (r: Vec<(String, AnnounceRequest)>)
        requires
            old(self).wf(),
        ensures
            final(self).wf(),
            final(self).entries@.len() == old(self).entries@.len(),
            forall|i: int|
                0 <= i < final(self).entries@.len() ==> (#[trigger] final(self).entries@[i]).id@
                    == old(self).entries@[i].id@,
            forall|i: int|
                0 <= i < final(self).entries@.len() && (old(self).entries@[i].faker.stats.state
                    == FakerState::Starting || old(self).entries@[i].faker.stats.state
                    == FakerState::Running || old(self).entries@[i].faker.stats.state
                    == FakerState::Paused) ==> (#[trigger] final(self).entries@[i]).faker.stats.state == FakerState::Stopping,
            forall|i: int|
                0 <= i < final(self).entries@.len() && !(old(self).entries@[i].faker.stats.state
                    == FakerState::Starting || old(self).entries@[i].faker.stats.state
                    == FakerState::Running || old(self).entries@[i].faker.stats.state
                    == FakerState::Paused) ==> #[trigger] final(self).entries@[i] == old(self).entries@[i],
            r@.len() == count_active(old(self).entries@),
            forall|k: int|
                0 <= k < r@.len() ==> contains_id(old(self).entries@, (#[trigger] r@[k]).0@),
            forall|k: int, i: int|
                0 <= k < r@.len() && 0 <= i < old(self).entries@.len() && (#[trigger] old(
                    self,
                ).entries@[i]).id@ == (#[trigger] r@[k]).0@ ==> {
                    &&& is_active(old(self).entries@[i])
                    &&& r@[k].1.event == crate::protocol::TrackerEvent::Stopped
                    &&& r@[k].1.uploaded == old(self).entries@[i].faker.stats.uploaded
                    &&& r@[k].1.downloaded == old(self).entries@[i].faker.stats.downloaded
                    &&& r@[k].1.left == old(self).entries@[i].faker.stats.left
                },
    {
        let mut r: Vec<(String, AnnounceRequest)> = Vec::new();
        let ghost mut idxs: Seq<int> = Seq::<int>::empty();
        let mut i: usize = 0;
        while i < self.entries.len()
            invariant
                old(self).wf(),
                self.wf(),
                i <= self.entries@.len(),
                self.entries@.len() == old(self).entries@.len(),
                forall|j: int|
                    i <= j < self.entries@.len() ==> self.entries@[j] == old(self).entries@[j],
                forall|j: int|
                    0 <= j < self.entries@.len() ==> (#[trigger] self.entries@[j]).id@ == old(self).entries@[j].id@,
                forall|j: int|
                    0 <= j < i && (old(self).entries@[j].faker.stats.state == FakerState::Starting
                        || old(self).entries@[j].faker.stats.state == FakerState::Running || old(self).entries@[j].faker.stats.state == FakerState::Paused) ==> (#[trigger] self.entries@[j]).faker.stats.state
                        == FakerState::Stopping,
                forall|j: int|
                    0 <= j < i && !(old(self).entries@[j].faker.stats.state
                        == FakerState::Starting || old(self).entries@[j].faker.stats.state
                        == FakerState::Running || old(self).entries@[j].faker.stats.state
                        == FakerState::Paused) ==> #[trigger] self.entries@[j] == old(self).entries@[j],
                r@.len() == count_active(old(self).entries@.take(i as int)),
                idxs.len() == r@.len(),
                forall|k: int| 0 <= k < r@.len() ==> 0 <= (#[trigger] idxs[k]) < i,
                forall|k: int|
                    0 <= k < r@.len() ==> (#[trigger] r@[k]).0@ == old(self).entries@[idxs[k]].id@,
                forall|k: int|
                    0 <= k < r@.len() ==> is_active(old(self).entries@[(#[trigger] idxs[k])]),
                forall|k: int|
                    0 <= k < r@.len() ==> {
                        &&& (#[trigger] r@[k]).1.event == crate::protocol::TrackerEvent::Stopped
                        &&& r@[k].1.uploaded == old(self).entries@[idxs[k]].faker.stats.uploaded
                        &&& r@[k].1.downloaded == old(
                            self,
                        ).entries@[idxs[k]].faker.stats.downloaded
                        &&& r@[k].1.left == old(self).entries@[idxs[k]].faker.stats.left
                    },
            decreases self.entries@.len() - i,
        {
            proof {
                assert(old(self).entries@.take(i + 1).drop_last() =~= old(self).entries@.take(
                    i as int,
                ));
                assert(old(self).entries@.take(i + 1).last() == old(self).entries@[i as int]);
            }
            let state = self.entries[i].faker.stats.state;
            let wants_stop = matches!(state, FakerState::Starting) || matches!(
                state,
                FakerState::Running,
            ) || matches!(state, FakerState::Paused);
            if wants_stop {
                let ghost pres = self.entries@;
                let mut entry = self.entries.remove(i);
                let req = entry.faker.stop();
                let label = entry.id.clone();
                let ghost ge = entry;
                self.entries.insert(i, entry);
                proof {
                    lemma_remove_insert(pres, i as int, ge);
                }
                match req {
                    Some(q) => {
                        r.push((label, q));
                        proof {
                            idxs = idxs.push(i as int);
                            assert(idxs[idxs.len() - 1] == i as int);
                            assert((#[trigger] r@[r@.len() - 1]).0@ == old(
                                self,
                            ).entries@[i as int].id@);
                        }
                    },
                    None => {
                        proof {
                            assert(false);
                        }
                    },
                }
            }
            i += 1;
        }
        proof {
            assert(old(self).entries@.take(old(self).entries@.len() as int) =~= old(
                self,
            ).entries@);
            assert forall|k: int| 0 <= k < r@.len() implies contains_id(
                old(self).entries@,
                (#[trigger] r@[k]).0@,
            ) by {
                assert(old(self).entries@[idxs[k]].id@ == r@[k].0@);
            }
            assert forall|k: int, i2: int|
                0 <= k < r@.len() && 0 <= i2 < old(self).entries@.len() && (#[trigger] old(
                    self,
                ).entries@[i2]).id@ == (#[trigger] r@[k]).0@ implies {
                &&& is_active(old(self).entries@[i2])
                &&& r@[k].1.event == crate::protocol::TrackerEvent::Stopped
                &&& r@[k].1.uploaded == old(self).entries@[i2].faker.stats.uploaded
                &&& r@[k].1.downloaded == old(self).entries@[i2].faker.stats.downloaded
                &&& r@[k].1.left == old(self).entries@[i2].faker.stats.left
            } by {
                let ii = idxs[k];
                if i2 != ii {
                    if i2 < ii {
                        assert(old(self).entries@[i2].id@ != old(self).entries@[ii].id@);
                    } else {
                        assert(old(self).entries@[ii].id@ != old(self).entries@[i2].id@);
                    }
                }
                assert(i2 == ii);
            }
        }
        r
    }
}

/// One instance as the listing endpoints hand it out.
pub struct InstanceInfo {
    pub id: String,
    pub torrent: TorrentInfo,
    pub config: FakerConfig,
    pub stats: FakerStats,
    pub created_at: u64,
    pub source: InstanceSource,
    pub tags: Vec<String>,
}

/// The label a summary shows for an instance's origin.
pub open spec fn source_label_chars(s: InstanceSource) -> Seq<char> {
    match s {
        InstanceSource::Manual => "manual"@,
        InstanceSource::WatchFolder => "watch_folder"@,
    }
}

/// The summary label of an instance's origin, per `source_label_chars`.
pub fn source_label(s: InstanceSource) -> (r: String)
    ensures
        r@ == source_label_chars(s),
{
    match s {
        InstanceSource::Manual => String::from_str("manual"),
        InstanceSource::WatchFolder => String::from_str("watch_folder"),
    }
}

impl Registry {
    /// Every instance with its settings and live statistics.
    pub fn list_instances(&self) -> (r: Vec<InstanceInfo>)
        ensures
            r@.len() == self.entries@.len(),
            forall|i: int|
                0 <= i < r@.len() ==> {
                    &&& (#[trigger] r@[i]).id@ == self.entries@[i].id@
                    &&& same_stats(r@[i].stats, self.entries@[i].faker.stats)
                    &&& r@[i].created_at == self.entries@[i].created_at
                    &&& r@[i].source == self.entries@[i].source
                    &&& r@[i].torrent.total_size == self.entries@[i].faker.torrent.total_size
                },
    {
        let mut r: Vec<InstanceInfo> = Vec::new();
        let mut i: usize = 0;
        while i < self.entries.len()
            invariant
                i <= self.entries@.len(),
                r@.len() == i,
                forall|j: int|
                    0 <= j < i ==> {
                        &&& (#[trigger] r@[j]).id@ == self.entries@[j].id@
                        &&& same_stats(r@[j].stats, self.entries@[j].faker.stats)
                        &&& r@[j].created_at == self.entries@[j].created_at
                        &&& r@[j].source == self.entries@[j].source
                        &&& r@[j].torrent.total_size == self.entries@[j].faker.torrent.total_size
                    },
            decreases self.entries@.len() - i,
        {
            let e = &self.entries[i];
            let info = InstanceInfo {
                id: e.id.clone(),
                torrent: e.faker.torrent.snapshot(),
                config: e.config.clone_config(),
                stats: e.faker.get_stats(),
                created_at: e.created_at,
                source: e.source,
                tags: clone_string_vec(&e.tags),
            };
            r.push(info);
            i += 1;
        }
        r
    }

    /// Every instance as one row of the grid view.
    pub fn list_instance_summaries(&self) -> (r: Vec<crate::grid::InstanceSummary>)
        ensures
            r@.len() == self.entries@.len(),
            forall|i: int|
                0 <= i < r@.len() ==> {
                    &&& (#[trigger] r@[i]).id@ == self.entries@[i].id@
                    &&& r@[i].name@ == self.entries@[i].faker.torrent.name@
                    &&& r@[i].info_hash@ == crate::strutil::hex_lower(
                        self.entries@[i].faker.torrent.info_hash@,
                    )
                    &&& r@[i].state@ == crate::grid::state_label_chars(
                        self.entries@[i].faker.stats.state,
                        self.entries@[i].faker.stats.is_idling,
                    )
                    &&& r@[i].total_size == self.entries@[i].faker.torrent.total_size
                    &&& r@[i].uploaded == self.entries@[i].faker.stats.uploaded
                    &&& r@[i].downloaded == self.entries@[i].faker.stats.downloaded
                    &&& r@[i].ratio_permille == self.entries@[i].faker.stats.ratio_permille
                    &&& r@[i].current_upload_rate
                        == self.entries@[i].faker.stats.current_upload_rate
                    &&& r@[i].current_download_rate
                        == self.entries@[i].faker.stats.current_download_rate
                    &&& r@[i].seeders == self.entries@[i].faker.stats.seeders
                    &&& r@[i].leechers == self.entries@[i].faker.stats.leechers
                    &&& r@[i].left == self.entries@[i].faker.stats.left
                    &&& r@[i].torrent_completion_permille
                        == self.entries@[i].faker.stats.torrent_completion_permille
                    &&& r@[i].source@ == source_label_chars(self.entries@[i].source)
                    &&& r@[i].created_at == self.entries@[i].created_at
                },
    {
        let mut r: Vec<crate::grid::InstanceSummary> = Vec::new();
        let mut i: usize = 0;
        while i < self.entries.len()
            invariant
                i <= self.entries@.len(),
                r@.len() == i,
                forall|j: int|
                    0 <= j < i ==> {
                        &&& (#[trigger] r@[j]).id@ == self.entries@[j].id@
                        &&& r@[j].name@ == self.entries@[j].faker.torrent.name@
                        &&& r@[j].info_hash@ == crate::strutil::hex_lower(
                            self.entries@[j].faker.torrent.info_hash@,
                        )
                        &&& r@[j].state@ == crate::grid::state_label_chars(
                            self.entries@[j].faker.stats.state,
                            self.entries@[j].faker.stats.is_idling,
                        )
                        &&& r@[j].total_size == self.entries@[j].faker.torrent.total_size
                        &&& r@[j].uploaded == self.entries@[j].faker.stats.uploaded
                        &&& r@[j].downloaded == self.entries@[j].faker.stats.downloaded
                        &&& r@[j].ratio_permille == self.entries@[j].faker.stats.ratio_permille
                        &&& r@[j].current_upload_rate
                            == self.entries@[j].faker.stats.current_upload_rate
                        &&& r@[j].current_download_rate
                            == self.entries@[j].faker.stats.current_download_rate
                        &&& r@[j].seeders == self.entries@[j].faker.stats.seeders
                        &&& r@[j].leechers == self.entries@[j].faker.stats.leechers
                        &&& r@[j].left == self.entries@[j].faker.stats.left
                        &&& r@[j].torrent_completion_permille
                            == self.entries@[j].faker.stats.torrent_completion_permille
                        &&& r@[j].source@ == source_label_chars(self.entries@[j].source)
                        &&& r@[j].created_at == self.entries@[j].created_at
                    },
            decreases self.entries@.len() - i,
        {
            let e = &self.entries[i];
            let row = crate::grid::InstanceSummary {
                id: e.id.clone(),
                name: e.faker.torrent.name.clone(),
                info_hash: crate::strutil::hex_lower_string(&e.faker.torrent.info_hash),
                state: crate::grid::state_label(e.faker.stats.state, e.faker.stats.is_idling),
                tags: clone_string_vec(&e.tags),
                total_size: e.faker.torrent.total_size,
                uploaded: e.faker.stats.uploaded,
                downloaded: e.faker.stats.downloaded,
                ratio_permille: e.faker.stats.ratio_permille,
                current_upload_rate: e.faker.stats.current_upload_rate,
                current_download_rate: e.faker.stats.current_download_rate,
                seeders: e.faker.stats.seeders,
                leechers: e.faker.stats.leechers,
                left: e.faker.stats.left,
                torrent_completion_permille: e.faker.stats.torrent_completion_permille,
                source: source_label(e.source),
                created_at: e.created_at,
            };
            r.push(row);
            i += 1;
        }
        r
    }

    /// The whole registry as a snapshot: each entry with its settings, its
    /// engine's lifetime totals and reached completion, and its state, so
    /// that a later run restores the sessions where they stood.
    pub fn snapshot_state(&self, now_secs: u64) -> (r: crate::persist::PersistedState)
        ensures
            r.instances@.len() == self.entries@.len(),
            r.version == 1,
            forall|i: int|
                0 <= i < r.instances@.len() ==> {
                    &&& (#[trigger] r.instances@[i]).id@ == self.entries@[i].id@
                    &&& r.instances@[i].cumulative_uploaded == self.entries@[i].faker.stats.uploaded
                    &&& r.instances@[i].cumulative_downloaded
                        == self.entries@[i].faker.stats.downloaded
                    &&& r.instances@[i].state == self.entries@[i].faker.stats.state
                    &&& r.instances@[i].created_at == self.entries@[i].created_at
                    &&& r.instances@[i].updated_at == now_secs
                    &&& r.instances@[i].source == self.entries@[i].source
                },
    {
        let mut instances: Vec<crate::persist::PersistedInstance> = Vec::new();
        let mut i: usize = 0;
        while i < self.entries.len()
            invariant
                i <= self.entries@.len(),
                instances@.len() == i,
                forall|j: int|
                    0 <= j < i ==> {
                        &&& (#[trigger] instances@[j]).id@ == self.entries@[j].id@
                        &&& instances@[j].cumulative_uploaded
                            == self.entries@[j].faker.stats.uploaded
                        &&& instances@[j].cumulative_downloaded
                            == self.entries@[j].faker.stats.downloaded
                        &&& instances@[j].state == self.entries@[j].faker.stats.state
                        &&& instances@[j].created_at == self.entries@[j].created_at
                        &&& instances@[j].updated_at == now_secs
                        &&& instances@[j].source == self.entries@[j].source
                    },
            decreases self.entries@.len() - i,
        {
            let e = &self.entries[i];
            let mut config = e.config.clone_config();
            let c = e.faker.stats.torrent_completion_permille;
            config.completion_permille = if c > 1000 {
                1000
            } else {
                c as u32
            };
            let p = crate::persist::PersistedInstance {
                id: e.id.clone(),
                torrent: e.faker.torrent.snapshot(),
                config,
                cumulative_uploaded: e.faker.stats.uploaded,
                cumulative_downloaded: e.faker.stats.downloaded,
                state: e.faker.stats.state,
                created_at: e.created_at,
                updated_at: now_secs,
                source: e.source,
                tags: clone_string_vec(&e.tags),
            };
            instances.push(p);
            i += 1;
        }
        crate::persist::PersistedState { instances, default_config: None, version: 1 }
    }

    /// Restores one persisted instance: a fresh engine under the recorded
    /// id, `Stopped`, with the recorded lifetime totals as its starting
    /// point; entries under other ids are untouched.
    pub fn restore_instance(&mut self, p: crate::persist::PersistedInstance, now_ms: u64) -> (r:
        Result<(), FakerError>)
        requires
            old(self).wf(),
        ensures
            final(self).wf(),
            r is Err ==> *final(self) == *old(self),
            r is Ok <==> p.config.valid(),
            r is Ok ==> contains_id(final(self).entries@, p.id@),
            r is Ok ==> exists|i: int|
                {
                    &&& 0 <= i < final(self).entries@.len()
                    &&& (#[trigger] final(self).entries@[i]).id@ == p.id@
                    &&& restored_entry(final(self).entries@[i], p)
                },
            r is Ok ==> forall|i: int|
                0 <= i < final(self).entries@.len() && (#[trigger] final(self).entries@[i]).id@
                    == p.id@ ==> restored_entry(final(self).entries@[i], p),
            r is Ok ==> forall|j: int|
                0 <= j < old(self).entries@.len() && (#[trigger] old(self).entries@[j]).id@
                    != p.id@ ==> final(self).entries@[j] == old(self).entries@[j],
            r is Ok ==> forall|j2: int|
                0 <= j2 < final(self).entries@.len() ==> (#[trigger] final(self).entries@[j2]).id@
                    == p.id@ || contains_id(old(self).entries@, final(self).entries@[j2].id@),
            r is Ok ==> old(self).entries@.len() <= final(self).entries@.len()
                <= old(self).entries@.len() + 1,
    {
        let existing = self.find(p.id.as_str());
        let mut faker_config = p.config.clone_config();
        faker_config.initial_uploaded = p.cumulative_uploaded;
        if !faker_config.is_valid() {
            return Err(FakerError::ConfigError(String::from_str("configuration out of range")));
        }
        let allowed = crate::faker::portion_exec(
            p.torrent.total_size,
            faker_config.completion_permille as u64,
        );
        let carried_downloaded = if p.cumulative_downloaded <= allowed {
            p.cumulative_downloaded
        } else {
            allowed
        };
        faker_config.initial_downloaded = carried_downloaded;
        let faker = match RatioFaker::new(p.torrent, faker_config, now_ms) {
            Ok(f) => f,
            Err(e) => {
                return Err(e);
            },
        };
        let entry = FakerInstance {
            id: p.id,
            faker,
            config: p.config,
            cumulative_uploaded: p.cumulative_uploaded,
            cumulative_downloaded: carried_downloaded,
            created_at: p.created_at,
            source: p.source,
            tags: p.tags,
        };
        let ghost ge = entry;
        match existing {
            Some(i) => {
                self.entries.set(i, entry);
                proof {
                    assert(self.entries@[i as int].id@ == ge.id@);
                    assert forall|j: int|
                        0 <= j < old(self).entries@.len() && (#[trigger] old(
                            self,
                        ).entries@[j]).id@ != p.id@ implies exists|j2: int|
                        0 <= j2 < self.entries@.len() && self.entries@[j2] == old(
                            self,
                        ).entries@[j] by {
                        assert(j != i);
                        assert(self.entries@[j] == old(self).entries@[j]);
                    }
                }
            },
            None => {
                self.entries.push(entry);
                proof {
                    assert(self.entries@[self.entries@.len() - 1].id@ == ge.id@);
                    assert forall|j: int|
                        0 <= j < old(self).entries@.len() && (#[trigger] old(
                            self,
                        ).entries@[j]).id@ != p.id@ implies exists|j2: int|
                        0 <= j2 < self.entries@.len() && self.entries@[j2] == old(
                            self,
                        ).entries@[j] by {
                        assert(self.entries@[j] == old(self).entries@[j]);
                    }
                }
            },
        }
        Ok(())
    }

    /// Rebuilds an empty registry from a snapshot, a mapping from distinct
    /// ids to recorded instances: every instance whose configuration is in
    /// range stands afterwards under its id, `Stopped`, with the recorded
    /// lifetime totals as the new run's starting point; the rest are left
    /// out.  Returns how many were restored, and the ids of those recorded
    /// as underway (`Starting` or `Running`), to be started again.
    pub fn load_saved_state(&mut self, saved: crate::persist::PersistedState, now_ms: u64) -> (r: (
        usize,
        Vec<String>,
    ))
        requires
            old(self).wf(),
            old(self).entries@.len() == 0,
            forall|a: int, b: int|
                0 <= a < b < saved.instances@.len() ==> saved.instances@[a].id@
                    != saved.instances@[b].id@,
        ensures
            final(self).wf(),
            r.0 == count_valid(saved.instances@),
            string_views(r.1@) == startable_ids(saved.instances@),
            forall|k: int|
                0 <= k < saved.instances@.len() && (#[trigger] saved.instances@[k]).config.valid()
                    ==> contains_id(final(self).entries@, saved.instances@[k].id@),
            forall|k: int|
                0 <= k < saved.instances@.len() && !(
                #[trigger] saved.instances@[k]).config.valid() ==> !contains_id(
                    final(self).entries@,
                    saved.instances@[k].id@,
                ),
            forall|k: int, i: int|
                0 <= k < saved.instances@.len() && 0 <= i < final(self).entries@.len() && (
                #[trigger] final(self).entries@[i]).id@ == (
                #[trigger] saved.instances@[k]).id@ ==> restored_entry(
                    final(self).entries@[i],
                    saved.instances@[k],
                ),
    {
        let ghost orig = saved.instances@;
        let mut instances = saved.instances;
        let mut restored: usize = 0;
        let mut to_start: Vec<String> = Vec::new();
        let total: usize = instances.len();
        let ghost mut done: int = 0;
        loop
            invariant
                self.wf(),
                0 <= done <= orig.len(),
                instances@ == orig.skip(done),
                total == orig.len(),
                forall|a: int, b: int| 0 <= a < b < orig.len() ==> orig[a].id@ != orig[b].id@,
                restored == count_valid(orig.take(done)),
                string_views(to_start@) == startable_ids(orig.take(done)),
                forall|k: int|
                    0 <= k < done && (#[trigger] orig[k]).config.valid() ==> contains_id(
                        self.entries@,
                        orig[k].id@,
                    ),
                forall|k: int|
                    0 <= k < done && !(#[trigger] orig[k]).config.valid() ==> !contains_id(
                        self.entries@,
                        orig[k].id@,
                    ),
                forall|k: int, i: int|
                    0 <= k < done && 0 <= i < self.entries@.len() && (
                    #[trigger] self.entries@[i]).id@ == (#[trigger] orig[k]).id@
                        ==> restored_entry(self.entries@[i], orig[k]),
                forall|i: int|
                    0 <= i < self.entries@.len() ==> exists|k: int|
                        0 <= k < done && (#[trigger] self.entries@[i]).id@ == orig[k].id@,
            ensures
                self.wf(),
                restored == count_valid(orig),
                string_views(to_start@) == startable_ids(orig),
                forall|k: int|
                    0 <= k < orig.len() && (#[trigger] orig[k]).config.valid() ==> contains_id(
                        self.entries@,
                        orig[k].id@,
                    ),
                forall|k: int|
                    0 <= k < orig.len() && !(#[trigger] orig[k]).config.valid() ==> !contains_id(
                        self.entries@,
                        orig[k].id@,
                    ),
                forall|k: int, i: int|
                    0 <= k < orig.len() && 0 <= i < self.entries@.len() && (
                    #[trigger] self.entries@[i]).id@ == (#[trigger] orig[k]).id@
                        ==> restored_entry(self.entries@[i], orig[k]),
            decreases instances@.len(),
        {
            if instances.len() == 0 {
                proof {
                    assert(orig.skip(done).len() == 0);
                    assert(done == orig.len());
                    assert(orig.take(done) =~= orig);
                    assert(restored == count_valid(orig));
                    assert(string_views(to_start@) == startable_ids(orig));
                }
                break;
            }
            proof {
                assert(instances@[0] == orig.skip(done)[0]);
                assert(orig.skip(done)[0] == orig[done]);
                assert(orig.take(done + 1).drop_last() =~= orig.take(done));
                assert(orig.take(done + 1).last() == orig[done]);
            }
            let p = instances.remove(0);
            proof {
                assert(p == orig[done]);
                assert(instances@ =~= orig.skip(done + 1));
            }
            let id = p.id.clone();
            let wants_start = matches!(p.state, FakerState::Starting) || matches!(
                p.state,
                FakerState::Running,
            );
            let ghost pre_entries = self.entries@;
            let ghost pre_starts = to_start@;
            proof {
                lemma_count_valid_bounds(orig.take(done));
                assert(restored <= done);
            }
            match self.restore_instance(p, now_ms) {
                Ok(()) => {
                    restored += 1;
                    if wants_start {
                        to_start.push(id);
                    }
                },
                Err(_) => {},
            }
            proof {
                let gp = orig[done];
                // The absent id cannot already be present: every present id
                // came from an earlier snapshot entry, all distinct from it.
                if !gp.config.valid() {
                    assert forall|i: int|
                        0 <= i < pre_entries.len() implies (#[trigger] pre_entries[i]).id@
                            != gp.id@ by {
                        let k0 = choose|k0: int|
                            0 <= k0 < done && pre_entries[i].id@ == orig[k0].id@;
                        assert(orig[k0].id@ != orig[done].id@);
                    }
                    assert(!contains_id(pre_entries, gp.id@));
                    assert(!contains_id(self.entries@, gp.id@));
                }
                // Ids of earlier snapshot entries stay present or absent as
                // they were: the restored id differs from them all.
                assert forall|k: int|
                    0 <= k < done && (#[trigger] orig[k]).config.valid() implies contains_id(
                        self.entries@,
                        orig[k].id@,
                    ) by {
                    let w = choose|w: int|
                        0 <= w < pre_entries.len() && pre_entries[w].id@ == orig[k].id@;
                    assert(orig[k].id@ != gp.id@);
                    assert(self.entries@[w] == pre_entries[w]);
                    assert(w < self.entries@.len());
                    assert(self.entries@[w].id@ == orig[k].id@);
                }
                assert forall|k: int|
                    0 <= k < done && !(#[trigger] orig[k]).config.valid() implies !contains_id(
                        self.entries@,
                        orig[k].id@,
                    ) by {
                    assert(orig[k].id@ != gp.id@);
                    assert forall|i: int|
                        0 <= i < self.entries@.len() implies (#[trigger] self.entries@[i]).id@
                            != orig[k].id@ by {
                        if self.entries@[i].id@ == gp.id@ {
                        } else {
                            assert(contains_id(pre_entries, self.entries@[i].id@));
                        }
                    }
                }
                assert forall|i: int| 0 <= i < self.entries@.len() implies exists|k: int|
                    0 <= k < done + 1 && (#[trigger] self.entries@[i]).id@ == orig[k].id@ by {
                    if self.entries@[i].id@ == gp.id@ {
                        assert(self.entries@[i].id@ == orig[done].id@);
                    } else {
                        assert(contains_id(pre_entries, self.entries@[i].id@));
                        let w = choose|w: int|
                            0 <= w < pre_entries.len() && pre_entries[w].id@
                                == self.entries@[i].id@;
                        let k0 = choose|k0: int|
                            0 <= k0 < done && pre_entries[w].id@ == orig[k0].id@;
                        assert(self.entries@[i].id@ == orig[k0].id@);
                    }
                }
                // Entries keep their restored shape: an entry bearing an
                // earlier snapshot id sat untouched through this step, and
                // one bearing this step's id was just restored.
                assert forall|k: int, i: int|
                    0 <= k < done + 1 && 0 <= i < self.entries@.len() && (
                    #[trigger] self.entries@[i]).id@ == (#[trigger] orig[k]).id@
                        implies restored_entry(self.entries@[i], orig[k]) by {
                    if gp.config.valid() {
                        if k == done {
                            assert(restored_entry(self.entries@[i], gp));
                        } else {
                            assert(orig[k].id@ != gp.id@);
                            if i < pre_entries.len() {
                                if pre_entries[i].id@ == gp.id@ {
                                    assert(self.entries@[i].id@ == gp.id@ || contains_id(
                                        pre_entries,
                                        self.entries@[i].id@,
                                    ));
                                } else {
                                    assert(self.entries@[i] == pre_entries[i]);
                                }
                            }
                        }
                    } else {
                        assert(self.entries@ == pre_entries);
                        assert(k != done);
                    }
                }
                // The count and the restart list grow exactly per the spec
                // walks over the processed prefix.
                if gp.config.valid() {
                    assert(restored == count_valid(orig.take(done + 1)));
                } else {
                    assert(count_valid(orig.take(done + 1)) == count_valid(orig.take(done)));
                }
                let newmap = string_views(to_start@);
                let goal = startable_ids(orig.take(done + 1));
                if gp.config.valid() && (gp.state == FakerState::Starting || gp.state
                    == FakerState::Running) {
                    assert(to_start@ == pre_starts.push(id));
                    assert forall|t: int| 0 <= t < newmap.len() implies newmap[t] == goal[t] by {
                        assert(newmap[t] == to_start@[t]@);
                        if t < newmap.len() - 1 {
                            assert(to_start@[t] == pre_starts[t]);
                            assert(string_views(pre_starts)[t] == pre_starts[t]@);
                        } else {
                            assert(to_start@[t] == id);
                        }
                    }
                    assert(newmap =~= goal);
                } else {
                    assert(goal =~= startable_ids(orig.take(done)));
                }
                done = done + 1;
            }
        }
        (restored, to_start)
    }

    /// Adds and removes tags on each listed instance: every added tag is
    /// appended unless already carried, then every removed tag leaves.
    /// Instances not listed are untouched.  Returns how many were touched.
    pub fn grid_update_tags(
        &mut self,
        ids: &Vec<String>,
        add_tags: &Vec<String>,
        remove_tags: &Vec<String>,
    ) -> (updated: usize)
        requires
            old(self).wf(),
        ensures
            final(self).wf(),
            final(self).entries@.len() == old(self).entries@.len(),
            updated <= old(self).entries@.len(),
            forall|i: int|
                0 <= i < final(self).entries@.len() && !is_busy(
                    (#[trigger] old(self).entries@[i]).id@,
                    ids@,
                ) ==> final(self).entries@[i] == old(self).entries@[i],
            forall|i: int|
                0 <= i < final(self).entries@.len() && is_busy(
                    (#[trigger] old(self).entries@[i]).id@,
                    ids@,
                ) ==> {
                    &&& final(self).entries@[i].id@ == old(self).entries@[i].id@
                    &&& final(self).entries@[i].faker == old(self).entries@[i].faker
                    &&& forall|k: int|
                        0 <= k < final(self).entries@[i].tags@.len() ==> !is_busy(
                            (#[trigger] final(self).entries@[i].tags@[k])@,
                            remove_tags@,
                        )
                    &&& forall|t: int|
                        0 <= t < add_tags@.len() && !is_busy((#[trigger] add_tags@[t])@, remove_tags@)
                            ==> is_busy(add_tags@[t]@, final(self).entries@[i].tags@)
                    &&& forall|t: int|
                        0 <= t < old(self).entries@[i].tags@.len() && !is_busy(
                            (#[trigger] old(self).entries@[i].tags@[t])@,
                            remove_tags@,
                        ) ==> is_busy(old(self).entries@[i].tags@[t]@, final(self).entries@[i].tags@)
                },
    {
        let mut updated: usize = 0;
        let mut i: usize = 0;
        while i < self.entries.len()
            invariant
                old(self).wf(),
                self.wf(),
                i <= self.entries@.len(),
                self.entries@.len() == old(self).entries@.len(),
                updated <= i,
                forall|j: int|
                    i <= j < self.entries@.len() ==> self.entries@[j] == old(self).entries@[j],
                forall|j: int|
                    0 <= j < self.entries@.len() ==> (#[trigger] self.entries@[j]).id@ == old(self).entries@[j].id@,
                forall|j: int|
                    0 <= j < i && !is_busy((#[trigger] old(self).entries@[j]).id@, ids@)
                        ==> self.entries@[j] == old(self).entries@[j],
                forall|j: int|
                    0 <= j < i && is_busy((#[trigger] old(self).entries@[j]).id@, ids@) ==> {
                        &&& self.entries@[j].id@ == old(self).entries@[j].id@
                        &&& self.entries@[j].faker == old(self).entries@[j].faker
                        &&& forall|k: int|
                            0 <= k < self.entries@[j].tags@.len() ==> !is_busy(
                                (#[trigger] self.entries@[j].tags@[k])@,
                                remove_tags@,
                            )
                        &&& forall|t: int|
                            0 <= t < add_tags@.len() && !is_busy(
                                (#[trigger] add_tags@[t])@,
                                remove_tags@,
                            ) ==> is_busy(add_tags@[t]@, self.entries@[j].tags@)
                        &&& forall|t: int|
                            0 <= t < old(self).entries@[j].tags@.len() && !is_busy(
                                (#[trigger] old(self).entries@[j].tags@[t])@,
                                remove_tags@,
                            ) ==> is_busy(
                                old(self).entries@[j].tags@[t]@,
                                self.entries@[j].tags@,
                            )
                    },
            decreases self.entries@.len() - i,
        {
            let listed = id_in_list(self.entries[i].id.as_str(), ids);
            if listed {
                let ghost pres = self.entries@;
                let mut entry = self.entries.remove(i);
                let mut merged = entry.tags;
                let ghost orig_tags = merged@;
                let mut a: usize = 0;
                while a < add_tags.len()
                    invariant
                        a <= add_tags@.len(),
                        merged@.len() >= orig_tags.len(),
                        forall|t: int|
                            0 <= t < orig_tags.len() ==> (#[trigger] merged@[t]) == orig_tags[t],
                        forall|t: int|
                            0 <= t < a ==> is_busy((#[trigger] add_tags@[t])@, merged@),
                    decreases add_tags@.len() - a,
                {
                    let ghost before = merged@;
                    if !id_in_list(add_tags[a].as_str(), &merged) {
                        merged.push(add_tags[a].clone());
                        proof {
                            assert(merged@[merged@.len() - 1]@ == add_tags@[a as int]@);
                        }
                    }
                    proof {
                        assert forall|t: int| 0 <= t < a + 1 implies is_busy(
                            (#[trigger] add_tags@[t])@,
                            merged@,
                        ) by {
                            if t < a {
                                let w = choose|w: int|
                                    0 <= w < before.len() && before[w]@ == add_tags@[t]@;
                                assert(merged@[w]@ == add_tags@[t]@);
                            }
                        }
                    }
                    a += 1;
                }
                let mut kept: Vec<String> = Vec::new();
                let mut m: usize = 0;
                while m < merged.len()
                    invariant
                        m <= merged@.len(),
                        forall|k: int|
                            0 <= k < kept@.len() ==> !is_busy(
                                (#[trigger] kept@[k])@,
                                remove_tags@,
                            ),
                        forall|t: int|
                            0 <= t < m && !is_busy((#[trigger] merged@[t])@, remove_tags@)
                                ==> is_busy(merged@[t]@, kept@),
                    decreases merged@.len() - m,
                {
                    let ghost kbefore = kept@;
                    if !id_in_list(merged[m].as_str(), remove_tags) {
                        kept.push(merged[m].clone());
                        proof {
                            assert(kept@[kept@.len() - 1]@ == merged@[m as int]@);
                        }
                    }
                    proof {
                        assert forall|t: int|
                            0 <= t < m + 1 && !is_busy((#[trigger] merged@[t])@, remove_tags@)
                                implies is_busy(merged@[t]@, kept@) by {
                            if t < m {
                                let w = choose|w: int|
                                    0 <= w < kbefore.len() && kbefore[w]@ == merged@[t]@;
                                assert(kept@[w]@ == merged@[t]@);
                            }
                        }
                    }
                    m += 1;
                }
                entry.tags = kept;
                proof {
                    assert forall|t: int|
                        0 <= t < add_tags@.len() && !is_busy(
                            (#[trigger] add_tags@[t])@,
                            remove_tags@,
                        ) implies is_busy(add_tags@[t]@, entry.tags@) by {
                        let w = choose|w: int|
                            0 <= w < merged@.len() && merged@[w]@ == add_tags@[t]@;
                        assert(is_busy(merged@[w]@, kept@));
                    }
                    assert forall|t: int|
                        0 <= t < orig_tags.len() && !is_busy(
                            (#[trigger] orig_tags[t])@,
                            remove_tags@,
                        ) implies is_busy(orig_tags[t]@, entry.tags@) by {
                        assert(merged@[t] == orig_tags[t]);
                        assert(is_busy(merged@[t]@, kept@));
                    }
                }
                let ghost ge = entry;
                self.entries.insert(i, entry);
                proof {
                    lemma_remove_insert(pres, i as int, ge);
                }
                if updated < usize::MAX {
                    updated += 1;
                }
            }
            i += 1;
        }
        updated
    }
}

/// How a batch operation fared, id by id, along with the parting
/// announces it left owing.
pub struct GridActionOutcome {
    /// Ids the operation went through on.
    pub succeeded: Vec<String>,
    /// Ids it failed on, each with its account.
    pub failed: Vec<crate::api::GridActionError>,
    /// Parting announces owed for the ids it went through on.
    pub announces: Vec<(String, AnnounceRequest)>,
}

impl Registry {
    /// Replaces an instance's configuration.  An instance that is running,
    /// starting or paused refuses the change; otherwise the engine is
    /// rebuilt in place under the new settings, with both lifetime totals
    /// and the reached completion carried forward so the displayed
    /// statistics stay continuous.
    pub fn update_instance_config(&mut self, id: &str, config: FakerConfig, now_ms: u64) -> (r:
        Result<(), FakerError>)
        requires
            old(self).wf(),
        ensures
            final(self).wf(),
            r is Err ==> *final(self) == *old(self),
            !contains_id(old(self).entries@, id@) ==> r is Err,
            r is Ok ==> exists|i: int|
                {
                    &&& 0 <= i < final(self).entries@.len()
                    &&& (#[trigger] final(self).entries@[i]).id@ == id@
                    &&& old(self).entries@[i].faker.stats.state != FakerState::Running
                    &&& old(self).entries@[i].faker.stats.state != FakerState::Starting
                    &&& old(self).entries@[i].faker.stats.state != FakerState::Paused
                    &&& final(self).entries@[i].faker.stats.session_uploaded == 0
                    &&& final(self).entries@[i].faker.stats.session_downloaded == 0
                    &&& final(self).entries@[i].faker.stats.uploaded == old(self).entries@[i].faker.stats.uploaded
                    &&& final(self).entries@[i].created_at == old(self).entries@[i].created_at
                    &&& forall|j: int|
                        0 <= j < final(self).entries@.len() && j != i
                            ==> final(self).entries@[j] == old(self).entries@[j]
                },
    {
        let i = match self.find(id) {
            Some(i) => i,
            None => {
                return Err(FakerError::InvalidState(String::from_str("instance not found")));
            },
        };
        let state = self.entries[i].faker.stats.state;
        let busy = matches!(state, FakerState::Running) || matches!(state, FakerState::Starting)
            || matches!(state, FakerState::Paused);
        if busy {
            return Err(
                FakerError::InvalidState(
                    String::from_str("configuration cannot change while the session is active"),
                ),
            );
        }
        let cumulative_uploaded = self.entries[i].faker.stats.uploaded;
        let cumulative_downloaded = self.entries[i].faker.stats.downloaded;
        let c = self.entries[i].faker.stats.torrent_completion_permille;
        let completion: u32 = if c > 1000 {
            1000
        } else {
            c as u32
        };
        let mut faker_config = config.clone_config();
        faker_config.initial_uploaded = cumulative_uploaded;
        faker_config.completion_permille = completion;
        if !faker_config.is_valid() {
            return Err(FakerError::ConfigError(String::from_str("configuration out of range")));
        }
        let torrent = self.entries[i].faker.torrent.snapshot();
        let allowed = crate::faker::portion_exec(torrent.total_size, completion as u64);
        let carried_downloaded = if cumulative_downloaded <= allowed {
            cumulative_downloaded
        } else {
            allowed
        };
        faker_config.initial_downloaded = carried_downloaded;
        let faker = match RatioFaker::new(torrent, faker_config, now_ms) {
            Ok(f) => f,
            Err(e) => {
                return Err(e);
            },
        };
        let ghost pres = self.entries@;
        let mut entry = self.entries.remove(i);
        entry.faker = faker;
        entry.config = config;
        entry.cumulative_uploaded = cumulative_uploaded;
        entry.cumulative_downloaded = carried_downloaded;
        let ghost ge = entry;
        self.entries.insert(i, entry);
        proof {
            lemma_remove_insert(pres, i as int, ge);
        }
        Ok(())
    }

    /// The stock configuration new instances get, when one was chosen.
    pub fn get_default_config(&self) -> (r: Option<FakerConfig>)
        ensures
            r is Some <==> self.default_config is Some,
            (match self.default_config {
                Some(b) => r matches Some(a) && {
                    &&& a.upload_rate == b.upload_rate
                    &&& a.download_rate == b.download_rate
                    &&& a.port == b.port
                    &&& a.client_type == b.client_type
                    &&& (match (a.client_version, b.client_version) {
                        (Some(x), Some(y)) => x@ == y@,
                        (None, None) => true,
                        _ => false,
                    })
                    &&& a.initial_uploaded == b.initial_uploaded
                    &&& a.initial_downloaded == b.initial_downloaded
                    &&& a.completion_permille == b.completion_permille
                    &&& a.num_want == b.num_want
                    &&& a.randomize_rates == b.randomize_rates
                    &&& a.random_range_percent == b.random_range_percent
                    &&& a.stop_at_ratio_permille == b.stop_at_ratio_permille
                    &&& a.stop_at_uploaded == b.stop_at_uploaded
                    &&& a.stop_at_downloaded == b.stop_at_downloaded
                    &&& a.stop_at_seed_time == b.stop_at_seed_time
                    &&& a.idle_when_no_leechers == b.idle_when_no_leechers
                    &&& a.idle_when_no_seeders == b.idle_when_no_seeders
                    &&& a.scrape_interval == b.scrape_interval
                    &&& a.progressive_rates == b.progressive_rates
                    &&& a.target_upload_rate == b.target_upload_rate
                    &&& a.target_download_rate == b.target_download_rate
                    &&& a.progressive_duration == b.progressive_duration
                },
                None => r is None,
            }),
    {
        match &self.default_config {
            Some(c) => Some(c.clone_config()),
            None => None,
        }
    }

    /// Chooses (or clears) the stock configuration for new instances.
    pub fn set_default_config(&mut self, config: Option<FakerConfig>)
        requires
            old(self).wf(),
        ensures
            final(self).wf(),
            final(self).default_config == config,
            final(self).entries == old(self).entries,
    {
        self.default_config = config;
    }

    /// Removes every listed instance, collecting the parting `stopped`
    /// announces of those that were not already stopped; an id without an
    /// instance is reported as failed.
    pub fn grid_delete(&mut self, ids: &Vec<String>) -> (r: GridActionOutcome)
        requires
            old(self).wf(),
        ensures
            final(self).wf(),
            forall|k: int|
                0 <= k < ids@.len() ==> !contains_id(final(self).entries@, (#[trigger] ids@[k])@),
            r.succeeded@.len() + r.failed@.len() == ids@.len(),
            forall|m: int|
                0 <= m < r.succeeded@.len() ==> contains_id(
                    old(self).entries@,
                    (#[trigger] r.succeeded@[m])@,
                ),
            forall|k: int|
                0 <= k < ids@.len() && !contains_id(old(self).entries@, (#[trigger] ids@[k])@)
                    ==> failed_lists(r.failed@, ids@[k]@),
            forall|m: int|
                0 <= m < r.announces@.len() ==> contains_id(
                    old(self).entries@,
                    (#[trigger] r.announces@[m]).0@,
                ) && r.announces@[m].1.event == crate::protocol::TrackerEvent::Stopped,
    {
        let mut succeeded: Vec<String> = Vec::new();
        let mut failed: Vec<crate::api::GridActionError> = Vec::new();
        let mut announces: Vec<(String, AnnounceRequest)> = Vec::new();
        let mut k: usize = 0;
        while k < ids.len()
            invariant
                self.wf(),
                k <= ids@.len(),
                succeeded@.len() + failed@.len() == k,
                forall|j: int|
                    0 <= j < k ==> !contains_id(self.entries@, (#[trigger] ids@[j])@),
                forall|j: int|
                    0 <= j < self.entries@.len() ==> contains_id(
                        old(self).entries@,
                        (#[trigger] self.entries@[j]).id@,
                    ),
                forall|m: int|
                    0 <= m < succeeded@.len() ==> contains_id(
                        old(self).entries@,
                        (#[trigger] succeeded@[m])@,
                    ),
                forall|j: int|
                    0 <= j < k && !contains_id(old(self).entries@, (#[trigger] ids@[j])@)
                        ==> failed_lists(failed@, ids@[j]@),
                forall|m: int|
                    0 <= m < announces@.len() ==> contains_id(
                        old(self).entries@,
                        (#[trigger] announces@[m]).0@,
                    ) && announces@[m].1.event == crate::protocol::TrackerEvent::Stopped,
            decreases ids@.len() - k,
        {
            let id = &ids[k];
            let ghost pre_entries = self.entries@;
            if self.instance_exists(id.as_str()) {
                proof {
                    let w = choose|w: int|
                        0 <= w < pre_entries.len() && pre_entries[w].id@ == id@;
                    assert(contains_id(old(self).entries@, pre_entries[w].id@));
                }
                let req = self.delete_instance(id.as_str());
                match req {
                    Some(q) => {
                        announces.push((id.clone(), q));
                    },
                    None => {},
                }
                succeeded.push(id.clone());
            } else {
                let _ = self.delete_instance(id.as_str());
                let ghost pre_failed = failed@;
                failed.push(
                    crate::api::GridActionError {
                        id: id.clone(),
                        error: String::from_str("instance not found"),
                    },
                );
                proof {
                    assert(id@ == ids@[k as int]@);
                    assert(failed@[failed@.len() - 1].id@ == ids@[k as int]@);
                    assert forall|j: int|
                        0 <= j < k + 1 && !contains_id(
                            old(self).entries@,
                            (#[trigger] ids@[j])@,
                        ) implies failed_lists(failed@, ids@[j]@) by {
                        if j < k {
                            let m = choose|m: int|
                                0 <= m < pre_failed.len() && pre_failed[m].id@ == ids@[j]@;
                            assert(failed@[m].id@ == pre_failed[m].id@);
                            assert(failed@[m].id@ == ids@[j]@);
                        } else {
                            assert(failed@[failed@.len() - 1].id@ == ids@[j]@);
                        }
                    }
                }
            }
            proof {
                assert forall|j: int| 0 <= j < self.entries@.len() implies contains_id(
                    old(self).entries@,
                    (#[trigger] self.entries@[j]).id@,
                ) by {
                    let w = choose|w: int|
                        0 <= w < pre_entries.len() && pre_entries[w].id@
                            == self.entries@[j].id@;
                    assert(contains_id(old(self).entries@, pre_entries[w].id@));
                }
            }
            k += 1;
        }
        GridActionOutcome { succeeded, failed, announces }
    }
}

/// Taking an entry out and putting one back at the same place leaves
/// every other position as it was.
proof fn lemma_remove_insert(s: Seq<FakerInstance>, i: int, e: FakerInstance)
    requires
        0 <= i < s.len(),
    ensures
        s.remove(i).insert(i, e).len() == s.len(),
        s.remove(i).insert(i, e)[i] == e,
        forall|j: int| 0 <= j < s.len() && j != i ==> s.remove(i).insert(i, e)[j] == s[j],
{
    s.remove_ensures(i);
    s.remove(i).insert_ensures(i, e);
}

/// Whether two torrent identifiers hold the same twenty bytes.
pub fn info_hash_eq(a: &[u8; 20], b: &[u8; 20]) -> (r: bool)
    ensures
        r == (a@ == b@),
{
    let mut i: usize = 0;
    while i < 20
        invariant
            i <= 20,
            a@.len() == 20,
            b@.len() == 20,
            forall|j: int| 0 <= j < i ==> a@[j] == b@[j],
        decreases 20 - i,
    {
        if a[i] != b[i] {
            return false;
        }
        i += 1;
    }
    proof {
        assert(a@ =~= b@);
    }
    true
}

/// An element-for-element copy of a tag list.
pub fn clone_string_vec(v: &Vec<String>) -> (r: Vec<String>)
    ensures
        r@.len() == v@.len(),
        forall|i: int| 0 <= i < v@.len() ==> r@[i]@ == v@[i]@,
{
    let mut r: Vec<String> = Vec::new();
    let mut i: usize = 0;
    while i < v.len()
        invariant
            i <= v@.len(),
            r@.len() == i,
            forall|j: int| 0 <= j < i ==> r@[j]@ == v@[j]@,
        decreases v@.len() - i,
    {
        r.push(v[i].clone());
        i += 1;
    }
    r
}

/// Whether an id is one of the listed strings.
fn id_in_list(id: &str, list: &Vec<String>) -> (r: bool)
    ensures
        r == is_busy(id@, list@),
{
    let mut i: usize = 0;
    while i < list.len()
        invariant
            i <= list@.len(),
            forall|j: int| 0 <= j < i ==> list@[j]@ != id@,
        decreases list@.len() - i,
    {
        if str_eq(list[i].as_str(), id) {
            return true;
        }
        i += 1;
    }
    false
}

} // verus!
