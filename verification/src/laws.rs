use vstd::prelude::*;

use crate::faker::{
    idle_no_leechers, idle_no_seeders, stop_announce_owed, stop_settled, tick_rel, RatioFaker,
};
use crate::stats::{push_capped, FakerState, IdlingReason, HISTORY_LEN};

verus! {

/// A second stop in a row performs no network side effect: however the
/// first stop's announce fared, the settled session is `Stopped` with the
/// idling flag clear, its accounting untouched, and it owes the tracker
/// no further announce — so the next `stop` hands back no request and
/// changes nothing (its contract's already-stopped case).
pub proof fn lemma_stop_idempotent(pre: RatioFaker, post: RatioFaker, announce_ok: bool)
    requires
        stop_settled(pre, post, announce_ok),
    ensures
        post.stats.state == FakerState::Stopped,
        !stop_announce_owed(post),
        !post.stats.is_idling,
        post.stats.uploaded == pre.stats.uploaded,
        post.stats.session_uploaded == pre.stats.session_uploaded,
        announce_ok && pre.stats.announce_count < u32::MAX ==> post.stats.announce_count
            == pre.stats.announce_count + 1,
        !announce_ok ==> post.stats.announce_count == pre.stats.announce_count,
{
}

/// The transfer accounting never overshoots: the lifetime downloaded
/// total stays within the torrent, and what is left plus this run's
/// downloads never exceeds the torrent either.  Every engine operation
/// keeps `wf`, so this holds at every observation of any tick sequence.
pub proof fn lemma_transfer_accounting(f: RatioFaker)
    requires
        f.wf(),
    ensures
        f.stats.downloaded <= f.torrent.total_size,
        f.stats.left + f.stats.session_downloaded <= f.torrent.total_size,
        f.stats.left <= f.torrent.total_size,
{
}

/// The two idling causes are mutually exclusive within one tick, and
/// when both hold the reported reason is the want of leechers.
pub proof fn lemma_idling_exclusive(pre: RatioFaker, post: RatioFaker, now: u64)
    requires
        tick_rel(pre, post, now),
    ensures
        post.stats.is_idling == (idle_no_leechers(pre.config, pre.stats) || idle_no_seeders(
            pre.config,
            pre.stats,
        )),
        idle_no_leechers(pre.config, pre.stats) && idle_no_seeders(pre.config, pre.stats)
            ==> post.stats.idling_reason == Some(IdlingReason::NoLeechers),
        idle_no_leechers(pre.config, pre.stats) ==> post.stats.idling_reason == Some(
            IdlingReason::NoLeechers,
        ) && post.stats.current_upload_rate == 0,
        !idle_no_leechers(pre.config, pre.stats) && idle_no_seeders(pre.config, pre.stats)
            ==> post.stats.idling_reason == Some(IdlingReason::NoSeeders)
            && post.stats.current_download_rate == 0,
{
}

/// A rolling history never grows past its sixty entries, and a tick on a
/// full history drops exactly the oldest sample before appending the new
/// one.
pub proof fn lemma_history_bounded(pre: RatioFaker, post: RatioFaker, now: u64)
    requires
        tick_rel(pre, post, now),
        pre.stats.upload_rate_history@.len() <= HISTORY_LEN,
    ensures
        post.stats.upload_rate_history@.len() <= HISTORY_LEN,
        pre.stats.upload_rate_history@.len() < HISTORY_LEN
            ==> post.stats.upload_rate_history@ == pre.stats.upload_rate_history@.push(
            post.stats.current_upload_rate,
        ),
        pre.stats.upload_rate_history@.len() == HISTORY_LEN
            ==> post.stats.upload_rate_history@ == pre.stats.upload_rate_history@.push(
            post.stats.current_upload_rate,
        ).drop_first(),
{
    assert(post.stats.upload_rate_history@ == push_capped(
        pre.stats.upload_rate_history@,
        post.stats.current_upload_rate,
    ));
}

} // verus!
