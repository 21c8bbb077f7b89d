use rustatio::{
    AnnounceResponse, FakerConfig, FakerError, FakerState, IdlingReason, RatioFaker, TorrentInfo,
    TrackerEvent,
};

fn torrent(size: u64) -> TorrentInfo {
    TorrentInfo {
        name: "example".to_string(),
        total_size: size,
        info_hash: [7u8; 20],
        tracker_url: "http://tracker.example/announce".to_string(),
    }
}

fn quiet_config() -> FakerConfig {
    let mut c = FakerConfig::default();
    c.randomize_rates = false;
    c
}

fn ok_response(interval: u32, complete: i64, incomplete: i64) -> AnnounceResponse {
    AnnounceResponse {
        interval,
        tracker_id: None,
        complete,
        incomplete,
        peers: Vec::new(),
    }
}

#[test]
fn test_start_reaches_running_on_failure() {
    let mut f = RatioFaker::new(torrent(1_000_000), quiet_config(), 0).unwrap();
    let req = f.start(0);
    assert_eq!(req.event, TrackerEvent::Started);
    // The announce failed; the session still runs and retries in 30 s.
    f.complete_start(0, None);
    assert_eq!(f.get_stats().state, FakerState::Running);
    assert_eq!(f.get_stats().next_announce_ms, Some(30_000));
}

#[test]
fn test_start_reaches_running_on_success() {
    let mut f = RatioFaker::new(torrent(1_000_000), quiet_config(), 0).unwrap();
    let _req = f.start(0);
    let resp = ok_response(1800, 4, 9);
    f.complete_start(0, Some(&resp));
    let st = f.get_stats();
    assert_eq!(st.state, FakerState::Running);
    assert_eq!(st.seeders, 4);
    assert_eq!(st.leechers, 9);
    assert_eq!(st.announce_count, 1);
    assert_eq!(st.next_announce_ms, Some(1800 * 1000));
}

#[test]
fn test_stop_twice_announces_once() {
    let mut f = RatioFaker::new(torrent(1_000_000), quiet_config(), 0).unwrap();
    let _ = f.start(0);
    f.complete_start(0, None);
    let first = f.stop();
    assert!(first.is_some(), "a running session owes a stopped announce");
    f.complete_stop(true);
    assert_eq!(f.get_stats().state, FakerState::Stopped);
    let second = f.stop();
    assert!(second.is_none(), "a stopped session owes no second announce");
    assert_eq!(f.get_stats().state, FakerState::Stopped);
}

#[test]
fn test_session_reset_keeps_cumulative() {
    let mut c = quiet_config();
    c.initial_uploaded = 123_456;
    c.completion_permille = 1000;
    c.initial_downloaded = 500_000;
    let mut f = RatioFaker::new(torrent(500_000), c, 0).unwrap();
    let st = f.get_stats();
    assert_eq!(st.uploaded, 123_456);
    assert_eq!(st.downloaded, 500_000);
    assert_eq!(st.session_uploaded, 0);
    assert_eq!(st.session_downloaded, 0);
    let _ = f.start(1_000);
    let st = f.get_stats();
    assert_eq!(st.session_uploaded, 0);
    assert_eq!(st.uploaded, 123_456);
}

#[test]
fn test_stop_at_uploaded_target_after_two_hundred_seconds() {
    // Torrent of a billion bytes, 50 KB/s with no randomization, stop at
    // ten million uploaded bytes: two hundred seconds of ticks upload
    // 50 * 1024 * 200 bytes and the session stops itself.
    let mut c = quiet_config();
    c.upload_rate = 50;
    c.download_rate = 0;
    c.completion_permille = 1000;
    c.stop_at_uploaded = Some(10_000_000);
    let mut f = RatioFaker::new(torrent(1_000_000_000), c, 0).unwrap();
    let _ = f.start(0);
    f.complete_start(0, None);
    let mut stopped_at: Option<u64> = None;
    for i in 1..=40u64 {
        let now = i * 5_000;
        let acts = f.update(now);
        if acts.stop.is_some() {
            f.complete_stop(true);
            stopped_at = Some(now);
            break;
        }
    }
    assert_eq!(stopped_at, Some(200_000), "the target is crossed at 200 s");
    let st = f.get_stats();
    assert_eq!(st.session_uploaded, 50 * 1024 * 200);
    assert!(st.session_uploaded >= 10_000_000);
    assert_eq!(st.state, FakerState::Stopped);
}

#[test]
fn test_idle_when_no_leechers() {
    let mut c = quiet_config();
    c.idle_when_no_leechers = true;
    c.completion_permille = 1000;
    let mut f = RatioFaker::new(torrent(1_000_000), c, 0).unwrap();
    let _ = f.start(0);
    f.complete_start(0, Some(&ok_response(1800, 3, 0)));
    assert_eq!(f.get_stats().announce_count, 1);
    let _ = f.update(5_000);
    let st = f.get_stats();
    assert_eq!(st.current_upload_rate, 0);
    assert!(st.is_idling);
    assert_eq!(st.idling_reason, Some(IdlingReason::NoLeechers));
    assert_eq!(IdlingReason::NoLeechers.label(), "no_leechers");
}

#[test]
fn test_no_leechers_wins_over_no_seeders() {
    let mut c = quiet_config();
    c.idle_when_no_leechers = true;
    c.idle_when_no_seeders = true;
    c.completion_permille = 0;
    let mut f = RatioFaker::new(torrent(1_000_000), c, 0).unwrap();
    let _ = f.start(0);
    f.complete_start(0, Some(&ok_response(1800, 0, 0)));
    let _ = f.update(5_000);
    let st = f.get_stats();
    assert!(st.is_idling);
    assert_eq!(st.idling_reason, Some(IdlingReason::NoLeechers));
    assert_eq!(st.current_upload_rate, 0);
    assert_eq!(st.current_download_rate, 0);
}

#[test]
fn test_history_capped_at_sixty_fifo() {
    let mut c = quiet_config();
    c.completion_permille = 1000;
    let mut f = RatioFaker::new(torrent(1_000_000), c, 0).unwrap();
    let _ = f.start(0);
    f.complete_start(0, None);
    for i in 1..=61u64 {
        let _ = f.update_stats_only(i * 1_000);
    }
    let st = f.get_stats();
    assert_eq!(st.upload_rate_history.len(), 60);
    assert_eq!(st.history_timestamps.len(), 60);
    // The first tick's sample (at 1 s) was dropped; the oldest left is 2 s.
    assert_eq!(st.history_timestamps[0], 2_000);
    assert_eq!(st.history_timestamps[59], 61_000);
}

#[test]
fn test_download_clamped_to_left() {
    let mut c = quiet_config();
    c.upload_rate = 0;
    c.download_rate = 1000;
    c.completion_permille = 0;
    let mut f = RatioFaker::new(torrent(100_000), c, 0).unwrap();
    let _ = f.start(0);
    f.complete_start(0, None);
    // 1000 KB/s over 5 s is far more than the 100 000 bytes left.
    let acts = f.update(5_000);
    let st = f.get_stats();
    assert_eq!(st.left, 0);
    assert_eq!(st.session_downloaded, 100_000);
    assert_eq!(st.downloaded, 100_000);
    assert!(acts.completed.is_some(), "reaching zero left fires a completed announce");
    assert_eq!(st.torrent_completion_permille, 1000);
    assert_eq!(st.state, FakerState::Running, "completion does not stop the session");
}

#[test]
fn test_progress_and_eta_exact() {
    let mut c = quiet_config();
    c.upload_rate = 100;
    c.download_rate = 0;
    c.completion_permille = 1000;
    c.stop_at_uploaded = Some(10_240_000);
    let mut f = RatioFaker::new(torrent(1_000_000_000), c, 0).unwrap();
    let _ = f.start(0);
    f.complete_start(0, None);
    // Ten seconds at 100 KB/s: 1 024 000 bytes, a tenth of the target.
    let _ = f.update_stats_only(10_000);
    let st = f.get_stats();
    assert_eq!(st.session_uploaded, 1_024_000);
    assert_eq!(st.upload_progress_permille, 100);
    assert_eq!(st.average_upload_rate, 100);
    // (10 240 000 - 1 024 000) / 1024 / 100 = 90 seconds to go.
    assert_eq!(st.eta_uploaded_secs, Some(90));
    // Lifetime ratio: 1 024 000 uploaded over a billion is one thousandth.
    assert_eq!(st.ratio_permille, 1);
}

#[test]
fn test_stop_at_ratio_with_epsilon() {
    let mut c = quiet_config();
    c.upload_rate = 100;
    c.download_rate = 0;
    c.completion_permille = 1000;
    // One thousandth of slack: reaching 999 of 1000 thousandths stops too.
    c.stop_at_ratio_permille = Some(1000);
    let size: u64 = 1_024_000;
    let mut f = RatioFaker::new(torrent(size), c, 0).unwrap();
    let _ = f.start(0);
    f.complete_start(0, None);
    // 9.99 s at 100 KB/s uploads 1 022 976 bytes: ratio 999/1000, within
    // the tolerance of the 1000-thousandths target.
    let acts = f.update(9_990);
    assert!(acts.stop.is_some());
}

#[test]
fn test_scrape_cadence_and_disable() {
    let mut c = quiet_config();
    c.completion_permille = 1000;
    c.scrape_interval = 60;
    let mut f = RatioFaker::new(torrent(1_000_000), c, 0).unwrap();
    let _ = f.start(0);
    f.complete_start(0, None);
    let acts = f.update_stats_only(30_000);
    assert!(!acts.scrape_due, "half the interval has passed");
    let acts = f.update_stats_only(61_000);
    assert!(acts.scrape_due, "the interval has passed");
    // The first scrape failed: scraping is off for good.
    f.disable_scrape();
    let acts = f.update_stats_only(200_000);
    assert!(!acts.scrape_due);
}

#[test]
fn test_rejects_out_of_range_config() {
    let mut c = quiet_config();
    c.random_range_percent = 250;
    match RatioFaker::new(torrent(1_000), c, 0) {
        Err(FakerError::ConfigError(_)) => (),
        _ => panic!("an out-of-range configuration must be rejected"),
    }
}

#[test]
fn test_pause_and_resume() {
    let mut f = RatioFaker::new(torrent(1_000_000), quiet_config(), 0).unwrap();
    let _ = f.start(0);
    f.complete_start(0, None);
    f.pause();
    let st = f.get_stats();
    assert_eq!(st.state, FakerState::Paused);
    assert!(!st.is_idling);
    f.resume(50_000);
    assert_eq!(f.get_stats().state, FakerState::Running);
    // The elapsed-time origin moved: the next tick sees no stale delta.
    let _ = f.update_stats_only(51_000);
    assert_eq!(f.get_stats().session_uploaded, 50 * 1024);
}

#[test]
fn test_periodic_announce_retry_backoff() {
    let mut f = RatioFaker::new(torrent(1_000_000), quiet_config(), 0).unwrap();
    let _ = f.start(0);
    f.complete_start(0, Some(&ok_response(10, 1, 1)));
    // The interval of 10 s has passed: the tick asks for a periodic announce.
    let acts = f.update(11_000);
    let req = acts.periodic.expect("periodic announce due");
    assert_eq!(req.event, TrackerEvent::NoEvent);
    // It failed: the retry is scheduled 30 s out instead of an interval.
    f.note_periodic_failure(11_000);
    assert_eq!(f.get_stats().next_announce_ms, Some(41_000));
}

#[test]
fn test_progressive_rate_ramp_exact() {
    let mut c = quiet_config();
    c.upload_rate = 100;
    c.download_rate = 0;
    c.completion_permille = 1000;
    c.progressive_rates = true;
    c.target_upload_rate = Some(300);
    c.progressive_duration = 100;
    let mut f = RatioFaker::new(torrent(1_000_000_000), c, 0).unwrap();
    let _ = f.start(0);
    f.complete_start(0, None);
    // The ramp reads the session clock of the previous refresh, so the
    // second tick sees 50 s of the 100 s ramp: 100 + (300-100)*50/100.
    let _ = f.update_stats_only(50_000);
    let _ = f.update_stats_only(50_001);
    assert_eq!(f.get_stats().current_upload_rate, 200);
    // Past the duration the ramp holds the target.
    let _ = f.update_stats_only(200_000);
    let _ = f.update_stats_only(200_001);
    assert_eq!(f.get_stats().current_upload_rate, 300);
}

#[test]
fn test_randomized_rate_stays_in_band() {
    let mut c = FakerConfig::default();
    c.upload_rate = 1000;
    c.download_rate = 0;
    c.completion_permille = 1000;
    c.randomize_rates = true;
    c.random_range_percent = 20;
    let mut f = RatioFaker::new(torrent(1_000_000_000), c, 0).unwrap();
    let _ = f.start(0);
    f.complete_start(0, None);
    let mut low = u64::MAX;
    let mut high = 0u64;
    for i in 1..=50u64 {
        let _ = f.update_stats_only(i * 1_000);
        let r = f.get_stats().current_upload_rate;
        assert!((800..=1200).contains(&r), "a drawn rate left the twenty percent band");
        low = low.min(r);
        high = high.max(r);
    }
    assert!(low < high, "fifty draws should not all agree");
}
