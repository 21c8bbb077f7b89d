use rustatio::{FakerConfig, FakerState, InstanceSource, Registry, TorrentInfo};

fn torrent(tag: u8, size: u64) -> TorrentInfo {
    TorrentInfo {
        name: format!("torrent-{}", tag),
        total_size: size,
        info_hash: [tag; 20],
        tracker_url: "http://tracker.example/announce".to_string(),
    }
}

fn quiet_config() -> FakerConfig {
    let mut c = FakerConfig::default();
    c.randomize_rates = false;
    c.completion_permille = 1000;
    c
}

fn start_running(reg: &mut Registry, id: &str, now: u64) {
    reg.start_instance(id, now).unwrap();
    reg.complete_start_instance(id, now, None).unwrap();
}

#[test]
fn test_scheduler_skips_busy_instance() {
    let mut reg = Registry::new();
    for tag in 1..=3u8 {
        let id = format!("inst-{}", tag);
        reg.create_instance(&id, torrent(tag, 1_000_000), quiet_config(), Vec::new(),
            InstanceSource::Manual, 0).unwrap();
        start_running(&mut reg, &id, 0);
    }
    // A foreground stop holds the second instance's lock during this tick.
    let busy = vec!["inst-2".to_string()];
    let actions = reg.scheduler_tick(5_000, &busy);
    assert_eq!(actions.len(), 2, "the busy instance is skipped, the others tick");
    assert!(actions.iter().all(|(id, _)| id != "inst-2"));
    let st1 = reg.get_stats("inst-1").unwrap();
    let st2 = reg.get_stats("inst-2").unwrap();
    let st3 = reg.get_stats("inst-3").unwrap();
    assert_eq!(st1.session_uploaded, 50 * 1024 * 5);
    assert_eq!(st3.session_uploaded, 50 * 1024 * 5);
    assert_eq!(st2.session_uploaded, 0, "the skipped instance saw no tick");
    // The skipped instance is picked up again on the next pass.
    let actions = reg.scheduler_tick(10_000, &Vec::new());
    assert_eq!(actions.len(), 3);
}

#[test]
fn test_scheduler_only_ticks_running() {
    let mut reg = Registry::new();
    reg.create_instance("a", torrent(1, 1_000), quiet_config(), Vec::new(),
        InstanceSource::Manual, 0).unwrap();
    reg.create_instance("b", torrent(2, 1_000), quiet_config(), Vec::new(),
        InstanceSource::Manual, 0).unwrap();
    start_running(&mut reg, "a", 0);
    reg.pause_instance("a").unwrap();
    start_running(&mut reg, "b", 0);
    let actions = reg.scheduler_tick(5_000, &Vec::new());
    assert_eq!(actions.len(), 1);
    assert_eq!(actions[0].0, "b");
    assert_eq!(reg.get_stats("a").unwrap().state, FakerState::Paused);
}

#[test]
fn test_create_same_torrent_carries_totals() {
    let mut reg = Registry::new();
    reg.create_instance("one", torrent(9, 1_000_000), quiet_config(), Vec::new(),
        InstanceSource::Manual, 0).unwrap();
    start_running(&mut reg, "one", 0);
    // Two minutes of seeding at 50 KB/s.
    for i in 1..=24u64 {
        let _ = reg.update_instance("one", i * 5_000).unwrap();
    }
    reg.stop_instance("one").unwrap();
    reg.complete_stop_instance("one", true).unwrap();
    let before = reg.get_stats("one").unwrap();
    assert_eq!(before.session_uploaded, 50 * 1024 * 120);
    // A configuration change re-creates the engine under the same id and
    // the same torrent: lifetime totals carry, session counters reset.
    reg.create_instance("one", torrent(9, 1_000_000), quiet_config(), Vec::new(),
        InstanceSource::Manual, 999_000).unwrap();
    let after = reg.get_stats("one").unwrap();
    assert_eq!(after.uploaded, before.uploaded);
    assert_eq!(after.session_uploaded, 0);
    assert_eq!(after.session_downloaded, 0);
    assert_eq!(after.state, FakerState::Stopped);
}

#[test]
fn test_create_other_torrent_resets_totals() {
    let mut reg = Registry::new();
    reg.create_instance("slot", torrent(1, 1_000_000), quiet_config(), Vec::new(),
        InstanceSource::Manual, 0).unwrap();
    start_running(&mut reg, "slot", 0);
    let _ = reg.update_instance("slot", 5_000).unwrap();
    reg.create_instance("slot", torrent(2, 1_000_000), quiet_config(), Vec::new(),
        InstanceSource::Manual, 10_000).unwrap();
    let st = reg.get_stats("slot").unwrap();
    assert_eq!(st.uploaded, 0, "another torrent starts its totals afresh");
}

#[test]
fn test_delete_instance_releases_id() {
    let mut reg = Registry::new();
    reg.create_instance("gone", torrent(3, 1_000), quiet_config(), Vec::new(),
        InstanceSource::Manual, 0).unwrap();
    start_running(&mut reg, "gone", 0);
    let stop_req = reg.delete_instance("gone");
    assert!(stop_req.is_some(), "a running instance gets a parting stopped announce");
    assert!(!reg.instance_exists("gone"));
    assert!(reg.delete_instance("gone").is_none(), "deleting again changes nothing");
}

#[test]
fn test_shutdown_stops_active_instances() {
    let mut reg = Registry::new();
    reg.create_instance("run", torrent(1, 1_000), quiet_config(), Vec::new(),
        InstanceSource::Manual, 0).unwrap();
    reg.create_instance("idlestop", torrent(2, 1_000), quiet_config(), Vec::new(),
        InstanceSource::Manual, 0).unwrap();
    start_running(&mut reg, "run", 0);
    let requests = reg.shutdown_all();
    assert_eq!(requests.len(), 1, "only the running instance owes an announce");
    assert_eq!(requests[0].0, "run");
    assert_eq!(reg.get_stats("run").unwrap().state, FakerState::Stopping);
    assert_eq!(reg.get_stats("idlestop").unwrap().state, FakerState::Stopped);
}

#[test]
fn test_grid_tag_updates() {
    let mut reg = Registry::new();
    for (id, tag) in [("x", 1u8), ("y", 2u8)] {
        reg.create_instance(id, torrent(tag, 1_000), quiet_config(), vec!["old".to_string()],
            InstanceSource::Manual, 0).unwrap();
    }
    let ids = vec!["x".to_string()];
    let add = vec!["new".to_string(), "old".to_string()];
    let remove = vec!["old".to_string()];
    let updated = reg.grid_update_tags(&ids, &add, &remove);
    assert_eq!(updated, 1);
    let infos = reg.list_instances();
    let x = infos.iter().find(|i| i.id == "x").unwrap();
    let y = infos.iter().find(|i| i.id == "y").unwrap();
    assert_eq!(x.tags, vec!["new".to_string()]);
    assert_eq!(y.tags, vec!["old".to_string()], "unlisted instances keep their tags");
}

#[test]
fn test_summaries_and_labels() {
    let mut reg = Registry::new();
    reg.create_instance("sum", torrent(0xAB, 2_000), quiet_config(), Vec::new(),
        InstanceSource::WatchFolder, 77).unwrap();
    let rows = reg.list_instance_summaries();
    assert_eq!(rows.len(), 1);
    let row = &rows[0];
    assert_eq!(row.id, "sum");
    assert_eq!(row.state, "stopped");
    assert_eq!(row.source, "watch_folder");
    assert_eq!(row.created_at, 77);
    assert_eq!(row.info_hash, "ab".repeat(20));
    assert_eq!(row.total_size, 2_000);
}

#[test]
fn test_snapshot_and_restore() {
    let mut reg = Registry::new();
    reg.create_instance("keep", torrent(5, 1_000_000), quiet_config(), vec!["t".to_string()],
        InstanceSource::Manual, 42).unwrap();
    start_running(&mut reg, "keep", 0);
    for i in 1..=12u64 {
        let _ = reg.update_instance("keep", i * 5_000).unwrap();
    }
    let snap = reg.snapshot_state(1234);
    assert_eq!(snap.instances.len(), 1);
    let p = &snap.instances[0];
    assert_eq!(p.id, "keep");
    assert_eq!(p.state, FakerState::Running);
    assert_eq!(p.cumulative_uploaded, 50 * 1024 * 60);
    assert_eq!(p.updated_at, 1234);

    let mut fresh = Registry::new();
    let (restored, to_start) = fresh.load_saved_state(snap, 0);
    assert_eq!(restored, 1);
    assert_eq!(to_start, vec!["keep".to_string()]);
    let st = fresh.get_stats("keep").unwrap();
    assert_eq!(st.uploaded, 50 * 1024 * 60, "the lifetime total carried over");
    assert_eq!(st.session_uploaded, 0, "the new run's session starts afresh");
    assert_eq!(st.state, FakerState::Stopped, "restored engines wait to be started");
}

#[test]
fn test_find_by_info_hash_and_ids() {
    let mut reg = Registry::new();
    reg.create_instance("h1", torrent(11, 1_000), quiet_config(), Vec::new(),
        InstanceSource::Manual, 0).unwrap();
    assert_eq!(reg.find_instance_by_info_hash(&[11u8; 20]), Some("h1".to_string()));
    assert_eq!(reg.find_instance_by_info_hash(&[12u8; 20]), None);
    let id = reg.next_instance_id();
    assert_eq!(id.len(), 10);
    assert!(reg.get_stats("absent").is_err());
}

#[test]
fn test_update_config_refused_while_active() {
    let mut reg = Registry::new();
    reg.create_instance("cfg", torrent(4, 1_000_000), quiet_config(), Vec::new(),
        InstanceSource::Manual, 0).unwrap();
    start_running(&mut reg, "cfg", 0);
    let mut new_config = quiet_config();
    new_config.upload_rate = 75;
    // A running instance refuses a configuration change without side effects.
    assert!(reg.update_instance_config("cfg", new_config.clone(), 1_000).is_err());
    reg.pause_instance("cfg").unwrap();
    assert!(reg.update_instance_config("cfg", new_config.clone(), 2_000).is_err());
    reg.stop_instance("cfg").unwrap();
    reg.complete_stop_instance("cfg", true).unwrap();
    // A stopped instance takes it; the engine is rebuilt with session
    // counters afresh.
    reg.update_instance_config("cfg", new_config, 3_000).unwrap();
    let st = reg.get_stats("cfg").unwrap();
    assert_eq!(st.session_uploaded, 0);
    assert_eq!(st.state, FakerState::Stopped);
    let infos = reg.list_instances();
    assert_eq!(infos[0].config.upload_rate, 75);
}

#[test]
fn test_grid_delete_mixed_ids() {
    let mut reg = Registry::new();
    reg.create_instance("d1", torrent(1, 1_000), quiet_config(), Vec::new(),
        InstanceSource::Manual, 0).unwrap();
    reg.create_instance("d2", torrent(2, 1_000), quiet_config(), Vec::new(),
        InstanceSource::Manual, 0).unwrap();
    start_running(&mut reg, "d1", 0);
    let ids = vec!["d1".to_string(), "missing".to_string(), "d2".to_string()];
    let outcome = reg.grid_delete(&ids);
    assert_eq!(outcome.succeeded, vec!["d1".to_string(), "d2".to_string()]);
    assert_eq!(outcome.failed.len(), 1);
    assert_eq!(outcome.failed[0].id, "missing");
    // Only the running instance owed a parting announce.
    assert_eq!(outcome.announces.len(), 1);
    assert_eq!(outcome.announces[0].0, "d1");
    assert!(!reg.instance_exists("d1"));
    assert!(!reg.instance_exists("d2"));
}

#[test]
fn test_default_config_round_trip() {
    let mut reg = Registry::new();
    assert!(reg.get_default_config().is_none());
    let mut c = quiet_config();
    c.upload_rate = 33;
    reg.set_default_config(Some(c));
    let got = reg.get_default_config().unwrap();
    assert_eq!(got.upload_rate, 33);
    reg.set_default_config(None);
    assert!(reg.get_default_config().is_none());
}

#[test]
fn test_restore_skips_out_of_range_config() {
    let mut reg = Registry::new();
    reg.create_instance("good", torrent(1, 1_000), quiet_config(), Vec::new(),
        InstanceSource::Manual, 0).unwrap();
    let mut snap = reg.snapshot_state(1);
    // A snapshot record whose configuration is out of range is left out.
    let mut bad = rustatio::PersistedInstance {
        id: "bad".to_string(),
        torrent: torrent(2, 1_000),
        config: quiet_config(),
        cumulative_uploaded: 5,
        cumulative_downloaded: 0,
        state: FakerState::Running,
        created_at: 0,
        updated_at: 0,
        source: InstanceSource::Manual,
        tags: Vec::new(),
    };
    bad.config.random_range_percent = 999;
    snap.instances.push(bad);

    let mut fresh = Registry::new();
    let (restored, to_start) = fresh.load_saved_state(snap, 0);
    assert_eq!(restored, 1, "only the record in range is restored");
    assert!(to_start.is_empty(), "the stopped record is not restarted");
    assert!(fresh.instance_exists("good"));
    assert!(!fresh.instance_exists("bad"));
}
