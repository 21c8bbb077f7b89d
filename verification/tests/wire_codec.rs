use rustatio::protocol::{
    announce_query_string, parse_announce_response, parse_scrape_response, scrape_query_string,
};
use rustatio::{AnnounceRequest, TrackerError, TrackerEvent};

fn request(event: TrackerEvent) -> AnnounceRequest {
    AnnounceRequest {
        info_hash: [0u8; 20],
        peer_id: "-qB5140-AAAABBBBCCCC".to_string(),
        port: 6881,
        uploaded: 1024,
        downloaded: 0,
        left: 512,
        compact: true,
        no_peer_id: false,
        event,
        ip: None,
        numwant: Some(50),
        key: Some("0A1B2C3D".to_string()),
        tracker_id: None,
    }
}

#[test]
fn test_announce_query_exact() {
    let q = announce_query_string(&request(TrackerEvent::Started));
    let expected = format!(
        "info_hash={}&peer_id={}&port=6881&uploaded=1024&downloaded=0&left=512&compact=1&event=started&numwant=50&key=0A1B2C3D",
        "%00".repeat(20),
        "%2D%71%42%35%31%34%30%2D%41%41%41%41%42%42%42%42%43%43%43%43",
    );
    assert_eq!(q, expected);
}

#[test]
fn test_announce_query_event_tags() {
    assert!(announce_query_string(&request(TrackerEvent::Stopped)).contains("&event=stopped"));
    assert!(announce_query_string(&request(TrackerEvent::Completed)).contains("&event=completed"));
    let periodic = announce_query_string(&request(TrackerEvent::NoEvent));
    assert!(!periodic.contains("&event="), "a periodic announce carries no event tag");
    let mut with_tid = request(TrackerEvent::NoEvent);
    with_tid.tracker_id = Some("xy".to_string());
    assert!(announce_query_string(&with_tid).ends_with("&trackerid=%78%79"));
}

#[test]
fn test_scrape_query_exact() {
    let mut hash = [0u8; 20];
    hash[0] = 0xff;
    hash[19] = 0x10;
    let q = scrape_query_string(&hash);
    assert!(q.starts_with("info_hash=%FF%00"));
    assert!(q.ends_with("%10"));
    assert_eq!(q.len(), "info_hash=".len() + 3 * 20);
}

#[test]
fn test_parse_announce_success() {
    let body =
        b"d8:completei5e10:incompletei3e8:intervali1800e10:tracker id3:abc5:peers6:\x01\x02\x03\x04\x1a\xe1e"
            .to_vec();
    let resp = parse_announce_response(&body).unwrap();
    assert_eq!(resp.interval, 1800);
    assert_eq!(resp.complete, 5);
    assert_eq!(resp.incomplete, 3);
    assert_eq!(resp.tracker_id, Some("abc".to_string()));
    assert_eq!(resp.peers.len(), 1);
    assert_eq!(resp.peers[0].ip, [1, 2, 3, 4]);
    assert_eq!(resp.peers[0].port, 0x1a * 256 + 0xe1);
}

#[test]
fn test_parse_announce_unknown_keys_skipped() {
    let body = b"d4:spaml3:egg3:hame8:intervali60ee".to_vec();
    let resp = parse_announce_response(&body).unwrap();
    assert_eq!(resp.interval, 60);
    assert_eq!(resp.complete, 0);
    assert!(resp.peers.is_empty());
}

#[test]
fn test_parse_announce_failure_reason() {
    let body = b"d14:failure reason11:not allowede".to_vec();
    match parse_announce_response(&body) {
        Err(TrackerError::Failure(m)) => {
            assert_eq!(m, "not allowed");
            assert_eq!(
                TrackerError::Failure(m).message(),
                "tracker failure: not allowed"
            );
        },
        other => panic!("expected a declared failure, got {:?}", other),
    }
}

#[test]
fn test_parse_announce_malformed() {
    match parse_announce_response(&b"hello".to_vec()) {
        Err(TrackerError::Malformed(_)) => (),
        other => panic!("expected malformed, got {:?}", other),
    }
    match parse_announce_response(&b"d8:intervali1800e".to_vec()) {
        Err(TrackerError::Malformed(_)) => (),
        other => panic!("unterminated dictionary must be malformed, got {:?}", other),
    }
    match parse_announce_response(&b"d8:completei5ee".to_vec()) {
        Err(TrackerError::Malformed(_)) => (),
        other => panic!("a response without interval is malformed, got {:?}", other),
    }
}

#[test]
fn test_parse_scrape_success() {
    let mut body = b"d5:filesd20:".to_vec();
    body.extend_from_slice(&[9u8; 20]);
    body.extend_from_slice(b"d8:completei5e10:downloadedi50e10:incompletei10eeee");
    let resp = parse_scrape_response(&body).unwrap();
    assert_eq!(resp.complete, 5);
    assert_eq!(resp.downloaded, 50);
    assert_eq!(resp.incomplete, 10);
}

#[test]
fn test_parse_scrape_failure_and_malformed() {
    match parse_scrape_response(&b"d14:failure reason7:refusede".to_vec()) {
        Err(TrackerError::Failure(m)) => assert_eq!(m, "refused"),
        other => panic!("expected failure, got {:?}", other),
    }
    match parse_scrape_response(&b"d5:filesdee".to_vec()) {
        Err(TrackerError::Malformed(_)) => (),
        other => panic!("an empty files dictionary is malformed, got {:?}", other),
    }
}

#[test]
fn test_hex_and_decimal_rendering() {
    let mut hash = [0u8; 20];
    hash[0] = 0xde;
    hash[1] = 0xad;
    let hex = rustatio::hex_info_hash(&hash);
    assert!(hex.starts_with("dead"));
    assert_eq!(hex.len(), 40);
    assert_eq!(rustatio::strutil::u64_string(0), "0");
    assert_eq!(rustatio::strutil::u64_string(12345), "12345");
    assert_eq!(rustatio::strutil::u64_string(u64::MAX), "18446744073709551615");
}

#[test]
fn test_constant_time_eq() {
    assert!(rustatio::constant_time_eq(b"hello", b"hello"));
    assert!(!rustatio::constant_time_eq(b"hello", b"world"));
    assert!(!rustatio::constant_time_eq(b"hello", b"hell"));
    assert!(!rustatio::constant_time_eq(b"", b"a"));
    assert!(rustatio::constant_time_eq(b"", b""));
}

#[test]
fn test_split_and_strip_versions() {
    let parts = rustatio::strutil::split_dots_string("5.1.4");
    assert_eq!(parts, vec!["5".to_string(), "1".to_string(), "4".to_string()]);
    let parts = rustatio::strutil::split_dots_string("300");
    assert_eq!(parts, vec!["300".to_string()]);
    assert_eq!(rustatio::strutil::without_dots_string("3.5.5"), "355");
}

#[test]
fn test_instance_id_length() {
    let reg = rustatio::Registry::new();
    let a = reg.next_instance_id();
    let b = reg.next_instance_id();
    assert_eq!(a.len(), 10);
    assert_ne!(a, b, "fresh ids should differ");
}
