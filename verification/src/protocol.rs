use vstd::prelude::*;
use vstd::string::*;

use crate::bencode::{ascii_bytes, is_digit, spec_benc_int, spec_benc_str, spec_skip_value};
use crate::bencode::{bytes_eq_str, parse_benc_int, parse_benc_str, skip_value};
use crate::strutil::{dec_digits, percent_encode_all, percent_encoded};

verus! {

/// The lifecycle tag an announce carries; a periodic announce carries none.
#[derive(Debug, Clone, Copy, PartialEq, Eq, Structural)]
pub enum TrackerEvent {
    Started,
    Stopped,
    Completed,
    NoEvent,
}

/// One announce call's payload, as the wire query carries it.
#[derive(Debug, Clone)]
pub struct AnnounceRequest {
    pub info_hash: [u8; 20],
    pub peer_id: String,
    pub port: u16,
    pub uploaded: u64,
    pub downloaded: u64,
    pub left: u64,
    pub compact: bool,
    pub no_peer_id: bool,
    pub event: TrackerEvent,
    pub ip: Option<String>,
    pub numwant: Option<u32>,
    pub key: Option<String>,
    pub tracker_id: Option<String>,
}

/// One peer out of a compact peer list: four address bytes and a port.
#[derive(Debug, Clone, Copy)]
pub struct CompactPeer {
    pub ip: [u8; 4],
    pub port: u16,
}

/// What a tracker answers to an announce.
#[derive(Debug, Clone)]
pub struct AnnounceResponse {
    /// Seconds until the next scheduled announce.
    pub interval: u32,
    /// Session id the tracker asks to be echoed back, if it issued one.
    pub tracker_id: Option<String>,
    /// Seeders known to the tracker.
    pub complete: i64,
    /// Leechers known to the tracker.
    pub incomplete: i64,
    /// Peers from the compact peer list.
    pub peers: Vec<CompactPeer>,
}

/// What a tracker answers to a scrape, for one torrent.
#[derive(Debug, Clone, Copy, PartialEq, Eq, Structural)]
pub struct ScrapeResponse {
    pub complete: i64,
    pub incomplete: i64,
    pub downloaded: i64,
}

/// Why a tracker exchange failed.
#[derive(Debug, Clone)]
pub enum TrackerError {
    /// The transport could not reach the tracker or carried no body.
    Unreachable(String),
    /// The body was not a well-formed tracker dictionary.
    Malformed(String),
    /// The tracker answered with a declared failure reason.
    Failure(String),
}

impl TrackerError {
    /// A short account of the error for logs and callers.
    pub fn message(&self) -> (r: String)
        ensures
            ({
                match *self {
                    TrackerError::Unreachable(ref m) => r@ == "tracker unreachable: "@ + m@,
                    TrackerError::Malformed(ref m) => r@ == "malformed tracker response: "@
                        + m@,
                    TrackerError::Failure(ref m) => r@ == "tracker failure: "@ + m@,
                }
            }),
    {
        match self {
            TrackerError::Unreachable(m) => {
                let mut s = String::from_str("tracker unreachable: ");
                s.append(m.as_str());
                s
            },
            TrackerError::Malformed(m) => {
                let mut s = String::from_str("malformed tracker response: ");
                s.append(m.as_str());
                s
            },
            TrackerError::Failure(m) => {
                let mut s = String::from_str("tracker failure: ");
                s.append(m.as_str());
                s
            },
        }
    }
}

/// The query string of an announce, piece for piece: the twenty raw
/// identifier bytes and the peer id percent-escaped, the counters in
/// decimal, the event tag only when the announce carries one, and the
/// optional peer-count, session-key and tracker-session parameters only
/// when set.
pub open spec fn announce_query_chars(r: AnnounceRequest) -> Seq<char> {
    "info_hash="@ + percent_encoded(r.info_hash@) + "&peer_id="@ + percent_encoded(
        vstd::utf8::encode_utf8(r.peer_id@),
    ) + "&port="@ + dec_digits(r.port as int) + "&uploaded="@ + dec_digits(r.uploaded as int)
        + "&downloaded="@ + dec_digits(r.downloaded as int) + "&left="@ + dec_digits(
        r.left as int,
    ) + "&compact="@ + (if r.compact {
        "1"@
    } else {
        "0"@
    }) + (match r.event {
        TrackerEvent::Started => "&event=started"@,
        TrackerEvent::Stopped => "&event=stopped"@,
        TrackerEvent::Completed => "&event=completed"@,
        TrackerEvent::NoEvent => Seq::<char>::empty(),
    }) + (match r.numwant {
        Some(n) => "&numwant="@ + dec_digits(n as int),
        None => Seq::<char>::empty(),
    }) + (match r.key {
        Some(k) => "&key="@ + k@,
        None => Seq::<char>::empty(),
    }) + (match r.tracker_id {
        Some(t) => "&trackerid="@ + percent_encoded(vstd::utf8::encode_utf8(t@)),
        None => Seq::<char>::empty(),
    })
}

/// Renders an announce as its wire query, matching `announce_query_chars`.
#[verifier::rlimit(100)]
pub fn announce_query_string(req: &AnnounceRequest) -> (r: String)
    ensures
        r@ == announce_query_chars(*req),
{
    let mut s = String::from_str("info_hash=");
    let ih = percent_encode_all(&req.info_hash);
    s.append(ih.as_str());
    s.append("&peer_id=");
    let pid = percent_encode_all(req.peer_id.as_str().as_bytes());
    s.append(pid.as_str());
    s.append("&port=");
    let port = crate::strutil::u64_string(req.port as u64);
    s.append(port.as_str());
    s.append("&uploaded=");
    let up = crate::strutil::u64_string(req.uploaded);
    s.append(up.as_str());
    s.append("&downloaded=");
    let down = crate::strutil::u64_string(req.downloaded);
    s.append(down.as_str());
    s.append("&left=");
    let left = crate::strutil::u64_string(req.left);
    s.append(left.as_str());
    s.append("&compact=");
    if req.compact {
        s.append("1");
    } else {
        s.append("0");
    }
    match req.event {
        TrackerEvent::Started => s.append("&event=started"),
        TrackerEvent::Stopped => s.append("&event=stopped"),
        TrackerEvent::Completed => s.append("&event=completed"),
        TrackerEvent::NoEvent => (),
    }
    match &req.numwant {
        Some(n) => {
            s.append("&numwant=");
            let nw = crate::strutil::u64_string(*n as u64);
            s.append(nw.as_str());
        },
        None => (),
    }
    match &req.key {
        Some(k) => {
            s.append("&key=");
            s.append(k.as_str());
        },
        None => (),
    }
    match &req.tracker_id {
        Some(t) => {
            s.append("&trackerid=");
            let tid = percent_encode_all(t.as_str().as_bytes());
            s.append(tid.as_str());
        },
        None => (),
    }
    s
}

/// The query string of a scrape: the one torrent identifier, escaped.
pub open spec fn scrape_query_chars(info_hash: Seq<u8>) -> Seq<char> {
    "info_hash="@ + percent_encoded(info_hash)
}

/// Renders a scrape query, matching `scrape_query_chars`.
pub fn scrape_query_string(info_hash: &[u8; 20]) -> (r: String)
    ensures
        r@ == scrape_query_chars(info_hash@),
{
    let mut s = String::from_str("info_hash=");
    let ih = percent_encode_all(info_hash);
    s.append(ih.as_str());
    s
}

/// The peers a compact peer list holds: six bytes each, four of address
/// and two of port, most significant first; a trailing fragment is
/// dropped.
pub open spec fn peer_of(bs: Seq<u8>, k: int) -> CompactPeer {
    CompactPeer {
        ip: [bs[6 * k], bs[6 * k + 1], bs[6 * k + 2], bs[6 * k + 3]],
        port: (bs[6 * k + 4] * 256 + bs[6 * k + 5]) as u16,
    }
}

/// Decodes a compact peer list, matching `peer_of` entry for entry.
pub fn decode_compact_peers(bs: &Vec<u8>) -> (r: Vec<CompactPeer>)
    ensures
        r@.len() == bs@.len() / 6,
        forall|k: int| 0 <= k < r@.len() ==> r@[k] == peer_of(bs@, k),
{
    let len = bs.len();
    let n = len / 6;
    proof {
        assert(6 * (len as int / 6) <= len as int) by (nonlinear_arith);
    }
    let mut r: Vec<CompactPeer> = Vec::new();
    let mut k: usize = 0;
    while k < n
        invariant
            len == bs@.len(),
            n == bs@.len() / 6,
            k <= n,
            6 * n <= len,
            r@.len() == k,
            forall|j: int| 0 <= j < k ==> r@[j] == peer_of(bs@, j),
        decreases n - k,
    {
        let base = 6 * k;
        let port: u16 = (bs[base + 4] as u16) * 256 + (bs[base + 5] as u16);
        let peer = CompactPeer {
            ip: [bs[base], bs[base + 1], bs[base + 2], bs[base + 3]],
            port,
        };
        r.push(peer);
        k += 1;
    }
    r
}

/// The fields an announce dictionary can fill, each as last seen.
pub struct AnnounceFields {
    pub interval: Option<u64>,
    pub tracker_id: Option<Seq<u8>>,
    pub complete: Option<u64>,
    pub incomplete: Option<u64>,
    pub failure: Option<Seq<u8>>,
    pub peers: Option<Seq<u8>>,
}

/// Walks the entries of an announce dictionary from `pos`: each known key
/// fills its field (an integer for the interval and the peer counts, a
/// byte string for the session id, the failure reason and the compact
/// peer list), an unknown key's value is stepped over, and the walk ends
/// at the closing marker — or gives nothing on ill-formed input.
pub open spec fn ann_walk(s: Seq<u8>, pos: int, acc: AnnounceFields) -> Option<AnnounceFields>
    decreases s.len() - pos,
{
    if !(0 <= pos < s.len()) {
        None
    } else if s[pos] == 101 {
        Some(acc)
    } else {
        match spec_benc_str(s, pos) {
            None => None,
            Some((key, p1)) => {
                if !(pos < p1 <= s.len()) {
                    None
                } else if key == ascii_bytes("interval"@) {
                    match spec_benc_int(s, p1) {
                        Some((v, p2)) => if p1 < p2 <= s.len() {
                            ann_walk(s, p2, AnnounceFields { interval: Some(v), ..acc })
                        } else {
                            None
                        },
                        None => None,
                    }
                } else if key == ascii_bytes("complete"@) {
                    match spec_benc_int(s, p1) {
                        Some((v, p2)) => if p1 < p2 <= s.len() {
                            ann_walk(s, p2, AnnounceFields { complete: Some(v), ..acc })
                        } else {
                            None
                        },
                        None => None,
                    }
                } else if key == ascii_bytes("incomplete"@) {
                    match spec_benc_int(s, p1) {
                        Some((v, p2)) => if p1 < p2 <= s.len() {
                            ann_walk(s, p2, AnnounceFields { incomplete: Some(v), ..acc })
                        } else {
                            None
                        },
                        None => None,
                    }
                } else if key == ascii_bytes("tracker id"@) {
                    match spec_benc_str(s, p1) {
                        Some((v, p2)) => if p1 < p2 <= s.len() {
                            ann_walk(s, p2, AnnounceFields { tracker_id: Some(v), ..acc })
                        } else {
                            None
                        },
                        None => None,
                    }
                } else if key == ascii_bytes("failure reason"@) {
                    match spec_benc_str(s, p1) {
                        Some((v, p2)) => if p1 < p2 <= s.len() {
                            ann_walk(s, p2, AnnounceFields { failure: Some(v), ..acc })
                        } else {
                            None
                        },
                        None => None,
                    }
                } else if key == ascii_bytes("peers"@) && 0 <= p1 < s.len() && is_digit(s[p1]) {
                    match spec_benc_str(s, p1) {
                        Some((v, p2)) => if p1 < p2 <= s.len() {
                            ann_walk(s, p2, AnnounceFields { peers: Some(v), ..acc })
                        } else {
                            None
                        },
                        None => None,
                    }
                } else {
                    match spec_skip_value(s, p1) {
                        Some(p2) => if p1 < p2 <= s.len() {
                            ann_walk(s, p2, acc)
                        } else {
                            None
                        },
                        None => None,
                    }
                }
            },
        }
    }
}

/// No announce field seen yet.
pub open spec fn empty_announce_fields() -> AnnounceFields {
    AnnounceFields {
        interval: None,
        tracker_id: None,
        complete: None,
        incomplete: None,
        failure: None,
        peers: None,
    }
}

/// What an announce body parses to: the walked fields of its top-level
/// dictionary, or nothing where the body is no dictionary at all.
pub open spec fn spec_parse_announce(s: Seq<u8>) -> Option<AnnounceFields> {
    if s.len() >= 1 && s[0] == 100 {
        ann_walk(s, 1, empty_announce_fields())
    } else {
        None
    }
}

/// A count clamped into a `u32`.
pub open spec fn clamp_u32(v: u64) -> u32 {
    if v > u32::MAX {
        u32::MAX
    } else {
        v as u32
    }
}

/// A count clamped into an `i64`.
pub open spec fn clamp_i64(v: u64) -> i64 {
    if v > i64::MAX {
        i64::MAX
    } else {
        v as i64
    }
}

/// Relies on String::from_utf8: the characters decode exactly the given
/// bytes, and bytes that are not well-formed UTF-8 give nothing.
#[verifier::external_body]
fn bytes_to_string(v: Vec<u8>) -> (r: Option<String>)
    ensures
        (match r {
            Some(s) => vstd::utf8::encode_utf8(s@) == v@,
            None => !vstd::utf8::valid_utf8(v@),
        }),
{
    match String::from_utf8(v) {
        Ok(s) => Some(s),
        Err(_) => None,
    }
}

/// Decodes a tracker's announce body.  A declared failure reason comes
/// back as that failure; a body without a dictionary or an interval is
/// malformed; otherwise the interval, the session id, the peer counts
/// and the compact peer list come back, absent counts reading as zero.
pub fn parse_announce_response(body: &Vec<u8>) -> (r: Result<AnnounceResponse, TrackerError>)
    ensures
        spec_parse_announce(body@) is None ==> (r matches Err(e) && e is Malformed),
        (match spec_parse_announce(body@) {
            Some(acc) => {
                &&& acc.failure is Some ==> (r matches Err(e) && e is Failure)
                &&& acc.failure is None && acc.interval is None ==> (r matches Err(e)
                    && e is Malformed)
                &&& (match acc.interval {
                    None => true,
                    Some(iv) => acc.failure is None ==> (r matches Ok(resp) && {
                    &&& resp.interval == clamp_u32(iv)
                    &&& resp.complete == clamp_i64(
                        match acc.complete {
                            Some(v) => v,
                            None => 0,
                        },
                    )
                    &&& resp.incomplete == clamp_i64(
                        match acc.incomplete {
                            Some(v) => v,
                            None => 0,
                        },
                    )
                    &&& (match (resp.tracker_id, acc.tracker_id) {
                        (Some(t), Some(bs)) => vstd::utf8::encode_utf8(t@) == bs,
                        (None, Some(bs)) => !vstd::utf8::valid_utf8(bs),
                        (None, None) => true,
                        (Some(_), None) => false,
                    })
                    &&& (match acc.peers {
                        Some(bs) => resp.peers@.len() == bs.len() / 6 && forall|k: int|
                            0 <= k < resp.peers@.len() ==> resp.peers@[k] == peer_of(bs, k),
                        None => resp.peers@.len() == 0,
                    })
                }),
                })
            },
            None => true,
        }),
{
    if body.len() < 1 || body[0] != 100 {
        return Err(TrackerError::Malformed(String::from_str("not a tracker dictionary")));
    }
    match walk_announce(body, 1) {
        Some(acc) => {
            match acc.failure {
                Some(text) => {
                    let msg = match bytes_to_string(text) {
                        Some(s) => s,
                        None => String::from_str("unreadable failure reason"),
                    };
                    Err(TrackerError::Failure(msg))
                },
                None => {
                    match acc.interval {
                        Some(iv) => {
                            let interval: u32 = if iv > u32::MAX as u64 {
                                u32::MAX
                            } else {
                                iv as u32
                            };
                            let complete: i64 = match acc.complete {
                                Some(v) => if v > i64::MAX as u64 {
                                    i64::MAX
                                } else {
                                    v as i64
                                },
                                None => 0,
                            };
                            let incomplete: i64 = match acc.incomplete {
                                Some(v) => if v > i64::MAX as u64 {
                                    i64::MAX
                                } else {
                                    v as i64
                                },
                                None => 0,
                            };
                            let tracker_id: Option<String> = match acc.tracker_id {
                                Some(bs) => bytes_to_string(bs),
                                None => None,
                            };
                            let peers: Vec<CompactPeer> = match acc.peers {
                                Some(bs) => decode_compact_peers(&bs),
                                None => Vec::new(),
                            };
                            Ok(AnnounceResponse { interval, tracker_id, complete, incomplete, peers })
                        },
                        None => Err(
                            TrackerError::Malformed(String::from_str("no interval in response")),
                        ),
                    }
                },
            }
        },
        None => Err(TrackerError::Malformed(String::from_str("ill-formed tracker dictionary"))),
    }
}

/// The counters of one torrent inside a scrape answer, each as last seen.
pub struct ScrapeStats {
    pub complete: Option<u64>,
    pub downloaded: Option<u64>,
    pub incomplete: Option<u64>,
}

/// Walks the per-torrent dictionary of a scrape answer from `pos`: the
/// three counters fill their fields, anything else is stepped over, and
/// the walk ends just past the closing marker.
pub open spec fn scrape_stats_walk(s: Seq<u8>, pos: int, acc: ScrapeStats) -> Option<
    (ScrapeStats, int),
>
    decreases s.len() - pos,
{
    if !(0 <= pos < s.len()) {
        None
    } else if s[pos] == 101 {
        Some((acc, pos + 1))
    } else {
        match spec_benc_str(s, pos) {
            None => None,
            Some((key, p1)) => {
                if !(pos < p1 <= s.len()) {
                    None
                } else if key == ascii_bytes("complete"@) {
                    match spec_benc_int(s, p1) {
                        Some((v, p2)) => if p1 < p2 <= s.len() {
                            scrape_stats_walk(s, p2, ScrapeStats { complete: Some(v), ..acc })
                        } else {
                            None
                        },
                        None => None,
                    }
                } else if key == ascii_bytes("downloaded"@) {
                    match spec_benc_int(s, p1) {
                        Some((v, p2)) => if p1 < p2 <= s.len() {
                            scrape_stats_walk(s, p2, ScrapeStats { downloaded: Some(v), ..acc })
                        } else {
                            None
                        },
                        None => None,
                    }
                } else if key == ascii_bytes("incomplete"@) {
                    match spec_benc_int(s, p1) {
                        Some((v, p2)) => if p1 < p2 <= s.len() {
                            scrape_stats_walk(s, p2, ScrapeStats { incomplete: Some(v), ..acc })
                        } else {
                            None
                        },
                        None => None,
                    }
                } else {
                    match spec_skip_value(s, p1) {
                        Some(p2) => if p1 < p2 <= s.len() {
                            scrape_stats_walk(s, p2, acc)
                        } else {
                            None
                        },
                        None => None,
                    }
                }
            },
        }
    }
}

/// What a scrape body parses to: the counters of the first torrent under
/// its `files` dictionary, or the declared failure reason — or nothing
/// where the body is ill-formed or lists no torrent.
pub open spec fn spec_parse_scrape(s: Seq<u8>) -> Option<Result<ScrapeStats, Seq<u8>>> {
    if s.len() >= 1 && s[0] == 100 {
        scrape_outer_walk(s, 1)
    } else {
        None
    }
}

/// Walks the top scrape dictionary from `pos`: a failure reason answers
/// at once, the first torrent under `files` answers with its counters,
/// and any other entry is stepped over.
pub open spec fn scrape_outer_walk(s: Seq<u8>, pos: int) -> Option<Result<ScrapeStats, Seq<u8>>>
    decreases s.len() - pos,
{
    if !(0 <= pos < s.len()) {
        None
    } else if s[pos] == 101 {
        None
    } else {
        match spec_benc_str(s, pos) {
            None => None,
            Some((key, p1)) => {
                if !(pos < p1 <= s.len()) {
                    None
                } else if key == ascii_bytes("failure reason"@) {
                    match spec_benc_str(s, p1) {
                        Some((v, p2)) => Some(Err(v)),
                        None => None,
                    }
                } else if key == ascii_bytes("files"@) {
                    if p1 < s.len() && p1 + 1 < s.len() && s[p1] == 100 && s[p1 + 1] != 101 {
                        match spec_benc_str(s, p1 + 1) {
                            Some((hash, p2)) => {
                                if p2 < s.len() && s[p2] == 100 {
                                    match scrape_stats_walk(
                                        s,
                                        p2 + 1,
                                        ScrapeStats {
                                            complete: None,
                                            downloaded: None,
                                            incomplete: None,
                                        },
                                    ) {
                                        Some((stats, _)) => Some(Ok(stats)),
                                        None => None,
                                    }
                                } else {
                                    None
                                }
                            },
                            None => None,
                        }
                    } else {
                        None
                    }
                } else {
                    match spec_skip_value(s, p1) {
                        Some(p2) => if p1 < p2 <= s.len() {
                            scrape_outer_walk(s, p2)
                        } else {
                            None
                        },
                        None => None,
                    }
                }
            },
        }
    }
}

/// Decodes a tracker's scrape body.  A declared failure reason comes back
/// as that failure; a body without the `files` dictionary or without a
/// torrent in it is malformed; otherwise the first torrent's counters
/// come back, absent counters reading as zero.
pub fn parse_scrape_response(body: &Vec<u8>) -> (r: Result<ScrapeResponse, TrackerError>)
    ensures
        spec_parse_scrape(body@) is None ==> (r matches Err(e) && e is Malformed),
        (match spec_parse_scrape(body@) {
            Some(Err(reason)) => r matches Err(e) && e is Failure,
            Some(Ok(stats)) => r matches Ok(resp) && {
                &&& resp.complete == clamp_i64(
                    match stats.complete {
                        Some(v) => v,
                        None => 0,
                    },
                )
                &&& resp.downloaded == clamp_i64(
                    match stats.downloaded {
                        Some(v) => v,
                        None => 0,
                    },
                )
                &&& resp.incomplete == clamp_i64(
                    match stats.incomplete {
                        Some(v) => v,
                        None => 0,
                    },
                )
            },
            None => true,
        }),
{
    if body.len() < 1 || body[0] != 100 {
        return Err(TrackerError::Malformed(String::from_str("not a tracker dictionary")));
    }
    match walk_scrape_outer(body, 1) {
        Some(Err(reason)) => {
            let msg = match bytes_to_string(reason) {
                Some(s) => s,
                None => String::from_str("unreadable failure reason"),
            };
            Err(TrackerError::Failure(msg))
        },
        Some(Ok(stats)) => {
            let complete: i64 = match stats.complete {
                Some(v) => if v > i64::MAX as u64 {
                    i64::MAX
                } else {
                    v as i64
                },
                None => 0,
            };
            let downloaded: i64 = match stats.downloaded {
                Some(v) => if v > i64::MAX as u64 {
                    i64::MAX
                } else {
                    v as i64
                },
                None => 0,
            };
            let incomplete: i64 = match stats.incomplete {
                Some(v) => if v > i64::MAX as u64 {
                    i64::MAX
                } else {
                    v as i64
                },
                None => 0,
            };
            Ok(ScrapeResponse { complete, incomplete, downloaded })
        },
        None => Err(TrackerError::Malformed(String::from_str("no scrape entry in response"))),
    }
}

/// The per-torrent counters as exec values.
struct ScrapeStatsExec {
    complete: Option<u64>,
    downloaded: Option<u64>,
    incomplete: Option<u64>,
}

impl ScrapeStatsExec {
    spec fn view_stats(&self) -> ScrapeStats {
        ScrapeStats {
            complete: self.complete,
            downloaded: self.downloaded,
            incomplete: self.incomplete,
        }
    }
}

/// Walks one torrent's counters, matching `scrape_stats_walk`.
fn walk_scrape_stats(s: &Vec<u8>, pos: usize) -> (r: Option<ScrapeStatsExec>)
    requires
        pos <= s@.len(),
    ensures
        (match r {
            Some(acc) => scrape_stats_walk(
                s@,
                pos as int,
                ScrapeStats { complete: None, downloaded: None, incomplete: None },
            ) matches Some(w) && w.0 == acc.view_stats(),
            None => scrape_stats_walk(
                s@,
                pos as int,
                ScrapeStats { complete: None, downloaded: None, incomplete: None },
            ) is None,
        }),
{
    let mut acc = ScrapeStatsExec { complete: None, downloaded: None, incomplete: None };
    let mut p = pos;
    loop
        invariant
            pos <= p <= s@.len(),
            scrape_stats_walk(s@, p as int, acc.view_stats()) == scrape_stats_walk(
                s@,
                pos as int,
                ScrapeStats { complete: None, downloaded: None, incomplete: None },
            ),
        decreases s@.len() - p,
    {
        if p >= s.len() {
            return None;
        }
        if s[p] == 101 {
            return Some(acc);
        }
        let (key, p1) = match parse_benc_str(s, p) {
            Some(v) => v,
            None => {
                return None;
            },
        };
        proof {
            reveal_strlit("complete");
            reveal_strlit("downloaded");
            reveal_strlit("incomplete");
            assert(vstd::string::is_ascii("complete"));
            assert(vstd::string::is_ascii("downloaded"));
            assert(vstd::string::is_ascii("incomplete"));
        }
        if bytes_eq_str(&key, "complete") {
            match parse_benc_int(s, p1) {
                Some((v, p2)) => {
                    acc.complete = Some(v);
                    p = p2;
                },
                None => {
                    return None;
                },
            }
        } else if bytes_eq_str(&key, "downloaded") {
            match parse_benc_int(s, p1) {
                Some((v, p2)) => {
                    acc.downloaded = Some(v);
                    p = p2;
                },
                None => {
                    return None;
                },
            }
        } else if bytes_eq_str(&key, "incomplete") {
            match parse_benc_int(s, p1) {
                Some((v, p2)) => {
                    acc.incomplete = Some(v);
                    p = p2;
                },
                None => {
                    return None;
                },
            }
        } else {
            match skip_value(s, p1) {
                Some(p2) => {
                    p = p2;
                },
                None => {
                    return None;
                },
            }
        }
    }
}

/// Walks the top scrape dictionary, matching `scrape_outer_walk`.
fn walk_scrape_outer(s: &Vec<u8>, pos: usize) -> (r: Option<Result<ScrapeStatsExec, Vec<u8>>>)
    requires
        pos <= s@.len(),
    ensures
        (match r {
            Some(Ok(acc)) => scrape_outer_walk(s@, pos as int) matches Some(Ok(w)) && w
                == acc.view_stats(),
            Some(Err(reason)) => scrape_outer_walk(s@, pos as int) matches Some(Err(w)) && w
                == reason@,
            None => scrape_outer_walk(s@, pos as int) is None,
        }),
{
    let mut p = pos;
    loop
        invariant
            pos <= p <= s@.len(),
            scrape_outer_walk(s@, p as int) == scrape_outer_walk(s@, pos as int),
        decreases s@.len() - p,
    {
        if p >= s.len() {
            return None;
        }
        if s[p] == 101 {
            return None;
        }
        let (key, p1) = match parse_benc_str(s, p) {
            Some(v) => v,
            None => {
                return None;
            },
        };
        proof {
            reveal_strlit("failure reason");
            reveal_strlit("files");
            assert(vstd::string::is_ascii("failure reason"));
            assert(vstd::string::is_ascii("files"));
        }
        if bytes_eq_str(&key, "failure reason") {
            match parse_benc_str(s, p1) {
                Some((v, _)) => {
                    return Some(Err(v));
                },
                None => {
                    return None;
                },
            }
        } else if bytes_eq_str(&key, "files") {
            if p1 < s.len() && p1 + 1 < s.len() && s[p1] == 100 && s[p1 + 1] != 101 {
                match parse_benc_str(s, p1 + 1) {
                    Some((_, p2)) => {
                        if p2 < s.len() && s[p2] == 100 {
                            match walk_scrape_stats(s, p2 + 1) {
                                Some(stats) => {
                                    return Some(Ok(stats));
                                },
                                None => {
                                    return None;
                                },
                            }
                        } else {
                            return None;
                        }
                    },
                    None => {
                        return None;
                    },
                }
            } else {
                return None;
            }
        } else {
            match skip_value(s, p1) {
                Some(p2) => {
                    p = p2;
                },
                None => {
                    return None;
                },
            }
        }
    }
}

/// The announce fields as exec values.
struct AnnounceFieldsExec {
    interval: Option<u64>,
    tracker_id: Option<Vec<u8>>,
    complete: Option<u64>,
    incomplete: Option<u64>,
    failure: Option<Vec<u8>>,
    peers: Option<Vec<u8>>,
}

impl AnnounceFieldsExec {
    spec fn view_fields(&self) -> AnnounceFields {
        AnnounceFields {
            interval: self.interval,
            tracker_id: match self.tracker_id {
                Some(ref v) => Some(v@),
                None => None,
            },
            complete: self.complete,
            incomplete: self.incomplete,
            failure: match self.failure {
                Some(ref v) => Some(v@),
                None => None,
            },
            peers: match self.peers {
                Some(ref v) => Some(v@),
                None => None,
            },
        }
    }
}

/// Walks the announce dictionary, matching `ann_walk`.
fn walk_announce(s: &Vec<u8>, pos: usize) -> (r: Option<AnnounceFieldsExec>)
    requires
        pos <= s@.len(),
    ensures
        (match r {
            Some(acc) => ann_walk(s@, pos as int, empty_announce_fields()) == Some(
                acc.view_fields(),
            ),
            None => ann_walk(s@, pos as int, empty_announce_fields()) is None,
        }),
    decreases s@.len() - pos,
{
    let mut acc = AnnounceFieldsExec {
        interval: None,
        tracker_id: None,
        complete: None,
        incomplete: None,
        failure: None,
        peers: None,
    };
    proof {
        assert(acc.view_fields() == empty_announce_fields());
    }
    let mut p = pos;
    loop
        invariant
            pos <= p <= s@.len(),
            ann_walk(s@, p as int, acc.view_fields()) == ann_walk(
                s@,
                pos as int,
                empty_announce_fields(),
            ),
        decreases s@.len() - p,
    {
        if p >= s.len() {
            return None;
        }
        if s[p] == 101 {
            return Some(acc);
        }
        let (key, p1) = match parse_benc_str(s, p) {
            Some(v) => v,
            None => {
                return None;
            },
        };
        proof {
            reveal_strlit("interval");
            reveal_strlit("complete");
            reveal_strlit("incomplete");
            reveal_strlit("tracker id");
            reveal_strlit("failure reason");
            reveal_strlit("peers");
            assert(vstd::string::is_ascii("interval"));
            assert(vstd::string::is_ascii("complete"));
            assert(vstd::string::is_ascii("incomplete"));
            assert(vstd::string::is_ascii("tracker id"));
            assert(vstd::string::is_ascii("failure reason"));
            assert(vstd::string::is_ascii("peers"));
        }
        if bytes_eq_str(&key, "interval") {
            match parse_benc_int(s, p1) {
                Some((v, p2)) => {
                    acc.interval = Some(v);
                    p = p2;
                },
                None => {
                    return None;
                },
            }
        } else if bytes_eq_str(&key, "complete") {
            match parse_benc_int(s, p1) {
                Some((v, p2)) => {
                    acc.complete = Some(v);
                    p = p2;
                },
                None => {
                    return None;
                },
            }
        } else if bytes_eq_str(&key, "incomplete") {
            match parse_benc_int(s, p1) {
                Some((v, p2)) => {
                    acc.incomplete = Some(v);
                    p = p2;
                },
                None => {
                    return None;
                },
            }
        } else if bytes_eq_str(&key, "tracker id") {
            match parse_benc_str(s, p1) {
                Some((v, p2)) => {
                    acc.tracker_id = Some(v);
                    p = p2;
                },
                None => {
                    return None;
                },
            }
        } else if bytes_eq_str(&key, "failure reason") {
            match parse_benc_str(s, p1) {
                Some((v, p2)) => {
                    acc.failure = Some(v);
                    p = p2;
                },
                None => {
                    return None;
                },
            }
        } else if bytes_eq_str(&key, "peers") && p1 < s.len() && s[p1] >= 48 && s[p1] <= 57 {
            match parse_benc_str(s, p1) {
                Some((v, p2)) => {
                    acc.peers = Some(v);
                    p = p2;
                },
                None => {
                    return None;
                },
            }
        } else {
            match skip_value(s, p1) {
                Some(p2) => {
                    p = p2;
                },
                None => {
                    return None;
                },
            }
        }
    }
}

} // verus!
