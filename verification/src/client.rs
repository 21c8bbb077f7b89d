use vstd::prelude::*;
use vstd::string::*;

use crate::entropy::random_below;
use crate::strutil::{
    is_alnum_char, is_upper_hex_char, pad_to_width_with_char, padded_to, split_dots,
    split_dots_string, str_eq, without_dots, without_dots_string,
};

verus! {

/// The emulated client brand.
#[derive(Debug, Clone, Copy, PartialEq, Eq, Structural)]
pub enum ClientType {
    UTorrent,
    QBittorrent,
    Transmission,
    Deluge,
    BitTorrent,
}

/// The HTTP protocol revision a client speaks to the tracker.
#[derive(Debug, Clone, Copy, PartialEq, Eq, Structural)]
pub enum HttpVersion {
    Http10,
    Http11,
}

/// Display metadata about one emulated client brand.
#[derive(Debug, Clone)]
pub struct ClientInfo {
    /// Machine-readable identifier, such as "qbittorrent".
    pub id: String,
    /// Human-readable display name, such as "qBittorrent".
    pub name: String,
    /// The version assumed when none is picked.
    pub default_version: String,
    /// Offered versions, newest first.
    pub versions: Vec<String>,
    /// The port the real client listens on by default.
    pub default_port: u16,
}

/// Resolved identity of one emulated client: the strings and toggles that
/// announce requests carry.
#[derive(Debug, Clone)]
pub struct ClientConfig {
    pub client_type: ClientType,
    pub version: String,
    pub peer_id_prefix: String,
    pub user_agent: String,
    pub http_version: HttpVersion,
    pub num_want: u32,
    pub supports_compact: bool,
    pub supports_crypto: bool,
}

/// The machine-readable identifier of a brand.
pub open spec fn client_id_chars(t: ClientType) -> Seq<char> {
    match t {
        ClientType::UTorrent => "utorrent"@,
        ClientType::QBittorrent => "qbittorrent"@,
        ClientType::Transmission => "transmission"@,
        ClientType::Deluge => "deluge"@,
        ClientType::BitTorrent => "bittorrent"@,
    }
}

/// The display name of a brand.
pub open spec fn client_name_chars(t: ClientType) -> Seq<char> {
    match t {
        ClientType::UTorrent => "µTorrent"@,
        ClientType::QBittorrent => "qBittorrent"@,
        ClientType::Transmission => "Transmission"@,
        ClientType::Deluge => "Deluge"@,
        ClientType::BitTorrent => "BitTorrent"@,
    }
}

/// The version a brand assumes when none is picked.
pub open spec fn client_default_version_chars(t: ClientType) -> Seq<char> {
    match t {
        ClientType::UTorrent => "3.5.5"@,
        ClientType::QBittorrent => "5.1.4"@,
        ClientType::Transmission => "4.0.5"@,
        ClientType::Deluge => "2.1.1"@,
        ClientType::BitTorrent => "7.11.0"@,
    }
}

/// The port the real client of a brand listens on by default.
pub open spec fn client_default_port(t: ClientType) -> u16 {
    match t {
        ClientType::Transmission => 51413u16,
        _ => 6881u16,
    }
}

/// The brand opening of a peer id: convention marker plus two-letter code.
pub open spec fn brand_marker_chars(t: ClientType) -> Seq<char> {
    match t {
        ClientType::UTorrent => "-UT"@,
        ClientType::QBittorrent => "-qB"@,
        ClientType::Transmission => "-TR"@,
        ClientType::Deluge => "-DE"@,
        ClientType::BitTorrent => "-BT"@,
    }
}

/// The user agent opening, up to and including the slash.
pub open spec fn agent_head_chars(t: ClientType) -> Seq<char> {
    match t {
        ClientType::UTorrent => "uTorrent/"@,
        ClientType::QBittorrent => "qBittorrent/"@,
        ClientType::Transmission => "Transmission/"@,
        ClientType::Deluge => "Deluge/"@,
        ClientType::BitTorrent => "BitTorrent/"@,
    }
}

/// The four-character version code inside a peer id, derived from the
/// version string per brand convention.
pub open spec fn version_code_chars(t: ClientType, v: Seq<char>) -> Seq<char> {
    let parts = split_dots(v);
    match t {
        ClientType::UTorrent => padded_to(without_dots(v), 4, '0'),
        ClientType::QBittorrent => padded_to(
            if parts.len() >= 3 {
                parts[0] + parts[1] + parts[2]
            } else {
                "514"@
            },
            4,
            '0',
        ),
        ClientType::Transmission => padded_to(
            if parts.len() >= 2 {
                parts[0] + padded_to(parts[1], 2, '0')
            } else {
                "400"@
            },
            4,
            '0',
        ),
        ClientType::Deluge => padded_to(
            if parts.len() >= 3 {
                parts[0] + parts[1] + parts[2]
            } else {
                "211"@
            },
            4,
            '0',
        ),
        ClientType::BitTorrent => padded_to(
            if parts.len() >= 3 {
                parts[0] + parts[1] + parts[2]
            } else {
                "7110"@
            },
            4,
            '0',
        ),
    }
}

/// The whole eight-character peer id prefix of a brand and version.
pub open spec fn peer_prefix_chars(t: ClientType, v: Seq<char>) -> Seq<char> {
    brand_marker_chars(t) + version_code_chars(t, v) + "-"@
}

/// The version a configuration resolves to: the chosen one, or the default.
pub open spec fn resolved_version_chars(t: ClientType, v: Option<String>) -> Seq<char> {
    match v {
        Some(s) => s@,
        None => client_default_version_chars(t),
    }
}

/// The brand whose machine-readable identifier this is, if any.
pub open spec fn spec_from_id(s: Seq<char>) -> Option<ClientType> {
    if s == client_id_chars(ClientType::UTorrent) {
        Some(ClientType::UTorrent)
    } else if s == client_id_chars(ClientType::QBittorrent) {
        Some(ClientType::QBittorrent)
    } else if s == client_id_chars(ClientType::Transmission) {
        Some(ClientType::Transmission)
    } else if s == client_id_chars(ClientType::Deluge) {
        Some(ClientType::Deluge)
    } else if s == client_id_chars(ClientType::BitTorrent) {
        Some(ClientType::BitTorrent)
    } else {
        None
    }
}

impl ClientType {
    /// Every supported brand, in display order.
    pub fn all() -> (r: Vec<ClientType>)
        ensures
            r@ == seq![
                ClientType::UTorrent,
                ClientType::QBittorrent,
                ClientType::Transmission,
                ClientType::Deluge,
                ClientType::BitTorrent,
            ],
    {
        let r: Vec<ClientType> = vec![
            ClientType::UTorrent,
            ClientType::QBittorrent,
            ClientType::Transmission,
            ClientType::Deluge,
            ClientType::BitTorrent,
        ];
        proof {
            assert(r@ =~= seq![
                ClientType::UTorrent,
                ClientType::QBittorrent,
                ClientType::Transmission,
                ClientType::Deluge,
                ClientType::BitTorrent,
            ]);
        }
        r
    }

    /// The machine-readable identifiers of every brand, in display order.
    pub fn all_ids() -> (r: Vec<String>)
        ensures
            r@.len() == 5,
            forall|i: int|
                0 <= i < 5 ==> r@[i]@ == client_id_chars(Self::all_spec()[i]),
    {
        let all = Self::all();
        let mut r: Vec<String> = Vec::new();
        let mut i: usize = 0;
        while i < all.len()
            invariant
                all@ == Self::all_spec(),
                i <= 5,
                r@.len() == i,
                forall|j: int| 0 <= j < i ==> r@[j]@ == client_id_chars(Self::all_spec()[j]),
            decreases 5 - i,
        {
            let info = all[i].info();
            r.push(info.id);
            i += 1;
        }
        r
    }

    /// The full metadata of every brand, in display order.
    pub fn all_infos() -> (r: Vec<ClientInfo>)
        ensures
            r@.len() == 5,
            forall|i: int|
                0 <= i < 5 ==> r@[i].id@ == client_id_chars(Self::all_spec()[i]),
    {
        let all = Self::all();
        let mut r: Vec<ClientInfo> = Vec::new();
        let mut i: usize = 0;
        while i < all.len()
            invariant
                all@ == Self::all_spec(),
                i <= 5,
                r@.len() == i,
                forall|j: int| 0 <= j < i ==> r@[j].id@ == client_id_chars(Self::all_spec()[j]),
            decreases 5 - i,
        {
            let info = all[i].info();
            r.push(info);
            i += 1;
        }
        r
    }

    pub open spec fn all_spec() -> Seq<ClientType> {
        seq![
            ClientType::UTorrent,
            ClientType::QBittorrent,
            ClientType::Transmission,
            ClientType::Deluge,
            ClientType::BitTorrent,
        ]
    }

    /// Finds the brand whose machine-readable identifier is `id`.
    pub fn from_id(id: &str) -> (r: Option<ClientType>)
        ensures
            r == spec_from_id(id@),
    {
        if str_eq(id, "utorrent") {
            Some(ClientType::UTorrent)
        } else if str_eq(id, "qbittorrent") {
            Some(ClientType::QBittorrent)
        } else if str_eq(id, "transmission") {
            Some(ClientType::Transmission)
        } else if str_eq(id, "deluge") {
            Some(ClientType::Deluge)
        } else if str_eq(id, "bittorrent") {
            Some(ClientType::BitTorrent)
        } else {
            None
        }
    }

    /// The display metadata of this brand.
    pub fn info(&self) -> (r: ClientInfo)
        ensures
            r.id@ == client_id_chars(*self),
            r.name@ == client_name_chars(*self),
            r.default_version@ == client_default_version_chars(*self),
            r.default_port == client_default_port(*self),
            r.versions@.len() >= 4,
            r.versions@[0]@ == client_default_version_chars(*self),
    {
        match self {
            ClientType::UTorrent => ClientInfo {
                id: String::from_str("utorrent"),
                name: String::from_str("µTorrent"),
                default_version: String::from_str("3.5.5"),
                versions: vec![
                    String::from_str("3.5.5"),
                    String::from_str("3.5.4"),
                    String::from_str("3.5.3"),
                    String::from_str("3.4.9"),
                    String::from_str("3.4.8"),
                    String::from_str("2.2.1"),
                ],
                default_port: 6881,
            },
            ClientType::QBittorrent => ClientInfo {
                id: String::from_str("qbittorrent"),
                name: String::from_str("qBittorrent"),
                default_version: String::from_str("5.1.4"),
                versions: vec![
                    String::from_str("5.1.4"),
                    String::from_str("5.1.3"),
                    String::from_str("5.0.2"),
                    String::from_str("4.6.7"),
                    String::from_str("4.5.5"),
                    String::from_str("4.4.5"),
                ],
                default_port: 6881,
            },
            ClientType::Transmission => ClientInfo {
                id: String::from_str("transmission"),
                name: String::from_str("Transmission"),
                default_version: String::from_str("4.0.5"),
                versions: vec![
                    String::from_str("4.0.5"),
                    String::from_str("4.0.4"),
                    String::from_str("4.0.3"),
                    String::from_str("3.00"),
                    String::from_str("2.94"),
                    String::from_str("2.93"),
                ],
                default_port: 51413,
            },
            ClientType::Deluge => ClientInfo {
                id: String::from_str("deluge"),
                name: String::from_str("Deluge"),
                default_version: String::from_str("2.1.1"),
                versions: vec![
                    String::from_str("2.1.1"),
                    String::from_str("2.0.5"),
                    String::from_str("2.0.3"),
                    String::from_str("1.3.15"),
                ],
                default_port: 6881,
            },
            ClientType::BitTorrent => ClientInfo {
                id: String::from_str("bittorrent"),
                name: String::from_str("BitTorrent"),
                default_version: String::from_str("7.11.0"),
                versions: vec![
                    String::from_str("7.11.0"),
                    String::from_str("7.10.5"),
                    String::from_str("7.10.4"),
                    String::from_str("7.10.3"),
                    String::from_str("7.10.0"),
                    String::from_str("7.9.9"),
                    String::from_str("7.9.8"),
                    String::from_str("7.9.7"),
                ],
                default_port: 6881,
            },
        }
    }
}

impl ClientConfig {
    /// Whether this identity is well formed: the peer id prefix has its
    /// fixed eight characters.
    pub open spec fn wf(&self) -> bool {
        self.peer_id_prefix@.len() == 8
    }

    /// Resolves the identity of a brand at a version (or its default).
    pub fn get(client_type: ClientType, version: Option<String>) -> (r: ClientConfig)
        ensures
            r.client_type == client_type,
            r.version@ == resolved_version_chars(client_type, version),
            r.peer_id_prefix@ == peer_prefix_chars(
                client_type,
                resolved_version_chars(client_type, version),
            ),
            r.wf(),
            r.user_agent@ == agent_head_chars(client_type) + resolved_version_chars(
                client_type,
                version,
            ),
            r.http_version == HttpVersion::Http11,
            r.num_want == (if client_type == ClientType::Transmission {
                80u32
            } else {
                200u32
            }),
            r.supports_compact,
            r.supports_crypto,
    {
        match client_type {
            ClientType::UTorrent => Self::utorrent(version),
            ClientType::QBittorrent => Self::qbittorrent(version),
            ClientType::Transmission => Self::transmission(version),
            ClientType::Deluge => Self::deluge(version),
            ClientType::BitTorrent => Self::bittorrent(version),
        }
    }

    fn utorrent(version: Option<String>) -> (r: ClientConfig)
        ensures
            r.client_type == ClientType::UTorrent,
            r.version@ == resolved_version_chars(ClientType::UTorrent, version),
            r.peer_id_prefix@ == peer_prefix_chars(ClientType::UTorrent, r.version@),
            r.wf(),
            r.user_agent@ == agent_head_chars(ClientType::UTorrent) + r.version@,
            r.http_version == HttpVersion::Http11,
            r.num_want == 200,
            r.supports_compact,
            r.supports_crypto,
    {
        let version = match version {
            Some(v) => v,
            None => String::from_str("3.5.5"),
        };
        let code = without_dots_string(version.as_str());
        let padded = pad_to_width_with_char(code.as_str(), 4, '0');
        let prefix = assemble_prefix("-UT", padded.as_str());
        proof {
            reveal_strlit("-UT");
            reveal_strlit("-");
            assert(prefix@.len() == 8);
        }
        let agent = assemble_agent("uTorrent/", version.as_str());
        ClientConfig {
            client_type: ClientType::UTorrent,
            version,
            peer_id_prefix: prefix,
            user_agent: agent,
            http_version: HttpVersion::Http11,
            num_want: 200,
            supports_compact: true,
            supports_crypto: true,
        }
    }

    fn qbittorrent(version: Option<String>) -> (r: ClientConfig)
        ensures
            r.client_type == ClientType::QBittorrent,
            r.version@ == resolved_version_chars(ClientType::QBittorrent, version),
            r.peer_id_prefix@ == peer_prefix_chars(ClientType::QBittorrent, r.version@),
            r.wf(),
            r.user_agent@ == agent_head_chars(ClientType::QBittorrent) + r.version@,
            r.http_version == HttpVersion::Http11,
            r.num_want == 200,
            r.supports_compact,
            r.supports_crypto,
    {
        let version = match version {
            Some(v) => v,
            None => String::from_str("5.1.4"),
        };
        let code = three_part_code(version.as_str(), "514");
        let padded = pad_to_width_with_char(code.as_str(), 4, '0');
        let prefix = assemble_prefix("-qB", padded.as_str());
        proof {
            reveal_strlit("-qB");
            reveal_strlit("-");
            assert(prefix@.len() == 8);
        }
        let agent = assemble_agent("qBittorrent/", version.as_str());
        ClientConfig {
            client_type: ClientType::QBittorrent,
            version,
            peer_id_prefix: prefix,
            user_agent: agent,
            http_version: HttpVersion::Http11,
            num_want: 200,
            supports_compact: true,
            supports_crypto: true,
        }
    }

    fn transmission(version: Option<String>) -> (r: ClientConfig)
        ensures
            r.client_type == ClientType::Transmission,
            r.version@ == resolved_version_chars(ClientType::Transmission, version),
            r.peer_id_prefix@ == peer_prefix_chars(ClientType::Transmission, r.version@),
            r.wf(),
            r.user_agent@ == agent_head_chars(ClientType::Transmission) + r.version@,
            r.http_version == HttpVersion::Http11,
            r.num_want == 80,
            r.supports_compact,
            r.supports_crypto,
    {
        let version = match version {
            Some(v) => v,
            None => String::from_str("4.0.5"),
        };
        let parts = split_dots_string(version.as_str());
        let code: String = if parts.len() >= 2 {
            let mut c = parts[0].clone();
            let minor = pad_to_width_with_char(parts[1].as_str(), 2, '0');
            c.append(minor.as_str());
            proof {
                let ghost sparts = split_dots(version@);
                assert(c@ == sparts[0] + padded_to(sparts[1], 2, '0'));
            }
            c
        } else {
            String::from_str("400")
        };
        let padded = pad_to_width_with_char(code.as_str(), 4, '0');
        let prefix = assemble_prefix("-TR", padded.as_str());
        proof {
            reveal_strlit("-TR");
            reveal_strlit("-");
            assert(prefix@.len() == 8);
        }
        let agent = assemble_agent("Transmission/", version.as_str());
        ClientConfig {
            client_type: ClientType::Transmission,
            version,
            peer_id_prefix: prefix,
            user_agent: agent,
            http_version: HttpVersion::Http11,
            num_want: 80,
            supports_compact: true,
            supports_crypto: true,
        }
    }

    fn deluge(version: Option<String>) -> (r: ClientConfig)
        ensures
            r.client_type == ClientType::Deluge,
            r.version@ == resolved_version_chars(ClientType::Deluge, version),
            r.peer_id_prefix@ == peer_prefix_chars(ClientType::Deluge, r.version@),
            r.wf(),
            r.user_agent@ == agent_head_chars(ClientType::Deluge) + r.version@,
            r.http_version == HttpVersion::Http11,
            r.num_want == 200,
            r.supports_compact,
            r.supports_crypto,
    {
        let version = match version {
            Some(v) => v,
            None => String::from_str("2.1.1"),
        };
        let code = three_part_code(version.as_str(), "211");
        let padded = pad_to_width_with_char(code.as_str(), 4, '0');
        let prefix = assemble_prefix("-DE", padded.as_str());
        proof {
            reveal_strlit("-DE");
            reveal_strlit("-");
            assert(prefix@.len() == 8);
        }
        let agent = assemble_agent("Deluge/", version.as_str());
        ClientConfig {
            client_type: ClientType::Deluge,
            version,
            peer_id_prefix: prefix,
            user_agent: agent,
            http_version: HttpVersion::Http11,
            num_want: 200,
            supports_compact: true,
            supports_crypto: true,
        }
    }

    fn bittorrent(version: Option<String>) -> (r: ClientConfig)
        ensures
            r.client_type == ClientType::BitTorrent,
            r.version@ == resolved_version_chars(ClientType::BitTorrent, version),
            r.peer_id_prefix@ == peer_prefix_chars(ClientType::BitTorrent, r.version@),
            r.wf(),
            r.user_agent@ == agent_head_chars(ClientType::BitTorrent) + r.version@,
            r.http_version == HttpVersion::Http11,
            r.num_want == 200,
            r.supports_compact,
            r.supports_crypto,
    {
        let version = match version {
            Some(v) => v,
            None => String::from_str("7.11.0"),
        };
        let code = three_part_code(version.as_str(), "7110");
        let padded = pad_to_width_with_char(code.as_str(), 4, '0');
        let prefix = assemble_prefix("-BT", padded.as_str());
        proof {
            reveal_strlit("-BT");
            reveal_strlit("-");
            assert(prefix@.len() == 8);
        }
        let agent = assemble_agent("BitTorrent/", version.as_str());
        ClientConfig {
            client_type: ClientType::BitTorrent,
            version,
            peer_id_prefix: prefix,
            user_agent: agent,
            http_version: HttpVersion::Http11,
            num_want: 200,
            supports_compact: true,
            supports_crypto: true,
        }
    }

    /// Draws a fresh peer id: the brand and version prefix, then twelve
    /// random digits or letters.
    pub fn generate_peer_id(&self) -> (r: String)
        requires
            self.wf(),
        ensures
            r@.len() == 20,
            r@.take(8) == self.peer_id_prefix@,
            forall|i: int| 8 <= i < 20 ==> is_alnum_char(#[trigger] r@[i]),
    {
        let mut r = self.peer_id_prefix.clone();
        proof {
            assert(r@.take(8) =~= self.peer_id_prefix@);
        }
        let mut i: usize = 0;
        while i < 12
            invariant
                self.wf(),
                i <= 12,
                r@.len() == 8 + i,
                r@.take(8) == self.peer_id_prefix@,
                forall|j: int| 8 <= j < 8 + i ==> is_alnum_char(#[trigger] r@[j]),
            decreases 12 - i,
        {
            let idx = random_below(62);
            let c = alnum_char_at(idx);
            let ghost before = r@;
            crate::strutil::push_char(&mut r, c);
            proof {
                assert(r@.take(8) =~= before.take(8));
            }
            i += 1;
        }
        r
    }

    /// Draws a fresh session key: eight uppercase hexadecimal characters.
    pub fn generate_key() -> (r: String)
        ensures
            r@.len() == 8,
            forall|i: int| 0 <= i < 8 ==> is_upper_hex_char(#[trigger] r@[i]),
    {
        let mut r = String::new();
        let mut i: usize = 0;
        while i < 8
            invariant
                i <= 8,
                r@.len() == i,
                forall|j: int| 0 <= j < i ==> is_upper_hex_char(#[trigger] r@[j]),
            decreases 8 - i,
        {
            let d = random_below(16);
            let c: char = if d < 10 {
                ((d + 48) as u8) as char
            } else {
                ((d + 55) as u8) as char
            };
            crate::strutil::push_char(&mut r, c);
            i += 1;
        }
        r
    }
}

/// The character at one index of the ordered digit, uppercase, lowercase
/// alphabet of sixty-two.
fn alnum_char_at(idx: u64) -> (c: char)
    requires
        idx < 62,
    ensures
        is_alnum_char(c),
{
    if idx < 10 {
        ((idx + 48) as u8) as char
    } else if idx < 36 {
        ((idx + 55) as u8) as char
    } else {
        ((idx + 61) as u8) as char
    }
}

/// Concatenation of the first three dot-separated pieces of the version,
/// or the brand's fallback code when there are fewer.
fn three_part_code(version: &str, fallback: &str) -> (r: String)
    ensures
        ({
            let parts = split_dots(version@);
            r@ == if parts.len() >= 3 {
                parts[0] + parts[1] + parts[2]
            } else {
                fallback@
            }
        }),
{
    let parts = split_dots_string(version);
    if parts.len() >= 3 {
        let mut c = parts[0].clone();
        c.append(parts[1].as_str());
        c.append(parts[2].as_str());
        proof {
            let ghost sparts = split_dots(version@);
            assert(c@ == sparts[0] + sparts[1] + sparts[2]);
        }
        c
    } else {
        fallback.to_owned()
    }
}

/// Joins marker, four-character code and closing hyphen into the prefix.
fn assemble_prefix(marker: &str, code: &str) -> (r: String)
    ensures
        r@ == marker@ + code@ + "-"@,
{
    let mut r = marker.to_owned();
    r.append(code);
    r.append("-");
    r
}

/// Joins the agent head and the version into the user agent.
fn assemble_agent(head: &str, version: &str) -> (r: String)
    ensures
        r@ == head@ + version@,
{
    let mut r = head.to_owned();
    r.append(version);
    r
}

} // verus!
