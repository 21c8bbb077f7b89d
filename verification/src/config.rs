use vstd::prelude::*;

use crate::arith::sat_mul_exec;
use crate::client::ClientType;

verus! {

/// The largest accepted transfer rate, in kilobytes per second.  A rate
/// beyond it would let the per-tick byte arithmetic outgrow its room.
pub const MAX_RATE_KBS: u64 = 1000000000;

/// Immutable settings of one emulated session.  Rates are kilobytes per
/// second, shares are thousandths, times are seconds, amounts are bytes.
#[derive(Debug, Clone)]
pub struct FakerConfig {
    /// Upload rate in KB/s.
    pub upload_rate: u64,
    /// Download rate in KB/s.
    pub download_rate: u64,
    /// Port to announce.
    pub port: u16,
    /// Client brand to emulate.
    pub client_type: ClientType,
    /// Client version; the brand's default when absent.
    pub client_version: Option<String>,
    /// Lifetime uploaded bytes carried over from prior runs.
    pub initial_uploaded: u64,
    /// Lifetime downloaded bytes carried over from prior runs.
    pub initial_downloaded: u64,
    /// Share of the torrent already held at start, in thousandths.
    pub completion_permille: u32,
    /// How many peers to ask of the tracker.
    pub num_want: u32,
    /// Whether rates wander around their configured value.
    pub randomize_rates: bool,
    /// Half-width of the wandering, in percent of the rate.
    pub random_range_percent: u64,
    /// Stop once the session ratio reaches this many thousandths.
    pub stop_at_ratio_permille: Option<u64>,
    /// Stop once this many bytes were uploaded this session.
    pub stop_at_uploaded: Option<u64>,
    /// Stop once this many bytes were downloaded this session.
    pub stop_at_downloaded: Option<u64>,
    /// Stop once this many seconds of the session have passed.
    pub stop_at_seed_time: Option<u64>,
    /// Upload nothing while the tracker reports no leechers.
    pub idle_when_no_leechers: bool,
    /// Download nothing while the tracker reports no seeders.
    pub idle_when_no_seeders: bool,
    /// Seconds between scrape calls for peer counts.
    pub scrape_interval: u64,
    /// Whether rates ramp from the configured value toward a target.
    pub progressive_rates: bool,
    /// Upload rate the ramp heads for, in KB/s.
    pub target_upload_rate: Option<u64>,
    /// Download rate the ramp heads for, in KB/s.
    pub target_download_rate: Option<u64>,
    /// Seconds the ramp takes.
    pub progressive_duration: u64,
}

impl FakerConfig {
    /// Whether every setting lies in its accepted room: rates at most
    /// `MAX_RATE_KBS`, the randomization half-width at most one hundred
    /// percent, the starting share at most the whole.
    pub open spec fn valid(&self) -> bool {
        &&& self.upload_rate <= MAX_RATE_KBS
        &&& self.download_rate <= MAX_RATE_KBS
        &&& self.random_range_percent <= 100
        &&& self.completion_permille <= 1000
        &&& (match self.target_upload_rate {
            Some(t) => t <= MAX_RATE_KBS,
            None => true,
        })
        &&& (match self.target_download_rate {
            Some(t) => t <= MAX_RATE_KBS,
            None => true,
        })
    }

    /// A copy of this configuration: every plain field equal, the chosen
    /// version character for character.
    pub fn clone_config(&self) -> (r: FakerConfig)
        ensures
            r.upload_rate == self.upload_rate,
            r.download_rate == self.download_rate,
            r.port == self.port,
            r.client_type == self.client_type,
            (match (r.client_version, self.client_version) {
                (Some(a), Some(b)) => a@ == b@,
                (None, None) => true,
                _ => false,
            }),
            r.initial_uploaded == self.initial_uploaded,
            r.initial_downloaded == self.initial_downloaded,
            r.completion_permille == self.completion_permille,
            r.num_want == self.num_want,
            r.randomize_rates == self.randomize_rates,
            r.random_range_percent == self.random_range_percent,
            r.stop_at_ratio_permille == self.stop_at_ratio_permille,
            r.stop_at_uploaded == self.stop_at_uploaded,
            r.stop_at_downloaded == self.stop_at_downloaded,
            r.stop_at_seed_time == self.stop_at_seed_time,
            r.idle_when_no_leechers == self.idle_when_no_leechers,
            r.idle_when_no_seeders == self.idle_when_no_seeders,
            r.scrape_interval == self.scrape_interval,
            r.progressive_rates == self.progressive_rates,
            r.target_upload_rate == self.target_upload_rate,
            r.target_download_rate == self.target_download_rate,
            r.progressive_duration == self.progressive_duration,
            r.valid() == self.valid(),
    {
        let client_version = match &self.client_version {
            Some(v) => Some(v.clone()),
            None => None,
        };
        FakerConfig {
            upload_rate: self.upload_rate,
            download_rate: self.download_rate,
            port: self.port,
            client_type: self.client_type,
            client_version,
            initial_uploaded: self.initial_uploaded,
            initial_downloaded: self.initial_downloaded,
            completion_permille: self.completion_permille,
            num_want: self.num_want,
            randomize_rates: self.randomize_rates,
            random_range_percent: self.random_range_percent,
            stop_at_ratio_permille: self.stop_at_ratio_permille,
            stop_at_uploaded: self.stop_at_uploaded,
            stop_at_downloaded: self.stop_at_downloaded,
            stop_at_seed_time: self.stop_at_seed_time,
            idle_when_no_leechers: self.idle_when_no_leechers,
            idle_when_no_seeders: self.idle_when_no_seeders,
            scrape_interval: self.scrape_interval,
            progressive_rates: self.progressive_rates,
            target_upload_rate: self.target_upload_rate,
            target_download_rate: self.target_download_rate,
            progressive_duration: self.progressive_duration,
        }
    }

    /// Checks `valid` at run time.
    pub fn is_valid(&self) -> (r: bool)
        ensures
            r == self.valid(),
    {
        let targets_ok = match self.target_upload_rate {
            Some(t) => t <= MAX_RATE_KBS,
            None => true,
        } && match self.target_download_rate {
            Some(t) => t <= MAX_RATE_KBS,
            None => true,
        };
        self.upload_rate <= MAX_RATE_KBS && self.download_rate <= MAX_RATE_KBS
            && self.random_range_percent <= 100 && self.completion_permille <= 1000
            && targets_ok
    }
}

impl Default for FakerConfig {
    /// The stock configuration: fifty up, a hundred down, a qBittorrent
    /// identity, nothing held yet, wandering rates of twenty percent,
    /// no stop targets, scrape each minute.
    fn default() -> (r: FakerConfig)
        ensures
            r.upload_rate == 50,
            r.download_rate == 100,
            r.port == 6881,
            r.client_type == ClientType::QBittorrent,
            r.client_version is None,
            r.initial_uploaded == 0,
            r.initial_downloaded == 0,
            r.completion_permille == 0,
            r.num_want == 50,
            r.randomize_rates,
            r.random_range_percent == 20,
            r.stop_at_ratio_permille is None,
            r.stop_at_uploaded is None,
            r.stop_at_downloaded is None,
            r.stop_at_seed_time is None,
            !r.idle_when_no_leechers,
            !r.idle_when_no_seeders,
            r.scrape_interval == 60,
            !r.progressive_rates,
            r.target_upload_rate is None,
            r.target_download_rate is None,
            r.progressive_duration == 3600,
            r.valid(),
    {
        FakerConfig {
            upload_rate: 50,
            download_rate: 100,
            port: 6881,
            client_type: ClientType::QBittorrent,
            client_version: None,
            initial_uploaded: 0,
            initial_downloaded: 0,
            completion_permille: 0,
            num_want: 50,
            randomize_rates: true,
            random_range_percent: 20,
            stop_at_ratio_permille: None,
            stop_at_uploaded: None,
            stop_at_downloaded: None,
            stop_at_seed_time: None,
            idle_when_no_leechers: false,
            idle_when_no_seeders: false,
            scrape_interval: 60,
            progressive_rates: false,
            target_upload_rate: None,
            target_download_rate: None,
            progressive_duration: 3600,
        }
    }
}

/// Preset settings as the surface layers hand them over: every field
/// optional, byte amounts in whole gigabytes, durations in whole hours.
#[derive(Debug, Clone)]
pub struct PresetSettings {
    pub upload_rate: Option<u64>,
    pub download_rate: Option<u64>,
    pub port: Option<u16>,
    pub selected_client: Option<ClientType>,
    pub selected_client_version: Option<String>,
    pub completion_permille: Option<u32>,
    pub randomize_rates: Option<bool>,
    pub random_range_percent: Option<u64>,
    pub stop_at_ratio_enabled: Option<bool>,
    pub stop_at_ratio_permille: Option<u64>,
    pub stop_at_uploaded_enabled: Option<bool>,
    pub stop_at_uploaded_gb: Option<u64>,
    pub stop_at_downloaded_enabled: Option<bool>,
    pub stop_at_downloaded_gb: Option<u64>,
    pub stop_at_seed_time_enabled: Option<bool>,
    pub stop_at_seed_time_hours: Option<u64>,
    pub idle_when_no_leechers: Option<bool>,
    pub idle_when_no_seeders: Option<bool>,
    pub progressive_rates_enabled: Option<bool>,
    pub target_upload_rate: Option<u64>,
    pub target_download_rate: Option<u64>,
    pub progressive_duration_hours: Option<u64>,
}

impl Default for PresetSettings {
    /// A preset that picks nothing: every field absent.
    fn default() -> (r: PresetSettings)
        ensures
            r.upload_rate is None,
            r.download_rate is None,
            r.port is None,
            r.selected_client is None,
            r.selected_client_version is None,
            r.completion_permille is None,
            r.randomize_rates is None,
            r.random_range_percent is None,
            r.stop_at_ratio_enabled is None,
            r.stop_at_ratio_permille is None,
            r.stop_at_uploaded_enabled is None,
            r.stop_at_uploaded_gb is None,
            r.stop_at_downloaded_enabled is None,
            r.stop_at_downloaded_gb is None,
            r.stop_at_seed_time_enabled is None,
            r.stop_at_seed_time_hours is None,
            r.idle_when_no_leechers is None,
            r.idle_when_no_seeders is None,
            r.progressive_rates_enabled is None,
            r.target_upload_rate is None,
            r.target_download_rate is None,
            r.progressive_duration_hours is None,
    {
        PresetSettings {
            upload_rate: None,
            download_rate: None,
            port: None,
            selected_client: None,
            selected_client_version: None,
            completion_permille: None,
            randomize_rates: None,
            random_range_percent: None,
            stop_at_ratio_enabled: None,
            stop_at_ratio_permille: None,
            stop_at_uploaded_enabled: None,
            stop_at_uploaded_gb: None,
            stop_at_downloaded_enabled: None,
            stop_at_downloaded_gb: None,
            stop_at_seed_time_enabled: None,
            stop_at_seed_time_hours: None,
            idle_when_no_leechers: None,
            idle_when_no_seeders: None,
            progressive_rates_enabled: None,
            target_upload_rate: None,
            target_download_rate: None,
            progressive_duration_hours: None,
        }
    }
}

impl PresetSettings {
    /// A copy of this preset: every plain field equal, the chosen version
    /// character for character.
    pub fn clone_preset(&self) -> (r: PresetSettings)
        ensures
            r.upload_rate == self.upload_rate,
            r.download_rate == self.download_rate,
            r.port == self.port,
            r.selected_client == self.selected_client,
            (match (r.selected_client_version, self.selected_client_version) {
                (Some(a), Some(b)) => a@ == b@,
                (None, None) => true,
                _ => false,
            }),
            r.completion_permille == self.completion_permille,
            r.randomize_rates == self.randomize_rates,
            r.random_range_percent == self.random_range_percent,
            r.stop_at_ratio_enabled == self.stop_at_ratio_enabled,
            r.stop_at_ratio_permille == self.stop_at_ratio_permille,
            r.stop_at_uploaded_enabled == self.stop_at_uploaded_enabled,
            r.stop_at_uploaded_gb == self.stop_at_uploaded_gb,
            r.stop_at_downloaded_enabled == self.stop_at_downloaded_enabled,
            r.stop_at_downloaded_gb == self.stop_at_downloaded_gb,
            r.stop_at_seed_time_enabled == self.stop_at_seed_time_enabled,
            r.stop_at_seed_time_hours == self.stop_at_seed_time_hours,
            r.idle_when_no_leechers == self.idle_when_no_leechers,
            r.idle_when_no_seeders == self.idle_when_no_seeders,
            r.progressive_rates_enabled == self.progressive_rates_enabled,
            r.target_upload_rate == self.target_upload_rate,
            r.target_download_rate == self.target_download_rate,
            r.progressive_duration_hours == self.progressive_duration_hours,
    {
        let selected_client_version = match &self.selected_client_version {
            Some(v) => Some(v.clone()),
            None => None,
        };
        PresetSettings {
            upload_rate: self.upload_rate,
            download_rate: self.download_rate,
            port: self.port,
            selected_client: self.selected_client,
            selected_client_version,
            completion_permille: self.completion_permille,
            randomize_rates: self.randomize_rates,
            random_range_percent: self.random_range_percent,
            stop_at_ratio_enabled: self.stop_at_ratio_enabled,
            stop_at_ratio_permille: self.stop_at_ratio_permille,
            stop_at_uploaded_enabled: self.stop_at_uploaded_enabled,
            stop_at_uploaded_gb: self.stop_at_uploaded_gb,
            stop_at_downloaded_enabled: self.stop_at_downloaded_enabled,
            stop_at_downloaded_gb: self.stop_at_downloaded_gb,
            stop_at_seed_time_enabled: self.stop_at_seed_time_enabled,
            stop_at_seed_time_hours: self.stop_at_seed_time_hours,
            idle_when_no_leechers: self.idle_when_no_leechers,
            idle_when_no_seeders: self.idle_when_no_seeders,
            progressive_rates_enabled: self.progressive_rates_enabled,
            target_upload_rate: self.target_upload_rate,
            target_download_rate: self.target_download_rate,
            progressive_duration_hours: self.progressive_duration_hours,
        }
    }
}

/// Bytes of a whole number of gigabytes, stopping at the largest byte count.
pub open spec fn gb_to_bytes(gb: u64) -> u64 {
    crate::arith::sat_mul(gb, 1073741824)
}

/// Seconds of a whole number of hours, stopping at the largest count.
pub open spec fn hours_to_secs(h: u64) -> u64 {
    crate::arith::sat_mul(h, 3600)
}

/// The configuration a preset resolves to.  A stop target is taken only
/// when its enabled toggle is set; absent fields fall back to the stock
/// defaults; the starting share falls back to the whole torrent.
pub open spec fn resolved_config(p: PresetSettings) -> FakerConfig {
    FakerConfig {
        upload_rate: match p.upload_rate {
            Some(v) => v,
            None => 50,
        },
        download_rate: match p.download_rate {
            Some(v) => v,
            None => 100,
        },
        port: match p.port {
            Some(v) => v,
            None => 6881,
        },
        client_type: match p.selected_client {
            Some(c) => c,
            None => ClientType::QBittorrent,
        },
        client_version: p.selected_client_version,
        initial_uploaded: 0,
        initial_downloaded: 0,
        completion_permille: match p.completion_permille {
            Some(v) => v,
            None => 1000,
        },
        num_want: 50,
        randomize_rates: match p.randomize_rates {
            Some(v) => v,
            None => true,
        },
        random_range_percent: match p.random_range_percent {
            Some(v) => v,
            None => 20,
        },
        stop_at_ratio_permille: if p.stop_at_ratio_enabled == Some(true) {
            p.stop_at_ratio_permille
        } else {
            None
        },
        stop_at_uploaded: if p.stop_at_uploaded_enabled == Some(true) {
            match p.stop_at_uploaded_gb {
                Some(gb) => Some(gb_to_bytes(gb)),
                None => None,
            }
        } else {
            None
        },
        stop_at_downloaded: if p.stop_at_downloaded_enabled == Some(true) {
            match p.stop_at_downloaded_gb {
                Some(gb) => Some(gb_to_bytes(gb)),
                None => None,
            }
        } else {
            None
        },
        stop_at_seed_time: if p.stop_at_seed_time_enabled == Some(true) {
            match p.stop_at_seed_time_hours {
                Some(h) => Some(hours_to_secs(h)),
                None => None,
            }
        } else {
            None
        },
        idle_when_no_leechers: match p.idle_when_no_leechers {
            Some(v) => v,
            None => false,
        },
        idle_when_no_seeders: match p.idle_when_no_seeders {
            Some(v) => v,
            None => false,
        },
        scrape_interval: 60,
        progressive_rates: match p.progressive_rates_enabled {
            Some(v) => v,
            None => false,
        },
        target_upload_rate: p.target_upload_rate,
        target_download_rate: p.target_download_rate,
        progressive_duration: match p.progressive_duration_hours {
            Some(h) => hours_to_secs(h),
            None => 3600,
        },
    }
}

impl From<PresetSettings> for FakerConfig {
    /// Resolves a preset into a full configuration, per `resolved_config`.
    fn from(p: PresetSettings) -> (r: FakerConfig) {
        let upload_rate = match p.upload_rate {
            Some(v) => v,
            None => 50,
        };
        let download_rate = match p.download_rate {
            Some(v) => v,
            None => 100,
        };
        let port = match p.port {
            Some(v) => v,
            None => 6881,
        };
        let client_type = match p.selected_client {
            Some(c) => c,
            None => ClientType::QBittorrent,
        };
        let completion_permille = match p.completion_permille {
            Some(v) => v,
            None => 1000,
        };
        let randomize_rates = match p.randomize_rates {
            Some(v) => v,
            None => true,
        };
        let random_range_percent = match p.random_range_percent {
            Some(v) => v,
            None => 20,
        };
        let stop_at_ratio_permille = if p.stop_at_ratio_enabled == Some(true) {
            p.stop_at_ratio_permille
        } else {
            None
        };
        let stop_at_uploaded = if p.stop_at_uploaded_enabled == Some(true) {
            match p.stop_at_uploaded_gb {
                Some(gb) => Some(sat_mul_exec(gb, 1073741824)),
                None => None,
            }
        } else {
            None
        };
        let stop_at_downloaded = if p.stop_at_downloaded_enabled == Some(true) {
            match p.stop_at_downloaded_gb {
                Some(gb) => Some(sat_mul_exec(gb, 1073741824)),
                None => None,
            }
        } else {
            None
        };
        let stop_at_seed_time = if p.stop_at_seed_time_enabled == Some(true) {
            match p.stop_at_seed_time_hours {
                Some(h) => Some(sat_mul_exec(h, 3600)),
                None => None,
            }
        } else {
            None
        };
        let idle_when_no_leechers = match p.idle_when_no_leechers {
            Some(v) => v,
            None => false,
        };
        let idle_when_no_seeders = match p.idle_when_no_seeders {
            Some(v) => v,
            None => false,
        };
        let progressive_rates = match p.progressive_rates_enabled {
            Some(v) => v,
            None => false,
        };
        let progressive_duration = match p.progressive_duration_hours {
            Some(h) => sat_mul_exec(h, 3600),
            None => 3600,
        };
        FakerConfig {
            upload_rate,
            download_rate,
            port,
            client_type,
            client_version: p.selected_client_version,
            initial_uploaded: 0,
            initial_downloaded: 0,
            completion_permille,
            num_want: 50,
            randomize_rates,
            random_range_percent,
            stop_at_ratio_permille,
            stop_at_uploaded,
            stop_at_downloaded,
            stop_at_seed_time,
            idle_when_no_leechers,
            idle_when_no_seeders,
            scrape_interval: 60,
            progressive_rates,
            target_upload_rate: p.target_upload_rate,
            target_download_rate: p.target_download_rate,
            progressive_duration,
        }
    }
}

impl vstd::std_specs::convert::FromSpecImpl<PresetSettings> for FakerConfig {
    open spec fn obeys_from_spec() -> bool {
        true
    }

    open spec fn from_spec(p: PresetSettings) -> FakerConfig {
        resolved_config(p)
    }
}

} // verus!
