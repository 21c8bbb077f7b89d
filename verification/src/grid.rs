use vstd::prelude::*;
use vstd::string::*;

use crate::client::ClientType;
use crate::config::PresetSettings;
use crate::stats::FakerState;

verus! {

/// How imported torrents start out: as finished seeds, as fresh leeches,
/// or at a chosen share in thousandths.
#[derive(Debug, Clone, Copy, PartialEq, Eq, Structural)]
pub enum GridMode {
    Seed,
    Leech,
    Custom(u32),
}

impl GridMode {
    /// The starting share this mode stands for, in thousandths.
    pub fn completion_permille(&self) -> (r: u32)
        ensures
            *self == GridMode::Seed ==> r == 1000,
            *self == GridMode::Leech ==> r == 0,
            (match *self {
                GridMode::Custom(p) => r == (if p > 1000 {
                    1000u32
                } else {
                    p
                }),
                _ => true,
            }),
            r <= 1000,
    {
        match self {
            GridMode::Seed => 1000,
            GridMode::Leech => 0,
            GridMode::Custom(p) => if *p > 1000 {
                1000
            } else {
                *p
            },
        }
    }
}

/// What a batch import applies to every torrent it takes in.
#[derive(Debug)]
pub struct GridImportSettings {
    pub base_config: PresetSettings,
    pub tags: Vec<String>,
    pub mode: GridMode,
    pub auto_start: bool,
    pub stagger_start_secs: Option<u64>,
    pub client_type: Option<ClientType>,
    pub client_version: Option<String>,
}

impl Default for GridImportSettings {
    /// An import that picks nothing: an empty preset, no tags, seed mode,
    /// no automatic start.
    fn default() -> (r: GridImportSettings)
        ensures
            r.tags@.len() == 0,
            r.mode == GridMode::Seed,
            !r.auto_start,
            r.stagger_start_secs is None,
            r.client_type is None,
            r.client_version is None,
    {
        GridImportSettings {
            base_config: PresetSettings::default(),
            tags: Vec::new(),
            mode: GridMode::Seed,
            auto_start: false,
            stagger_start_secs: None,
            client_type: None,
            client_version: None,
        }
    }
}

impl GridImportSettings {
    /// The preset one imported instance gets: the base preset, with the
    /// mode's starting share, and the chosen client and version laid over
    /// it where given.
    pub fn resolve_for_instance(&self) -> (r: PresetSettings)
        ensures
            r.completion_permille == Some(self.mode_completion_spec()),
            (match self.client_type {
                Some(c) => r.selected_client == Some(c),
                None => r.selected_client == self.base_config.selected_client,
            }),
            (match self.client_version {
                Some(ref v) => r.selected_client_version matches Some(w) && w@ == v@,
                None => (match (
                    r.selected_client_version,
                    self.base_config.selected_client_version,
                ) {
                    (Some(a), Some(b)) => a@ == b@,
                    (None, None) => true,
                    _ => false,
                }),
            }),
            r.upload_rate == self.base_config.upload_rate,
            r.download_rate == self.base_config.download_rate,
            r.port == self.base_config.port,
            r.randomize_rates == self.base_config.randomize_rates,
            r.random_range_percent == self.base_config.random_range_percent,
            r.stop_at_ratio_enabled == self.base_config.stop_at_ratio_enabled,
            r.stop_at_ratio_permille == self.base_config.stop_at_ratio_permille,
            r.stop_at_uploaded_enabled == self.base_config.stop_at_uploaded_enabled,
            r.stop_at_uploaded_gb == self.base_config.stop_at_uploaded_gb,
            r.stop_at_downloaded_enabled == self.base_config.stop_at_downloaded_enabled,
            r.stop_at_downloaded_gb == self.base_config.stop_at_downloaded_gb,
            r.stop_at_seed_time_enabled == self.base_config.stop_at_seed_time_enabled,
            r.stop_at_seed_time_hours == self.base_config.stop_at_seed_time_hours,
            r.idle_when_no_leechers == self.base_config.idle_when_no_leechers,
            r.idle_when_no_seeders == self.base_config.idle_when_no_seeders,
            r.progressive_rates_enabled == self.base_config.progressive_rates_enabled,
            r.target_upload_rate == self.base_config.target_upload_rate,
            r.target_download_rate == self.base_config.target_download_rate,
            r.progressive_duration_hours == self.base_config.progressive_duration_hours,
    {
        let mut config = self.base_config.clone_preset();
        config.completion_permille = Some(self.mode.completion_permille());
        match &self.client_type {
            Some(c) => {
                config.selected_client = Some(*c);
            },
            None => {},
        }
        match &self.client_version {
            Some(v) => {
                config.selected_client_version = Some(v.clone());
            },
            None => {},
        }
        config
    }

    /// The starting share of this import's mode, in thousandths.
    pub open spec fn mode_completion_spec(&self) -> u32 {
        match self.mode {
            GridMode::Seed => 1000u32,
            GridMode::Leech => 0u32,
            GridMode::Custom(p) => if p > 1000 {
                1000u32
            } else {
                p
            },
        }
    }
}

/// One instance as the grid view lists it: identifiers and state as
/// strings, amounts and shares as plain numbers.
#[derive(Debug)]
pub struct InstanceSummary {
    pub id: String,
    pub name: String,
    pub info_hash: String,
    pub state: String,
    pub tags: Vec<String>,
    pub total_size: u64,
    pub uploaded: u64,
    pub downloaded: u64,
    pub ratio_permille: u64,
    pub current_upload_rate: u64,
    pub current_download_rate: u64,
    pub seeders: i64,
    pub leechers: i64,
    pub left: u64,
    pub torrent_completion_permille: u64,
    pub source: String,
    pub created_at: u64,
}

/// The label a summary shows for a lifecycle state: an idling session
/// shows as idle unless it is paused.
pub open spec fn state_label_chars(state: FakerState, idling: bool) -> Seq<char> {
    match state {
        FakerState::Paused => "paused"@,
        _ => if idling {
            "idle"@
        } else {
            match state {
                FakerState::Idle => "idle"@,
                FakerState::Starting => "starting"@,
                FakerState::Running => "running"@,
                FakerState::Stopping => "stopping"@,
                FakerState::Stopped => "stopped"@,
                FakerState::Paused => "paused"@,
            }
        },
    }
}

/// The summary label of a lifecycle state, per `state_label_chars`.
pub fn state_label(state: FakerState, idling: bool) -> (r: String)
    ensures
        r@ == state_label_chars(state, idling),
{
    match state {
        FakerState::Paused => String::from_str("paused"),
        _ => if idling {
            String::from_str("idle")
        } else {
            match state {
                FakerState::Idle => String::from_str("idle"),
                FakerState::Starting => String::from_str("starting"),
                FakerState::Running => String::from_str("running"),
                FakerState::Stopping => String::from_str("stopping"),
                FakerState::Stopped => String::from_str("stopped"),
                FakerState::Paused => String::from_str("paused"),
            }
        },
    }
}

} // verus!
