use rustatio::{ClientType, FakerConfig, PresetSettings};

#[test]
fn test_faker_config_default() {
    let config = FakerConfig::default();
    assert_eq!(config.upload_rate, 50);
    assert_eq!(config.download_rate, 100);
}

#[test]
fn test_preset_settings_to_faker_config_defaults() {
    let preset = PresetSettings::default();
    let config: FakerConfig = preset.into();

    assert_eq!(config.upload_rate, 50);
    assert_eq!(config.download_rate, 100);
    assert_eq!(config.port, 6881);
    assert_eq!(config.client_type, ClientType::QBittorrent);
    assert_eq!(config.completion_permille, 1000);
    assert!(config.randomize_rates);
    assert_eq!(config.random_range_percent, 20);
    assert!(config.stop_at_ratio_permille.is_none());
    assert!(config.stop_at_uploaded.is_none());
    assert!(!config.progressive_rates);
}

#[test]
fn test_preset_settings_to_faker_config_with_values() {
    let preset = PresetSettings {
        upload_rate: Some(100),
        download_rate: Some(200),
        port: Some(51413),
        selected_client: Some(ClientType::Transmission),
        completion_permille: Some(500),
        randomize_rates: Some(false),
        stop_at_ratio_enabled: Some(true),
        stop_at_ratio_permille: Some(2500),
        stop_at_uploaded_enabled: Some(true),
        stop_at_uploaded_gb: Some(10),
        stop_at_seed_time_enabled: Some(true),
        stop_at_seed_time_hours: Some(24),
        progressive_rates_enabled: Some(true),
        target_upload_rate: Some(500),
        progressive_duration_hours: Some(2),
        ..Default::default()
    };
    let config: FakerConfig = preset.into();

    assert_eq!(config.upload_rate, 100);
    assert_eq!(config.download_rate, 200);
    assert_eq!(config.port, 51413);
    assert_eq!(config.client_type, ClientType::Transmission);
    assert_eq!(config.completion_permille, 500);
    assert!(!config.randomize_rates);
    assert_eq!(config.stop_at_ratio_permille, Some(2500));
    // 10 GB in bytes
    assert_eq!(config.stop_at_uploaded, Some(10 * 1024 * 1024 * 1024));
    // 24 hours in seconds
    assert_eq!(config.stop_at_seed_time, Some(24 * 3600));
    assert!(config.progressive_rates);
    assert_eq!(config.target_upload_rate, Some(500));
    // 2 hours in seconds
    assert_eq!(config.progressive_duration, 2 * 3600);
}

#[test]
fn test_preset_settings_disabled_stop_conditions() {
    let preset = PresetSettings {
        stop_at_ratio_enabled: Some(false),
        stop_at_ratio_permille: Some(2000),
        stop_at_uploaded_enabled: Some(false),
        stop_at_uploaded_gb: Some(50),
        ..Default::default()
    };
    let config: FakerConfig = preset.into();

    // Even though values are set, they should be None because enabled is false
    assert!(config.stop_at_ratio_permille.is_none());
    assert!(config.stop_at_uploaded.is_none());
}

#[test]
fn test_config_validation_bounds() {
    let mut config = FakerConfig::default();
    assert!(config.is_valid());
    config.random_range_percent = 101;
    assert!(!config.is_valid());
    config.random_range_percent = 100;
    assert!(config.is_valid());
    config.completion_permille = 1001;
    assert!(!config.is_valid());
    config.completion_permille = 1000;
    config.upload_rate = rustatio::MAX_RATE_KBS + 1;
    assert!(!config.is_valid());
}
