use rustatio::{ClientType, GridImportSettings, GridMode, PresetSettings};

#[test]
fn test_grid_mode_completion_percent() {
    assert_eq!(GridMode::Seed.completion_permille(), 1000);
    assert_eq!(GridMode::Leech.completion_permille(), 0);
    assert_eq!(GridMode::Custom(750).completion_permille(), 750);
    assert_eq!(GridMode::Custom(1500).completion_permille(), 1000);
}

#[test]
fn test_grid_import_settings_default() {
    let settings = GridImportSettings::default();
    assert!(settings.tags.is_empty());
    assert!(!settings.auto_start);
    assert!(settings.stagger_start_secs.is_none());
}

#[test]
fn test_resolve_for_instance_applies_mode() {
    let settings = GridImportSettings {
        mode: GridMode::Leech,
        ..Default::default()
    };
    let resolved = settings.resolve_for_instance();
    assert_eq!(resolved.completion_permille, Some(0));
}

#[test]
fn test_resolve_for_instance_uses_base_config_rates() {
    let settings = GridImportSettings {
        base_config: PresetSettings {
            upload_rate: Some(100),
            download_rate: Some(50),
            ..Default::default()
        },
        ..Default::default()
    };
    let resolved = settings.resolve_for_instance();
    assert_eq!(resolved.upload_rate, Some(100));
    assert_eq!(resolved.download_rate, Some(50));
}

#[test]
fn test_resolve_for_instance_applies_client() {
    let settings = GridImportSettings {
        client_type: Some(ClientType::Transmission),
        client_version: Some("4.0.0".to_string()),
        ..Default::default()
    };
    let resolved = settings.resolve_for_instance();
    assert_eq!(resolved.selected_client, Some(ClientType::Transmission));
    assert_eq!(resolved.selected_client_version, Some("4.0.0".to_string()));
}
