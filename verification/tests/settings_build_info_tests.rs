use controller::build_info::StateBuildInfo;
use controller::settings::AppSettings;

#[test]
fn app_settings_default_trigger_delays() {
    let settings = AppSettings::new();
    assert_eq!(settings.default_trigger_bot_delay_min, 180);
    assert_eq!(settings.default_trigger_bot_delay_max, 250);
}

#[test]
fn build_info_unknown() {
    let info = StateBuildInfo::unknown();
    assert_eq!(info.revision, "unknown");
    assert_eq!(info.build_datetime, "unknown");
}

#[test]
fn build_info_from_engine_strings() {
    let info = StateBuildInfo::from_engine(
        Some("10511".to_string()),
        Some("Aug 5 2025".to_string()),
        Some("12:34:56".to_string()),
    );
    assert_eq!(info.revision, "10511");
    assert_eq!(info.build_datetime, "Aug 5 2025 12:34:56");
}

#[test]
fn build_info_unset_strings_are_empty() {
    let info = StateBuildInfo::from_engine(None, None, Some("12:00".to_string()));
    assert_eq!(info.revision, "");
    assert_eq!(info.build_datetime, " 12:00");
    let info = StateBuildInfo::from_engine(Some("1".to_string()), None, None);
    assert_eq!(info.build_datetime, " ");
}
