use echo::config::{AppConfig, LocalTime, StoredConfig};

fn sample() -> AppConfig {
    AppConfig::from_home("/Users/ann")
}

#[test]
fn default_layout_for_home() {
    let c = sample();
    assert_eq!(c.recordings_dir, "/Users/ann/.meeting_assistant/recordings");
    assert_eq!(c.temp_dir, "/Users/ann/.meeting_assistant/temp");
    assert_eq!(c.cache_dir, "/Users/ann/.meeting_assistant/cache");
    assert_eq!(c.logs_dir, "/Users/ann/.meeting_assistant/logs");
    assert_eq!(c.obsidian_vault, "/Users/ann/Obsidian/Meetings");
    assert_eq!(c.config_path, "/Users/ann/.meeting_assistant/config.yaml");
    assert_eq!(c.voice_reference, "/Users/ann/.meeting_assistant/voice_reference.wav");
    assert_eq!(c.db_path, "/Users/ann/.meeting_assistant/db.sqlite");
    assert_eq!(c.backend_url, "http://127.0.0.1:8000");
}

#[test]
fn default_layout_home_with_trailing_slash() {
    let c = AppConfig::from_home("/Users/ann/");
    assert_eq!(c.recordings_dir, "/Users/ann/.meeting_assistant/recordings");
    assert_eq!(c.obsidian_vault, "/Users/ann/Obsidian/Meetings");
}

#[test]
fn settings_path_matches_default_config_path() {
    for home in ["/Users/ann", "/", "/home/bob/", "rel"] {
        assert_eq!(AppConfig::config_path_in(home), AppConfig::from_home(home).config_path);
    }
}

#[test]
fn load_missing_file_gives_default_and_saves() {
    let out = AppConfig::resolve_load("/Users/ann", StoredConfig::Missing);
    assert!(out.save);
    assert_eq!(out.config.config_path, "/Users/ann/.meeting_assistant/config.yaml");
    assert_eq!(out.config.recordings_dir, "/Users/ann/.meeting_assistant/recordings");
}

#[test]
fn load_invalid_file_gives_default_without_saving() {
    let out = AppConfig::resolve_load("/Users/ann", StoredConfig::Invalid);
    assert!(!out.save);
    assert_eq!(out.config.db_path, "/Users/ann/.meeting_assistant/db.sqlite");
}

#[test]
fn load_valid_file_gives_its_config() {
    let mut stored = sample();
    stored.backend_url = "http://10.0.0.2:9000".to_string();
    stored.recordings_dir = "/Volumes/rec".to_string();
    let out = AppConfig::resolve_load("/Users/ann", StoredConfig::Valid(stored));
    assert!(!out.save);
    assert_eq!(out.config.backend_url, "http://10.0.0.2:9000");
    assert_eq!(out.config.recordings_dir, "/Volumes/rec");
}

#[test]
fn required_dirs_in_order() {
    let c = sample();
    assert_eq!(
        c.required_dirs(),
        vec![
            "/Users/ann/.meeting_assistant/recordings".to_string(),
            "/Users/ann/.meeting_assistant/temp".to_string(),
            "/Users/ann/.meeting_assistant/cache".to_string(),
            "/Users/ann/.meeting_assistant/logs".to_string(),
        ]
    );
}

#[test]
fn recording_path_for_stamp() {
    let c = sample();
    assert_eq!(
        c.recording_path_at("2024-03-05_091502"),
        "/Users/ann/.meeting_assistant/recordings/meeting_2024-03-05_091502.m4a"
    );
}

fn at(year: i32, month: u32, day: u32, hour: u32, minute: u32, second: u32) -> LocalTime {
    LocalTime { year, month, day, hour, minute, second }
}

#[test]
fn recording_path_for_local_time() {
    let c = sample();
    assert_eq!(
        c.get_recording_path(&at(2024, 3, 5, 9, 15, 2)),
        Some("/Users/ann/.meeting_assistant/recordings/meeting_2024-03-05_091502.m4a".to_string())
    );
    assert_eq!(
        c.get_recording_path(&at(24, 12, 31, 23, 59, 59)),
        Some("/Users/ann/.meeting_assistant/recordings/meeting_0024-12-31_235959.m4a".to_string())
    );
}

#[test]
fn recording_path_leap_day() {
    let c = sample();
    assert!(c.get_recording_path(&at(2024, 2, 29, 0, 0, 0)).is_some());
    assert!(c.get_recording_path(&at(2023, 2, 29, 0, 0, 0)).is_none());
    assert!(c.get_recording_path(&at(1900, 2, 29, 0, 0, 0)).is_none());
    assert!(c.get_recording_path(&at(2000, 2, 29, 0, 0, 0)).is_some());
}

#[test]
fn recording_path_rejects_invalid_times() {
    let c = sample();
    assert!(c.get_recording_path(&at(2024, 4, 31, 0, 0, 0)).is_none());
    assert!(c.get_recording_path(&at(2024, 0, 1, 0, 0, 0)).is_none());
    assert!(c.get_recording_path(&at(2024, 13, 1, 0, 0, 0)).is_none());
    assert!(c.get_recording_path(&at(2024, 1, 0, 0, 0, 0)).is_none());
    assert!(c.get_recording_path(&at(2024, 1, 1, 24, 0, 0)).is_none());
    assert!(c.get_recording_path(&at(2024, 1, 1, 0, 60, 0)).is_none());
    assert!(c.get_recording_path(&at(2024, 1, 1, 0, 0, 60)).is_none());
    assert!(c.get_recording_path(&at(262_143, 1, 1, 0, 0, 0)).is_none());
    assert!(c.get_recording_path(&at(262_142, 1, 1, 0, 0, 0)).is_some());
    assert!(c.get_recording_path(&at(-262_143, 1, 1, 0, 0, 0)).is_some());
    assert!(c.get_recording_path(&at(-262_144, 1, 1, 0, 0, 0)).is_none());
}

#[test]
fn try_default_uses_data_dir_layout() {
    if let Some(c) = AppConfig::try_default() {
        assert!(c.recordings_dir.len() > "/.meeting_assistant/recordings".len());
        assert!(c.recordings_dir.ends_with("/.meeting_assistant/recordings"));
        assert!(c.config_path.ends_with("/.meeting_assistant/config.yaml"));
        assert!(c.obsidian_vault.ends_with("/Obsidian/Meetings"));
        let base = &c.recordings_dir[..c.recordings_dir.len() - "/recordings".len()];
        assert_eq!(c.temp_dir, format!("{}/temp", base));
    }
}
