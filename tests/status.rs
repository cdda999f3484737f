use castiel::app_ids::{BACKDROP_ID, DEFAULT_MEDIA_ID, WEBVIEW_ID, YOUTUBE_ID};
use castiel::status::{
    AppStatus, DeviceStatus, MediaStatus, ParsedApp, PlayerState, RawApplication, RawDeviceStatus,
    RawMediaEntry, RawMediaStatus, RawVolume, ZERO_BITS,
};

fn raw_app(app_id: &str, session_id: &str) -> RawApplication {
    RawApplication {
        app_id: app_id.to_string(),
        session_id: session_id.to_string(),
        transport_id: format!("transport-{session_id}"),
        namespaces: vec!["urn:x-cast:com.google.cast.media".to_string()],
        display_name: "Player".to_string(),
        status_text: "Ready".to_string(),
    }
}

#[test]
fn youtube_id_is_classified_as_youtube() {
    assert_eq!(ParsedApp::from_id("233637DE"), ParsedApp::YouTube);
}

#[test]
fn unrecognised_id_is_unknown() {
    assert_eq!(ParsedApp::from_id("DEADBEEF"), ParsedApp::Unknown);
    assert_eq!(ParsedApp::from_id(""), ParsedApp::Unknown);
    assert_eq!(ParsedApp::from_id("233637de"), ParsedApp::Unknown);
    assert_eq!(ParsedApp::from_id("233637DE "), ParsedApp::Unknown);
}

#[test]
fn every_known_id_is_classified() {
    assert_eq!(ParsedApp::from_id(BACKDROP_ID), ParsedApp::Backdrop);
    assert_eq!(ParsedApp::from_id(DEFAULT_MEDIA_ID), ParsedApp::DefaultMedia);
    assert_eq!(ParsedApp::from_id(YOUTUBE_ID), ParsedApp::YouTube);
    assert_eq!(ParsedApp::from_id(WEBVIEW_ID), ParsedApp::WebView);
    assert_eq!(ParsedApp::from_id("E8C28D3C"), ParsedApp::Backdrop);
    assert_eq!(ParsedApp::from_id("CC1AD845"), ParsedApp::DefaultMedia);
    assert_eq!(ParsedApp::from_id("209991B4"), ParsedApp::WebView);
}

#[test]
fn absent_volume_fields_default_to_zero_and_unmuted() {
    let raw = RawDeviceStatus {
        applications: vec![],
        is_active_input: true,
        is_stand_by: false,
        volume: RawVolume { level_bits: None, muted: None },
    };
    let status = DeviceStatus::from_raw(raw);
    assert_eq!(status.volume.level_bits, ZERO_BITS);
    assert_eq!(f32::from_bits(status.volume.level_bits), 0.0);
    assert!(!status.volume.muted);
    assert!(status.is_active_input);
    assert!(!status.in_standby);
    assert!(status.app_status.is_none());
}

#[test]
fn reported_volume_is_kept() {
    let raw = RawDeviceStatus {
        applications: vec![],
        is_active_input: false,
        is_stand_by: true,
        volume: RawVolume { level_bits: Some(0.75f32.to_bits()), muted: Some(true) },
    };
    let status = DeviceStatus::from_raw(raw);
    assert_eq!(f32::from_bits(status.volume.level_bits), 0.75);
    assert!(status.volume.muted);
    assert!(status.in_standby);
    assert!(!status.is_active_input);
}

#[test]
fn only_the_first_application_is_kept() {
    let raw = RawDeviceStatus {
        applications: vec![raw_app("233637DE", "s1"), raw_app("CC1AD845", "s2")],
        is_active_input: false,
        is_stand_by: false,
        volume: RawVolume { level_bits: None, muted: Some(false) },
    };
    let status = DeviceStatus::from_raw(raw);
    let app = status.app_status.expect("primary application");
    assert_eq!(app.id, "233637DE");
    assert_eq!(app.app_identity, ParsedApp::YouTube);
    assert_eq!(app.session_id, "s1");
    assert_eq!(app.transport_id, "transport-s1");
    assert_eq!(app.display_name, "Player");
    assert_eq!(app.status, "Ready");
    assert_eq!(app.namespaces, vec!["urn:x-cast:com.google.cast.media".to_string()]);
}

#[test]
fn application_with_unknown_id_is_unknown() {
    let app = AppStatus::from_raw(raw_app("0F5096E8", "s9"));
    assert_eq!(app.app_identity, ParsedApp::Unknown);
    assert_eq!(app.id, "0F5096E8");
}

#[test]
fn zero_media_entries_give_idle_status() {
    let status = MediaStatus::from_raw(RawMediaStatus { entries: vec![] });
    assert_eq!(status.current_time_bits, None);
    assert_eq!(f32::from_bits(status.playback_rate_bits), 0.0);
    assert_eq!(status.player_state, PlayerState::Idle);
    assert_eq!(status, MediaStatus::idle());
    assert_eq!(status, MediaStatus::default());
}

#[test]
fn first_media_entry_is_reported() {
    let raw = RawMediaStatus {
        entries: vec![
            RawMediaEntry {
                current_time_bits: Some(12.5f32.to_bits()),
                playback_rate_bits: 1.0f32.to_bits(),
                player_state: PlayerState::Playing,
            },
            RawMediaEntry {
                current_time_bits: None,
                playback_rate_bits: 0.0f32.to_bits(),
                player_state: PlayerState::Paused,
            },
        ],
    };
    let status = MediaStatus::from_raw(raw);
    assert_eq!(status.current_time_bits.map(f32::from_bits), Some(12.5));
    assert_eq!(f32::from_bits(status.playback_rate_bits), 1.0);
    assert_eq!(status.player_state, PlayerState::Playing);
}
