//! Normalised device and media status, derived from what a device reports.
//!
//! Volume levels, playback positions and rates are single-precision floats on
//! the wire. The library carries them as their IEEE-754 bit patterns
//! (`f32::to_bits`), so that a level of `0.0` is the pattern `0`.

use vstd::prelude::*;

use crate::app_ids::{BACKDROP_ID, DEFAULT_MEDIA_ID, WEBVIEW_ID, YOUTUBE_ID};
use crate::text::same_text;

verus! {

/// The bit pattern of the single-precision float `0.0`.
pub const ZERO_BITS: u32 = 0;

/// Volume settings as a device reports them; either may be missing.
#[derive(Debug)]
pub struct RawVolume {
    /// Bit pattern of the level, from `0.0` to `1.0`.
    pub level_bits: Option<u32>,
    pub muted: Option<bool>,
}

/// A running application as a device reports it.
#[derive(Debug)]
pub struct RawApplication {
    pub app_id: String,
    pub session_id: String,
    pub transport_id: String,
    pub namespaces: Vec<String>,
    pub display_name: String,
    pub status_text: String,
}

/// A device's status report.
#[derive(Debug)]
pub struct RawDeviceStatus {
    /// The running applications; the first one is the primary application.
    pub applications: Vec<RawApplication>,
    pub is_active_input: bool,
    pub is_stand_by: bool,
    pub volume: RawVolume,
}

/// One media session as a device reports it.
#[derive(Debug)]
pub struct RawMediaEntry {
    /// Bit pattern of the playback position in seconds, if known.
    pub current_time_bits: Option<u32>,
    /// Bit pattern of the playback rate.
    pub playback_rate_bits: u32,
    pub player_state: PlayerState,
}

/// A media status report: the media sessions of one transport.
#[derive(Debug)]
pub struct RawMediaStatus {
    pub entries: Vec<RawMediaEntry>,
}

/// The known receiver applications.
#[derive(Debug, Clone, Copy, PartialEq, Eq, Structural)]
pub enum ParsedApp {
    Backdrop,
    DefaultMedia,
    YouTube,
    WebView,
    Unknown,
}

/// The volume of a device, with absent values filled in.
#[derive(Debug, Clone, Copy, PartialEq, Eq, Structural)]
pub struct VolumeStatus {
    /// Bit pattern of the level, from `0.0` to `1.0`.
    pub level_bits: u32,
    pub muted: bool,
}

/// The primary application running on a device.
#[derive(Debug)]
pub struct AppStatus {
    /// The raw application id.
    pub id: String,
    /// What the raw id stands for.
    pub app_identity: ParsedApp,
    pub display_name: String,
    pub namespaces: Vec<String>,
    pub session_id: String,
    /// The status text that the application shows.
    pub status: String,
    /// The transport on which the application's channels are opened.
    pub transport_id: String,
}

/// The normalised status of a device.
#[derive(Debug)]
pub struct DeviceStatus {
    pub is_active_input: bool,
    pub in_standby: bool,
    pub volume: VolumeStatus,
    /// The primary application, if any application is running.
    pub app_status: Option<AppStatus>,
}

/// What a media player is doing.
#[derive(Debug, Clone, Copy, PartialEq, Eq, Structural)]
pub enum PlayerState {
    Idle,
    Playing,
    Buffering,
    Paused,
}

/// The normalised status of the media on a device.
#[derive(Debug, Clone, Copy, PartialEq, Eq, Structural)]
pub struct MediaStatus {
    /// Bit pattern of the playback position in seconds, if known.
    pub current_time_bits: Option<u32>,
    /// Bit pattern of the playback rate.
    pub playback_rate_bits: u32,
    pub player_state: PlayerState,
}

/// The application that a raw application id stands for.
pub open spec fn parsed_app_of(id: Seq<char>) -> ParsedApp {
    if id == BACKDROP_ID@ {
        ParsedApp::Backdrop
    } else if id == DEFAULT_MEDIA_ID@ {
        ParsedApp::DefaultMedia
    } else if id == YOUTUBE_ID@ {
        ParsedApp::YouTube
    } else if id == WEBVIEW_ID@ {
        ParsedApp::WebView
    } else {
        ParsedApp::Unknown
    }
}

/// The normalised form of a reported application.
pub open spec fn app_status_of(app: RawApplication) -> AppStatus {
    AppStatus {
        id: app.app_id,
        app_identity: parsed_app_of(app.app_id@),
        display_name: app.display_name,
        namespaces: app.namespaces,
        session_id: app.session_id,
        status: app.status_text,
        transport_id: app.transport_id,
    }
}

/// The normalised volume: a missing level is `0.0`, a missing mute flag `false`.
pub open spec fn volume_status_of(v: RawVolume) -> VolumeStatus {
    VolumeStatus {
        level_bits: match v.level_bits {
            Some(b) => b,
            None => ZERO_BITS,
        },
        muted: match v.muted {
            Some(m) => m,
            None => false,
        },
    }
}

/// The normalised form of a device status report: the flags as reported,
/// the volume with defaults, and the first application as the primary one.
pub open spec fn device_status_of(raw: RawDeviceStatus) -> DeviceStatus {
    DeviceStatus {
        is_active_input: raw.is_active_input,
        in_standby: raw.is_stand_by,
        volume: volume_status_of(raw.volume),
        app_status: if raw.applications@.len() > 0 {
            Some(app_status_of(raw.applications@[0]))
        } else {
            None
        },
    }
}

/// No media loaded: no position, rate `0.0`, idle.
pub open spec fn idle_media_status() -> MediaStatus {
    MediaStatus { current_time_bits: None, playback_rate_bits: ZERO_BITS, player_state: PlayerState::Idle }
}

/// The normalised form of a media status report: its first entry, or the
/// idle status when there is none.
pub open spec fn media_status_of(raw: RawMediaStatus) -> MediaStatus {
    if raw.entries@.len() > 0 {
        let e = raw.entries@[0];
        MediaStatus {
            current_time_bits: e.current_time_bits,
            playback_rate_bits: e.playback_rate_bits,
            player_state: e.player_state,
        }
    } else {
        idle_media_status()
    }
}

impl ParsedApp {
    /// Classifies a raw application id by exact match against the known ids;
    /// any other id is `Unknown`.
    pub fn from_id(id: &str) -> (r: ParsedApp)
        ensures
            r == parsed_app_of(id@),
    {
        if same_text(id, BACKDROP_ID) {
            ParsedApp::Backdrop
        } else if same_text(id, DEFAULT_MEDIA_ID) {
            ParsedApp::DefaultMedia
        } else if same_text(id, YOUTUBE_ID) {
            ParsedApp::YouTube
        } else if same_text(id, WEBVIEW_ID) {
            ParsedApp::WebView
        } else {
            ParsedApp::Unknown
        }
    }
}

impl AppStatus {
    /// Normalises a reported application and classifies its id.
    pub fn from_raw(app: RawApplication) -> (r: AppStatus)
        ensures
            r == app_status_of(app),
    {
        let app_identity = ParsedApp::from_id(app.app_id.as_str());
        AppStatus {
            id: app.app_id,
            app_identity,
            display_name: app.display_name,
            namespaces: app.namespaces,
            session_id: app.session_id,
            status: app.status_text,
            transport_id: app.transport_id,
        }
    }
}

impl DeviceStatus {
    /// Normalises a device status report: a missing volume level is `0.0`,
    /// a missing mute flag is `false`, and only the first running
    /// application is kept.
    pub fn from_raw(raw: RawDeviceStatus) -> (r: DeviceStatus)
        ensures
            r == device_status_of(raw),
            raw.volume.level_bits is None ==> r.volume.level_bits == ZERO_BITS,
            raw.volume.muted is None ==> !r.volume.muted,
    {
        let ghost old_raw = raw;
        let RawDeviceStatus { applications, is_active_input, is_stand_by, volume } = raw;
        let mut applications = applications;
        let app_status = if applications.len() > 0 {
            Some(AppStatus::from_raw(applications.remove(0)))
        } else {
            None
        };
        let level_bits = match volume.level_bits {
            Some(b) => b,
            None => ZERO_BITS,
        };
        let muted = match volume.muted {
            Some(m) => m,
            None => false,
        };
        let r = DeviceStatus {
            is_active_input,
            in_standby: is_stand_by,
            volume: VolumeStatus { level_bits, muted },
            app_status,
        };
        assert(r.volume == volume_status_of(old_raw.volume));
        r
    }
}

impl MediaStatus {
    /// The status of a device with no media loaded.
    pub fn idle() -> (r: MediaStatus)
        ensures
            r == idle_media_status(),
    {
        MediaStatus { current_time_bits: None, playback_rate_bits: ZERO_BITS, player_state: PlayerState::Idle }
    }

    /// Normalises a media status report: the first media session, or the
    /// idle status when the device reports none. No media is not an error.
    pub fn from_raw(raw: RawMediaStatus) -> (r: MediaStatus)
        ensures
            r == media_status_of(raw),
            raw.entries@.len() == 0 ==> r == idle_media_status(),
    {
        if raw.entries.len() > 0 {
            let e = &raw.entries[0];
            MediaStatus {
                current_time_bits: e.current_time_bits,
                playback_rate_bits: e.playback_rate_bits,
                player_state: e.player_state,
            }
        } else {
            MediaStatus::idle()
        }
    }
}

impl Default for MediaStatus {
    fn default() -> (r: MediaStatus)
        ensures
            r == idle_media_status(),
    {
        MediaStatus::idle()
    }
}

} // verus!
