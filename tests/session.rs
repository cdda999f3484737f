use castiel::app_ids::{DEFAULT_MEDIA_ID, WEBVIEW_ID, WEBVIEW_NAMESPACE, YOUTUBE_ID};
use castiel::errors::BCError;
use castiel::session::{
    get_device_status, get_media_status, start_from_data, stop_media_at_device, ChannelDestination,
    ControlSession, DeviceAddress, LaunchTarget, LaunchedApplication, Operation, Outcome, ReceiverOptions,
    StartMediaData, StreamTypeOptions, TransportAction, TransportEvent, TrustMode, DEFAULT_DESTINATION_ID,
};
use castiel::status::{
    ParsedApp, PlayerState, RawApplication, RawDeviceStatus, RawMediaEntry, RawMediaStatus, RawVolume,
};

fn cast_error() -> rust_cast::errors::Error {
    rust_cast::errors::Error::Internal("no answer".to_string())
}

fn request(receiver: ReceiverOptions, url: &str) -> StartMediaData {
    StartMediaData {
        ip_address: "192.168.1.40".to_string(),
        port: 8009,
        receiver,
        media_url: url.to_string(),
        content_type: "video/mp4".to_string(),
        stream_type: StreamTypeOptions::Buffered,
    }
}

fn launched() -> LaunchedApplication {
    LaunchedApplication {
        app_id: WEBVIEW_ID.to_string(),
        session_id: "session-7".to_string(),
        transport_id: "web-7".to_string(),
    }
}

fn status_with(apps: Vec<RawApplication>) -> RawDeviceStatus {
    RawDeviceStatus {
        applications: apps,
        is_active_input: false,
        is_stand_by: false,
        volume: RawVolume { level_bits: None, muted: None },
    }
}

fn running(app_id: &str) -> RawApplication {
    RawApplication {
        app_id: app_id.to_string(),
        session_id: "session-1".to_string(),
        transport_id: "transport-1".to_string(),
        namespaces: vec![],
        display_name: "Default Media Receiver".to_string(),
        status_text: "Now playing".to_string(),
    }
}

/// Feeds `events` to a session and collects the actions, including the first one.
fn drive(start: (ControlSession, TransportAction), events: Vec<TransportEvent>) -> (ControlSession, Vec<TransportAction>) {
    let (mut session, first) = start;
    let mut actions = vec![first];
    for event in events {
        let (next, action) = session.advance(event);
        session = next;
        actions.push(action);
    }
    (session, actions)
}

fn handshake() -> Vec<TransportEvent> {
    vec![TransportEvent::Done, TransportEvent::Done, TransportEvent::Done]
}

fn assert_handshake(actions: &[TransportAction], ip: &str) {
    match &actions[0] {
        TransportAction::Connect { ip: i, port, trust } => {
            assert_eq!(i, ip);
            assert_eq!(*port, 8009);
            assert_eq!(*trust, TrustMode::Insecure);
        }
        other => panic!("expected a connection, got {other:?}"),
    }
    match &actions[1] {
        TransportAction::ConnectChannel(d) => assert_eq!(d.id(), DEFAULT_DESTINATION_ID),
        other => panic!("expected the receiver channel, got {other:?}"),
    }
    assert!(matches!(actions[2], TransportAction::Ping));
}

#[test]
fn web_receiver_start_broadcasts_the_url_and_never_loads() {
    let mut events = handshake();
    events.push(TransportEvent::Launched(launched()));
    events.push(TransportEvent::Done);
    events.push(TransportEvent::Done);
    let (session, actions) = drive(start_from_data(request(ReceiverOptions::Web, "https://example.org/board")), events);
    assert_handshake(&actions, "192.168.1.40");
    assert!(matches!(actions[3], TransportAction::Launch(LaunchTarget::WebView)));
    match &actions[4] {
        TransportAction::ConnectChannel(ChannelDestination::Transport(t)) => assert_eq!(t, "web-7"),
        other => panic!("expected the application channel, got {other:?}"),
    }
    match &actions[5] {
        TransportAction::Broadcast { namespace, message } => {
            assert_eq!(*namespace, WEBVIEW_NAMESPACE);
            assert_eq!(*namespace, "urn:x-cast:uk.co.ecksdee");
            assert_eq!(message.url, "https://example.org/board");
            assert!(!message.proxy);
        }
        other => panic!("expected a broadcast, got {other:?}"),
    }
    assert!(matches!(actions[6], TransportAction::Finish(Ok(Outcome::Started))));
    assert!(actions.iter().all(|a| !matches!(a, TransportAction::LoadMedia(_))));
    assert!(session.is_finished());
}

#[test]
fn default_receiver_start_loads_the_media() {
    let mut events = handshake();
    events.push(TransportEvent::Launched(LaunchedApplication {
        app_id: DEFAULT_MEDIA_ID.to_string(),
        session_id: "s-42".to_string(),
        transport_id: "t-42".to_string(),
    }));
    events.push(TransportEvent::Done);
    events.push(TransportEvent::Done);
    let (_, actions) = drive(start_from_data(request(ReceiverOptions::Default, "http://host/movie.mp4")), events);
    assert!(matches!(actions[3], TransportAction::Launch(LaunchTarget::DefaultMediaReceiver)));
    match &actions[5] {
        TransportAction::LoadMedia(load) => {
            assert_eq!(load.transport_id, "t-42");
            assert_eq!(load.session_id, "s-42");
            assert_eq!(load.content_id, "http://host/movie.mp4");
            assert_eq!(load.content_type, "video/mp4");
            assert_eq!(load.stream_type, StreamTypeOptions::Buffered);
        }
        other => panic!("expected a media load, got {other:?}"),
    }
    assert!(matches!(actions[6], TransportAction::Finish(Ok(Outcome::Started))));
}

#[test]
fn youtube_start_launches_youtube() {
    let (_, actions) = drive(start_from_data(request(ReceiverOptions::YouTube, "dQw4w9WgXcQ")), handshake());
    assert!(matches!(actions[3], TransportAction::Launch(LaunchTarget::YouTube)));
    assert_eq!(LaunchTarget::YouTube.app_id(), YOUTUBE_ID);
    assert_eq!(LaunchTarget::WebView.app_id(), WEBVIEW_ID);
    assert_eq!(LaunchTarget::DefaultMediaReceiver.app_id(), DEFAULT_MEDIA_ID);
}

#[test]
fn stop_with_no_running_app_is_app_lookup_failed() {
    let mut events = handshake();
    events.push(TransportEvent::ReceiverStatus(status_with(vec![])));
    let addr = DeviceAddress { ip: "10.1.1.1".to_string(), port: 8009 };
    let (session, actions) = drive(stop_media_at_device(addr), events);
    assert_handshake(&actions, "10.1.1.1");
    assert!(matches!(actions[3], TransportAction::GetReceiverStatus));
    assert!(matches!(actions[4], TransportAction::Finish(Err(BCError::AppLookupFailed))));
    assert!(actions.iter().all(|a| !matches!(a, TransportAction::StopApp { .. })));
    assert!(session.is_finished());
}

#[test]
fn stop_stops_the_first_running_app() {
    let mut events = handshake();
    let mut second = running(YOUTUBE_ID);
    second.session_id = "session-2".to_string();
    events.push(TransportEvent::ReceiverStatus(status_with(vec![running(DEFAULT_MEDIA_ID), second])));
    events.push(TransportEvent::Done);
    let addr = DeviceAddress { ip: "10.1.1.1".to_string(), port: 8009 };
    let (_, actions) = drive(stop_media_at_device(addr), events);
    match &actions[4] {
        TransportAction::StopApp { session_id } => assert_eq!(session_id, "session-1"),
        other => panic!("expected a stop, got {other:?}"),
    }
    assert!(matches!(actions[5], TransportAction::Finish(Ok(Outcome::Stopped))));
}

#[test]
fn failures_carry_the_error_of_their_step() {
    let addr = || DeviceAddress { ip: "10.1.1.2".to_string(), port: 8009 };
    let (_, a) = drive(stop_media_at_device(addr()), vec![TransportEvent::Failed(cast_error())]);
    assert!(matches!(a[1], TransportAction::Finish(Err(BCError::DeviceLookupFailed(_)))));
    let (_, a) = drive(stop_media_at_device(addr()), vec![TransportEvent::Done, TransportEvent::Failed(cast_error())]);
    assert!(matches!(a[2], TransportAction::Finish(Err(BCError::ConnError(_)))));
    let mut ev = handshake();
    ev.pop();
    ev.push(TransportEvent::Failed(cast_error()));
    let (_, a) = drive(stop_media_at_device(addr()), ev);
    assert!(matches!(a[3], TransportAction::Finish(Err(BCError::ConnError(_)))));
    let mut ev = handshake();
    ev.push(TransportEvent::Failed(cast_error()));
    let (_, a) = drive(stop_media_at_device(addr()), ev);
    assert!(matches!(a[4], TransportAction::Finish(Err(BCError::ConnError(_)))));
    let mut ev = handshake();
    ev.push(TransportEvent::ReceiverStatus(status_with(vec![running(DEFAULT_MEDIA_ID)])));
    ev.push(TransportEvent::Failed(cast_error()));
    let (_, a) = drive(stop_media_at_device(addr()), ev);
    assert!(matches!(a[5], TransportAction::Finish(Err(BCError::AppError(_)))));

    let mut ev = handshake();
    ev.push(TransportEvent::Failed(cast_error()));
    let (_, a) = drive(start_from_data(request(ReceiverOptions::Web, "u")), ev);
    assert!(matches!(a[4], TransportAction::Finish(Err(BCError::AppError(_)))));
    let mut ev = handshake();
    ev.push(TransportEvent::Launched(launched()));
    ev.push(TransportEvent::Failed(cast_error()));
    let (_, a) = drive(start_from_data(request(ReceiverOptions::Web, "u")), ev);
    assert!(matches!(a[5], TransportAction::Finish(Err(BCError::ConnError(_)))));
    let mut ev = handshake();
    ev.push(TransportEvent::Launched(launched()));
    ev.push(TransportEvent::Done);
    ev.push(TransportEvent::Failed(cast_error()));
    let (_, a) = drive(start_from_data(request(ReceiverOptions::Web, "u")), ev);
    assert!(matches!(a[6], TransportAction::Finish(Err(BCError::MediaError(_)))));
}

#[test]
fn out_of_turn_outcome_is_internal_error() {
    let (session, a) = drive(get_device_status("10.1.1.3", 8009), vec![TransportEvent::Launched(launched())]);
    assert!(matches!(a[1], TransportAction::Finish(Err(BCError::InternalError))));
    let (next, action) = session.advance(TransportEvent::Done);
    assert!(next.is_finished());
    assert!(matches!(action, TransportAction::Finish(Err(BCError::InternalError))));
}

#[test]
fn device_status_session_reports_normalised_status() {
    let mut events = handshake();
    events.push(TransportEvent::ReceiverStatus(status_with(vec![running("233637DE")])));
    let (_, actions) = drive(get_device_status("10.1.1.4", 8009), events);
    assert_handshake(&actions, "10.1.1.4");
    match &actions[4] {
        TransportAction::Finish(Ok(Outcome::Device(status))) => {
            assert_eq!(status.volume.level_bits, 0);
            assert!(!status.volume.muted);
            assert_eq!(status.app_status.as_ref().unwrap().app_identity, ParsedApp::YouTube);
        }
        other => panic!("expected the device status, got {other:?}"),
    }
}

#[test]
fn media_status_session_reads_the_running_apps_transport() {
    let mut events = handshake();
    events.push(TransportEvent::ReceiverStatus(status_with(vec![running(DEFAULT_MEDIA_ID)])));
    events.push(TransportEvent::MediaStatusReport(RawMediaStatus {
        entries: vec![RawMediaEntry {
            current_time_bits: Some(3.0f32.to_bits()),
            playback_rate_bits: 1.0f32.to_bits(),
            player_state: PlayerState::Buffering,
        }],
    }));
    let (_, actions) = drive(get_media_status("10.1.1.5", 8009), events);
    match &actions[4] {
        TransportAction::GetMediaStatus { transport_id } => assert_eq!(transport_id, "transport-1"),
        other => panic!("expected a media status read, got {other:?}"),
    }
    match &actions[5] {
        TransportAction::Finish(Ok(Outcome::Media(m))) => {
            assert_eq!(m.player_state, PlayerState::Buffering);
            assert_eq!(m.current_time_bits.map(f32::from_bits), Some(3.0));
        }
        other => panic!("expected the media status, got {other:?}"),
    }
}

#[test]
fn media_status_without_media_is_idle_and_without_app_fails() {
    let mut events = handshake();
    events.push(TransportEvent::ReceiverStatus(status_with(vec![running(DEFAULT_MEDIA_ID)])));
    events.push(TransportEvent::MediaStatusReport(RawMediaStatus { entries: vec![] }));
    let (_, actions) = drive(get_media_status("10.1.1.5", 8009), events);
    match &actions[5] {
        TransportAction::Finish(Ok(Outcome::Media(m))) => {
            assert_eq!(m.player_state, PlayerState::Idle);
            assert_eq!(m.current_time_bits, None);
            assert_eq!(m.playback_rate_bits, 0);
        }
        other => panic!("expected the idle media status, got {other:?}"),
    }
    let mut events = handshake();
    events.push(TransportEvent::ReceiverStatus(status_with(vec![])));
    let (_, actions) = drive(get_media_status("10.1.1.5", 8009), events);
    assert!(matches!(actions[4], TransportAction::Finish(Err(BCError::AppLookupFailed))));
}

#[test]
fn verified_trust_is_passed_to_the_connection() {
    let addr = DeviceAddress { ip: "10.1.1.6".to_string(), port: 8010 };
    let (session, action) = ControlSession::open(addr, TrustMode::Verified, Operation::DeviceStatus);
    assert!(!session.is_finished());
    match action {
        TransportAction::Connect { ip, port, trust } => {
            assert_eq!(ip, "10.1.1.6");
            assert_eq!(port, 8010);
            assert_eq!(trust, TrustMode::Verified);
        }
        other => panic!("expected a connection, got {other:?}"),
    }
}
