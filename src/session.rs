//! Control sessions with one device.
//!
//! Every control or status operation opens a fresh session: connect to the
//! device, open the receiver channel, ping it, and then do the work of the
//! operation. The session decides; its caller talks to the device. Each call
//! of [`ControlSession::advance`] takes the outcome of the last transport
//! operation and gives the next one to perform, until the session finishes
//! with a result. A failed step ends the session with that step's error;
//! nothing is retried.

use vstd::prelude::*;

use crate::app_ids::{DEFAULT_MEDIA_ID, WEBVIEW_ID, WEBVIEW_NAMESPACE, YOUTUBE_ID};
use crate::errors::BCError;
use crate::status::{
    device_status_of, media_status_of, DeviceStatus, MediaStatus, RawDeviceStatus, RawMediaStatus,
};

verus! {

/// The destination id of the device's own receiver.
pub const DEFAULT_DESTINATION_ID: &'static str = "receiver-0";

/// The address of a device.
#[derive(Debug)]
pub struct DeviceAddress {
    pub ip: String,
    pub port: u16,
}

/// Which receiver application plays the media.
#[derive(Debug, Clone, Copy, PartialEq, Eq, Structural)]
pub enum ReceiverOptions {
    /// The default media receiver.
    Default,
    /// The YouTube receiver.
    YouTube,
    /// The companion application that displays a web page.
    Web,
}

/// How the media is streamed.
#[derive(Debug, Clone, Copy, PartialEq, Eq, Structural)]
pub enum StreamTypeOptions {
    Live,
    Buffered,
    /// No stream type is given.
    Unset,
}

/// A request to start media on a device.
#[derive(Debug)]
pub struct StartMediaData {
    pub ip_address: String,
    pub port: u16,
    pub receiver: ReceiverOptions,
    pub media_url: String,
    pub content_type: String,
    pub stream_type: StreamTypeOptions,
}

/// Whether the device's identity is checked when connecting.
#[derive(Debug, Clone, Copy, PartialEq, Eq, Structural)]
pub enum TrustMode {
    /// The device's certificate is accepted as it is.
    Insecure,
    /// The device's certificate must be valid.
    Verified,
}

/// The media part of a start request.
#[derive(Debug)]
pub struct MediaRequest {
    pub receiver: ReceiverOptions,
    pub media_url: String,
    pub content_type: String,
    pub stream_type: StreamTypeOptions,
}

/// What a session does once the device answers.
#[derive(Debug)]
pub enum Operation {
    /// Launch a receiver and start media on it.
    StartMedia(MediaRequest),
    /// Stop the running application.
    StopMedia,
    /// Read the device status.
    DeviceStatus,
    /// Read the status of the media of the running application.
    MediaStatus,
}

/// Why the device status is read.
#[derive(Debug, Clone, Copy, PartialEq, Eq, Structural)]
pub enum StatusPurpose {
    Stop,
    Device,
    Media,
}

/// An application that the device launched.
#[derive(Debug)]
pub struct LaunchedApplication {
    pub app_id: String,
    pub session_id: String,
    pub transport_id: String,
}

/// The application to launch.
#[derive(Debug, Clone, Copy, PartialEq, Eq, Structural)]
pub enum LaunchTarget {
    DefaultMediaReceiver,
    YouTube,
    /// The web page application, launched by its id.
    WebView,
}

/// The end of a channel to open.
#[derive(Debug)]
pub enum ChannelDestination {
    /// The device's own receiver.
    Receiver,
    /// The transport of a launched application.
    Transport(String),
}

/// The message that tells the web page application what to show.
#[derive(Debug)]
pub struct WebAppMessage {
    pub url: String,
    pub proxy: bool,
}

/// A media-load command.
#[derive(Debug)]
pub struct MediaLoad {
    pub transport_id: String,
    pub session_id: String,
    /// The media's URL.
    pub content_id: String,
    pub content_type: String,
    pub stream_type: StreamTypeOptions,
}

/// What a finished session produced.
#[derive(Debug)]
pub enum Outcome {
    /// The media was started.
    Started,
    /// The running application was stopped.
    Stopped,
    /// The device status.
    Device(DeviceStatus),
    /// The media status.
    Media(MediaStatus),
}

/// The next thing for the caller to do.
#[derive(Debug)]
pub enum TransportAction {
    /// Open a connection to the device.
    Connect { ip: String, port: u16, trust: TrustMode },
    /// Open a channel to a destination.
    ConnectChannel(ChannelDestination),
    /// Check that the device answers.
    Ping,
    /// Launch an application.
    Launch(LaunchTarget),
    /// Load media into the launched application.
    LoadMedia(MediaLoad),
    /// Send a message to every sender and application on a namespace.
    Broadcast { namespace: &'static str, message: WebAppMessage },
    /// Read the device status.
    GetReceiverStatus,
    /// Read the media status of a transport.
    GetMediaStatus { transport_id: String },
    /// Stop the application of a session.
    StopApp { session_id: String },
    /// Nothing more: the session is over, with this result.
    Finish(Result<Outcome, BCError>),
}

/// The outcome of the last transport operation.
#[derive(Debug)]
pub enum TransportEvent {
    /// The operation succeeded and returned nothing to read.
    Done,
    /// The device launched an application.
    Launched(LaunchedApplication),
    /// The device reported its status.
    ReceiverStatus(RawDeviceStatus),
    /// The device reported the status of a transport's media.
    MediaStatusReport(RawMediaStatus),
    /// The operation failed.
    Failed(rust_cast::errors::Error),
}

/// A control session, named by the outcome it waits for.
#[derive(Debug)]
pub enum ControlSession {
    AwaitConnect(Operation),
    AwaitReceiverChannel(Operation),
    AwaitPing(Operation),
    AwaitLaunch(MediaRequest),
    AwaitAppChannel(MediaRequest, LaunchedApplication),
    AwaitCommand,
    AwaitStatus(StatusPurpose),
    AwaitStop,
    AwaitMediaStatus,
    Finished,
}

/// The application that plays media for a receiver choice.
pub open spec fn launch_target_of(r: ReceiverOptions) -> LaunchTarget {
    match r {
        ReceiverOptions::Default => LaunchTarget::DefaultMediaReceiver,
        ReceiverOptions::YouTube => LaunchTarget::YouTube,
        ReceiverOptions::Web => LaunchTarget::WebView,
    }
}

/// The command that starts the media once the application's channel is
/// open: for the web page application a broadcast of the URL on its
/// namespace, for the others a media-load command.
pub open spec fn command_of(req: MediaRequest, app: LaunchedApplication) -> TransportAction {
    match req.receiver {
        ReceiverOptions::Web => TransportAction::Broadcast {
            namespace: WEBVIEW_NAMESPACE,
            message: WebAppMessage { url: req.media_url, proxy: false },
        },
        _ => TransportAction::LoadMedia(
            MediaLoad {
                transport_id: app.transport_id,
                session_id: app.session_id,
                content_id: req.media_url,
                content_type: req.content_type,
                stream_type: req.stream_type,
            },
        ),
    }
}

/// The session's end with `result`.
pub open spec fn finish_with(result: Result<Outcome, BCError>) -> (ControlSession, TransportAction) {
    (ControlSession::Finished, TransportAction::Finish(result))
}

/// An event that does not answer what the session waits for.
pub open spec fn out_of_turn() -> (ControlSession, TransportAction) {
    finish_with(Err(BCError::InternalError))
}

/// The first step of an operation once the device has answered the ping.
pub open spec fn after_handshake(op: Operation) -> (ControlSession, TransportAction) {
    match op {
        Operation::StartMedia(req) => (
            ControlSession::AwaitLaunch(req),
            TransportAction::Launch(launch_target_of(req.receiver)),
        ),
        Operation::StopMedia => (
            ControlSession::AwaitStatus(StatusPurpose::Stop),
            TransportAction::GetReceiverStatus,
        ),
        Operation::DeviceStatus => (
            ControlSession::AwaitStatus(StatusPurpose::Device),
            TransportAction::GetReceiverStatus,
        ),
        Operation::MediaStatus => (
            ControlSession::AwaitStatus(StatusPurpose::Media),
            TransportAction::GetReceiverStatus,
        ),
    }
}

/// What a device status report leads to: stopping the primary application,
/// the normalised status, or reading the primary application's media
/// status. Stopping and reading media need a running application; without
/// one the session ends with `AppLookupFailed`.
pub open spec fn after_status(purpose: StatusPurpose, raw: RawDeviceStatus) -> (ControlSession, TransportAction) {
    match purpose {
        StatusPurpose::Device => finish_with(Ok(Outcome::Device(device_status_of(raw)))),
        _ => if raw.applications@.len() == 0 {
            finish_with(Err(BCError::AppLookupFailed))
        } else if purpose == StatusPurpose::Stop {
            (
                ControlSession::AwaitStop,
                TransportAction::StopApp { session_id: raw.applications@[0].session_id },
            )
        } else {
            (
                ControlSession::AwaitMediaStatus,
                TransportAction::GetMediaStatus { transport_id: raw.applications@[0].transport_id },
            )
        },
    }
}

/// The transition of a session on the outcome of its last operation: the
/// next session and the next action.
pub open spec fn session_step(s: ControlSession, e: TransportEvent) -> (ControlSession, TransportAction) {
    match s {
        ControlSession::AwaitConnect(op) => match e {
            TransportEvent::Done => (
                ControlSession::AwaitReceiverChannel(op),
                TransportAction::ConnectChannel(ChannelDestination::Receiver),
            ),
            TransportEvent::Failed(err) => finish_with(Err(BCError::DeviceLookupFailed(err))),
            _ => out_of_turn(),
        },
        ControlSession::AwaitReceiverChannel(op) => match e {
            TransportEvent::Done => (ControlSession::AwaitPing(op), TransportAction::Ping),
            TransportEvent::Failed(err) => finish_with(Err(BCError::ConnError(err))),
            _ => out_of_turn(),
        },
        ControlSession::AwaitPing(op) => match e {
            TransportEvent::Done => after_handshake(op),
            TransportEvent::Failed(err) => finish_with(Err(BCError::ConnError(err))),
            _ => out_of_turn(),
        },
        ControlSession::AwaitLaunch(req) => match e {
            TransportEvent::Launched(app) => (
                ControlSession::AwaitAppChannel(req, app),
                TransportAction::ConnectChannel(ChannelDestination::Transport(app.transport_id)),
            ),
            TransportEvent::Failed(err) => finish_with(Err(BCError::AppError(err))),
            _ => out_of_turn(),
        },
        ControlSession::AwaitAppChannel(req, app) => match e {
            TransportEvent::Done => (ControlSession::AwaitCommand, command_of(req, app)),
            TransportEvent::Failed(err) => finish_with(Err(BCError::ConnError(err))),
            _ => out_of_turn(),
        },
        ControlSession::AwaitCommand => match e {
            TransportEvent::Done => finish_with(Ok(Outcome::Started)),
            TransportEvent::Failed(err) => finish_with(Err(BCError::MediaError(err))),
            _ => out_of_turn(),
        },
        ControlSession::AwaitStatus(purpose) => match e {
            TransportEvent::ReceiverStatus(raw) => after_status(purpose, raw),
            TransportEvent::Failed(err) => finish_with(Err(BCError::ConnError(err))),
            _ => out_of_turn(),
        },
        ControlSession::AwaitStop => match e {
            TransportEvent::Done => finish_with(Ok(Outcome::Stopped)),
            TransportEvent::Failed(err) => finish_with(Err(BCError::AppError(err))),
            _ => out_of_turn(),
        },
        ControlSession::AwaitMediaStatus => match e {
            TransportEvent::MediaStatusReport(raw) => finish_with(Ok(Outcome::Media(media_status_of(raw)))),
            TransportEvent::Failed(err) => finish_with(Err(BCError::ConnError(err))),
            _ => out_of_turn(),
        },
        ControlSession::Finished => out_of_turn(),
    }
}

/// The session and the actions after a run of events, from session `s`.
pub open spec fn session_run(s: ControlSession, events: Seq<TransportEvent>) -> (ControlSession, Seq<TransportAction>)
    decreases events.len(),
{
    if events.len() == 0 {
        (s, Seq::empty())
    } else {
        let (mid, actions) = session_run(s, events.drop_last());
        let (next, action) = session_step(mid, events.last());
        (next, actions.push(action))
    }
}

impl LaunchTarget {
    /// The id under which the device knows the application.
    pub open spec fn spec_app_id(self) -> &'static str {
        match self {
            LaunchTarget::DefaultMediaReceiver => DEFAULT_MEDIA_ID,
            LaunchTarget::YouTube => YOUTUBE_ID,
            LaunchTarget::WebView => WEBVIEW_ID,
        }
    }

    /// The id under which the device knows the application.
    pub fn app_id(self) -> (r: &'static str)
        ensures
            r == self.spec_app_id(),
    {
        match self {
            LaunchTarget::DefaultMediaReceiver => DEFAULT_MEDIA_ID,
            LaunchTarget::YouTube => YOUTUBE_ID,
            LaunchTarget::WebView => WEBVIEW_ID,
        }
    }
}

impl ChannelDestination {
    /// The destination id to connect to.
    pub open spec fn spec_id(&self) -> Seq<char> {
        match self {
            ChannelDestination::Receiver => DEFAULT_DESTINATION_ID@,
            ChannelDestination::Transport(t) => t@,
        }
    }

    /// The destination id to connect to.
    pub fn id(&self) -> (r: &str)
        ensures
            r@ == self.spec_id(),
    {
        match self {
            ChannelDestination::Receiver => DEFAULT_DESTINATION_ID,
            ChannelDestination::Transport(t) => t.as_str(),
        }
    }
}

fn launch_target(r: ReceiverOptions) -> (t: LaunchTarget)
    ensures
        t == launch_target_of(r),
{
    match r {
        ReceiverOptions::Default => LaunchTarget::DefaultMediaReceiver,
        ReceiverOptions::YouTube => LaunchTarget::YouTube,
        ReceiverOptions::Web => LaunchTarget::WebView,
    }
}

fn command(req: MediaRequest, app: LaunchedApplication) -> (r: TransportAction)
    ensures
        r == command_of(req, app),
{
    match req.receiver {
        ReceiverOptions::Web => TransportAction::Broadcast {
            namespace: WEBVIEW_NAMESPACE,
            message: WebAppMessage { url: req.media_url, proxy: false },
        },
        _ => TransportAction::LoadMedia(
            MediaLoad {
                transport_id: app.transport_id,
                session_id: app.session_id,
                content_id: req.media_url,
                content_type: req.content_type,
                stream_type: req.stream_type,
            },
        ),
    }
}

fn finish(result: Result<Outcome, BCError>) -> (r: (ControlSession, TransportAction))
    ensures
        r == finish_with(result),
{
    (ControlSession::Finished, TransportAction::Finish(result))
}

fn handshake_done(op: Operation) -> (r: (ControlSession, TransportAction))
    ensures
        r == after_handshake(op),
{
    match op {
        Operation::StartMedia(req) => {
            let target = launch_target(req.receiver);
            (ControlSession::AwaitLaunch(req), TransportAction::Launch(target))
        },
        Operation::StopMedia => (
            ControlSession::AwaitStatus(StatusPurpose::Stop),
            TransportAction::GetReceiverStatus,
        ),
        Operation::DeviceStatus => (
            ControlSession::AwaitStatus(StatusPurpose::Device),
            TransportAction::GetReceiverStatus,
        ),
        Operation::MediaStatus => (
            ControlSession::AwaitStatus(StatusPurpose::Media),
            TransportAction::GetReceiverStatus,
        ),
    }
}

fn status_read(purpose: StatusPurpose, raw: RawDeviceStatus) -> (r: (ControlSession, TransportAction))
    ensures
        r == after_status(purpose, raw),
{
    match purpose {
        StatusPurpose::Device => finish(Ok(Outcome::Device(DeviceStatus::from_raw(raw)))),
        _ => {
            let mut applications = raw.applications;
            if applications.len() == 0 {
                finish(Err(BCError::AppLookupFailed))
            } else {
                let app = applications.remove(0);
                if purpose == StatusPurpose::Stop {
                    (ControlSession::AwaitStop, TransportAction::StopApp { session_id: app.session_id })
                } else {
                    (
                        ControlSession::AwaitMediaStatus,
                        TransportAction::GetMediaStatus { transport_id: app.transport_id },
                    )
                }
            }
        },
    }
}

impl ControlSession {
    /// Opens a session for `op` with the device at `address`: the first
    /// action connects to it, checking its identity as `trust` says.
    pub fn open(address: DeviceAddress, trust: TrustMode, op: Operation) -> (r: (ControlSession, TransportAction))
        ensures
            r == (
                ControlSession::AwaitConnect(op),
                TransportAction::Connect { ip: address.ip, port: address.port, trust },
            ),
    {
        (ControlSession::AwaitConnect(op), TransportAction::Connect { ip: address.ip, port: address.port, trust })
    }

    /// Whether the session is over.
    pub fn is_finished(&self) -> (r: bool)
        ensures
            r == (*self is Finished),
    {
        match self {
            ControlSession::Finished => true,
            _ => false,
        }
    }

    /// Takes the outcome of the last transport operation and gives the next
    /// session and the next action, as [`session_step`] says. A failure ends
    /// the session with the error of the failed step: `DeviceLookupFailed`
    /// for the connection, `AppError` for launching or stopping, `MediaError`
    /// for the media command, `ConnError` for the rest. An outcome that does
    /// not answer what the session waits for ends it with `InternalError`.
    pub fn advance(self, event: TransportEvent) -> (r: (ControlSession, TransportAction))
        ensures
            r == session_step(self, event),
    {
        match self {
            ControlSession::AwaitConnect(op) => match event {
                TransportEvent::Done => (
                    ControlSession::AwaitReceiverChannel(op),
                    TransportAction::ConnectChannel(ChannelDestination::Receiver),
                ),
                TransportEvent::Failed(err) => finish(Err(BCError::DeviceLookupFailed(err))),
                _ => finish(Err(BCError::InternalError)),
            },
            ControlSession::AwaitReceiverChannel(op) => match event {
                TransportEvent::Done => (ControlSession::AwaitPing(op), TransportAction::Ping),
                TransportEvent::Failed(err) => finish(Err(BCError::ConnError(err))),
                _ => finish(Err(BCError::InternalError)),
            },
            ControlSession::AwaitPing(op) => match event {
                TransportEvent::Done => handshake_done(op),
                TransportEvent::Failed(err) => finish(Err(BCError::ConnError(err))),
                _ => finish(Err(BCError::InternalError)),
            },
            ControlSession::AwaitLaunch(req) => match event {
                TransportEvent::Launched(app) => {
                    let transport_id = app.transport_id.clone();
                    (
                        ControlSession::AwaitAppChannel(req, app),
                        TransportAction::ConnectChannel(ChannelDestination::Transport(transport_id)),
                    )
                },
                TransportEvent::Failed(err) => finish(Err(BCError::AppError(err))),
                _ => finish(Err(BCError::InternalError)),
            },
            ControlSession::AwaitAppChannel(req, app) => match event {
                TransportEvent::Done => (ControlSession::AwaitCommand, command(req, app)),
                TransportEvent::Failed(err) => finish(Err(BCError::ConnError(err))),
                _ => finish(Err(BCError::InternalError)),
            },
            ControlSession::AwaitCommand => match event {
                TransportEvent::Done => finish(Ok(Outcome::Started)),
                TransportEvent::Failed(err) => finish(Err(BCError::MediaError(err))),
                _ => finish(Err(BCError::InternalError)),
            },
            ControlSession::AwaitStatus(purpose) => match event {
                TransportEvent::ReceiverStatus(raw) => status_read(purpose, raw),
                TransportEvent::Failed(err) => finish(Err(BCError::ConnError(err))),
                _ => finish(Err(BCError::InternalError)),
            },
            ControlSession::AwaitStop => match event {
                TransportEvent::Done => finish(Ok(Outcome::Stopped)),
                TransportEvent::Failed(err) => finish(Err(BCError::AppError(err))),
                _ => finish(Err(BCError::InternalError)),
            },
            ControlSession::AwaitMediaStatus => match event {
                TransportEvent::MediaStatusReport(raw) => finish(Ok(Outcome::Media(MediaStatus::from_raw(raw)))),
                TransportEvent::Failed(err) => finish(Err(BCError::ConnError(err))),
                _ => finish(Err(BCError::InternalError)),
            },
            ControlSession::Finished => finish(Err(BCError::InternalError)),
        }
    }
}

/// The operation that starts the media of `data`.
pub open spec fn start_operation_of(data: StartMediaData) -> Operation {
    Operation::StartMedia(
        MediaRequest {
            receiver: data.receiver,
            media_url: data.media_url,
            content_type: data.content_type,
            stream_type: data.stream_type,
        },
    )
}

/// Whether `a` connects to `ip`, `port` without checking the device's identity.
pub open spec fn connects_insecurely(a: TransportAction, ip: Seq<char>, port: u16) -> bool {
    a matches TransportAction::Connect { ip: i, port: p, trust: t } && i@ == ip && p == port
        && t == TrustMode::Insecure
}

/// Opens a session that launches the receiver that `data` asks for and
/// starts its media: a media load for the default and YouTube receivers, a
/// broadcast of the URL for the web page application.
pub fn start_from_data(data: StartMediaData) -> (r: (ControlSession, TransportAction))
    ensures
        r == (
            ControlSession::AwaitConnect(start_operation_of(data)),
            TransportAction::Connect { ip: data.ip_address, port: data.port, trust: TrustMode::Insecure },
        ),
{
    let StartMediaData { ip_address, port, receiver, media_url, content_type, stream_type } = data;
    let op = Operation::StartMedia(MediaRequest { receiver, media_url, content_type, stream_type });
    ControlSession::open(DeviceAddress { ip: ip_address, port }, TrustMode::Insecure, op)
}

/// Opens a session that stops the application running on the device at
/// `device_addr`. When no application runs it ends with `AppLookupFailed`.
pub fn stop_media_at_device(device_addr: DeviceAddress) -> (r: (ControlSession, TransportAction))
    ensures
        r == (
            ControlSession::AwaitConnect(Operation::StopMedia),
            TransportAction::Connect { ip: device_addr.ip, port: device_addr.port, trust: TrustMode::Insecure },
        ),
{
    ControlSession::open(device_addr, TrustMode::Insecure, Operation::StopMedia)
}

/// Opens a session that reads the normalised status of the device at
/// `ip`, `port`.
pub fn get_device_status(ip: &str, port: u16) -> (r: (ControlSession, TransportAction))
    ensures
        r.0 == ControlSession::AwaitConnect(Operation::DeviceStatus),
        connects_insecurely(r.1, ip@, port),
{
    ControlSession::open(DeviceAddress { ip: ip.to_owned(), port }, TrustMode::Insecure, Operation::DeviceStatus)
}

/// Opens a session that reads the media status of the application running
/// on the device at `ip`, `port`. When no application runs it ends with
/// `AppLookupFailed`; when the application has no media it ends with the
/// idle media status.
pub fn get_media_status(ip: &str, port: u16) -> (r: (ControlSession, TransportAction))
    ensures
        r.0 == ControlSession::AwaitConnect(Operation::MediaStatus),
        connects_insecurely(r.1, ip@, port),
{
    ControlSession::open(DeviceAddress { ip: ip.to_owned(), port }, TrustMode::Insecure, Operation::MediaStatus)
}

/// Whether `s` is a session that starts media on the web page application.
pub open spec fn starts_web_page(s: ControlSession) -> bool {
    match s {
        ControlSession::AwaitConnect(op) => op is StartMedia && op->StartMedia_0.receiver == ReceiverOptions::Web,
        ControlSession::AwaitReceiverChannel(op) => op is StartMedia && op->StartMedia_0.receiver
            == ReceiverOptions::Web,
        ControlSession::AwaitPing(op) => op is StartMedia && op->StartMedia_0.receiver == ReceiverOptions::Web,
        ControlSession::AwaitLaunch(req) => req.receiver == ReceiverOptions::Web,
        ControlSession::AwaitAppChannel(req, _) => req.receiver == ReceiverOptions::Web,
        ControlSession::AwaitCommand => true,
        ControlSession::Finished => true,
        _ => false,
    }
}

proof fn lemma_web_page_step(s: ControlSession, e: TransportEvent)
    requires
        starts_web_page(s),
    ensures
        starts_web_page(session_step(s, e).0),
        !(session_step(s, e).1 is LoadMedia),
{
}

/// A web page start never loads media: whatever the outcomes of its
/// operations, a session opened for the web page application asks for no
/// media load.
pub proof fn lemma_web_page_never_loads(data: StartMediaData, events: Seq<TransportEvent>)
    requires
        data.receiver == ReceiverOptions::Web,
    ensures
        forall|i: int|
            0 <= i < events.len() ==> !(#[trigger] session_run(
                ControlSession::AwaitConnect(start_operation_of(data)),
                events,
            ).1[i] is LoadMedia),
    decreases events.len(),
{
    lemma_web_page_run(data, events);
}

proof fn lemma_web_page_run(data: StartMediaData, events: Seq<TransportEvent>)
    requires
        data.receiver == ReceiverOptions::Web,
    ensures
        starts_web_page(session_run(ControlSession::AwaitConnect(start_operation_of(data)), events).0),
        session_run(ControlSession::AwaitConnect(start_operation_of(data)), events).1.len() == events.len(),
        forall|i: int|
            0 <= i < events.len() ==> !(#[trigger] session_run(
                ControlSession::AwaitConnect(start_operation_of(data)),
                events,
            ).1[i] is LoadMedia),
    decreases events.len(),
{
    let s0 = ControlSession::AwaitConnect(start_operation_of(data));
    if events.len() > 0 {
        lemma_web_page_run(data, events.drop_last());
        let (mid, actions) = session_run(s0, events.drop_last());
        lemma_web_page_step(mid, events.last());
        let all = session_run(s0, events).1;
        assert forall|i: int| 0 <= i < events.len() implies !(#[trigger] all[i] is LoadMedia) by {
            if i < actions.len() {
                assert(all[i] == actions[i]);
            }
        }
    }
}

/// A web page start on a device that answers every step: it connects, opens
/// the receiver channel, pings, launches the web page application, opens its
/// channel, and broadcasts `{url, proxy: false}` on the application's
/// namespace, where `url` is the requested media URL.
pub proof fn lemma_web_page_broadcasts(data: StartMediaData, app: LaunchedApplication)
    requires
        data.receiver == ReceiverOptions::Web,
    ensures
        session_run(
            ControlSession::AwaitConnect(start_operation_of(data)),
            seq![
                TransportEvent::Done,
                TransportEvent::Done,
                TransportEvent::Done,
                TransportEvent::Launched(app),
                TransportEvent::Done,
            ],
        ) == (
            ControlSession::AwaitCommand,
            seq![
                TransportAction::ConnectChannel(ChannelDestination::Receiver),
                TransportAction::Ping,
                TransportAction::Launch(LaunchTarget::WebView),
                TransportAction::ConnectChannel(ChannelDestination::Transport(app.transport_id)),
                TransportAction::Broadcast {
                    namespace: WEBVIEW_NAMESPACE,
                    message: WebAppMessage { url: data.media_url, proxy: false },
                },
            ],
        ),
{
    let s0 = ControlSession::AwaitConnect(start_operation_of(data));
    let e = Seq::<TransportEvent>::empty();
    let e1 = e.push(TransportEvent::Done);
    let e2 = e1.push(TransportEvent::Done);
    let e3 = e2.push(TransportEvent::Done);
    let e4 = e3.push(TransportEvent::Launched(app));
    let e5 = e4.push(TransportEvent::Done);
    lemma_run_push(s0, e, TransportEvent::Done);
    lemma_run_push(s0, e1, TransportEvent::Done);
    lemma_run_push(s0, e2, TransportEvent::Done);
    lemma_run_push(s0, e3, TransportEvent::Launched(app));
    lemma_run_push(s0, e4, TransportEvent::Done);
    assert(e5 =~= seq![
        TransportEvent::Done,
        TransportEvent::Done,
        TransportEvent::Done,
        TransportEvent::Launched(app),
        TransportEvent::Done,
    ]);
    assert(session_run(s0, e5).1 =~= seq![
        TransportAction::ConnectChannel(ChannelDestination::Receiver),
        TransportAction::Ping,
        TransportAction::Launch(LaunchTarget::WebView),
        TransportAction::ConnectChannel(ChannelDestination::Transport(app.transport_id)),
        TransportAction::Broadcast {
            namespace: WEBVIEW_NAMESPACE,
            message: WebAppMessage { url: data.media_url, proxy: false },
        },
    ]);
}

/// Whether `s` is a session that stops the running application.
pub open spec fn stops_app(s: ControlSession) -> bool {
    match s {
        ControlSession::AwaitConnect(op) => op is StopMedia,
        ControlSession::AwaitReceiverChannel(op) => op is StopMedia,
        ControlSession::AwaitPing(op) => op is StopMedia,
        ControlSession::AwaitStatus(p) => p == StatusPurpose::Stop,
        ControlSession::AwaitStop => true,
        ControlSession::Finished => true,
        _ => false,
    }
}

/// Whether `a` ends a session with success.
pub open spec fn finishes_ok(a: TransportAction) -> bool {
    a matches TransportAction::Finish(Ok(_))
}

/// Whether every success among `actions` comes after a stop command.
pub open spec fn success_follows_stop(actions: Seq<TransportAction>) -> bool {
    forall|i: int|
        0 <= i < actions.len() && finishes_ok(#[trigger] actions[i]) ==> exists|j: int|
            0 <= j < i && actions[j] is StopApp
}

proof fn lemma_stop_step(s: ControlSession, e: TransportEvent)
    requires
        stops_app(s),
    ensures
        stops_app(session_step(s, e).0),
        finishes_ok(session_step(s, e).1) ==> s is AwaitStop,
        session_step(s, e).0 is AwaitStop ==> session_step(s, e).1 is StopApp,
{
}

proof fn lemma_stop_run(events: Seq<TransportEvent>)
    ensures
        stops_app(session_run(ControlSession::AwaitConnect(Operation::StopMedia), events).0),
        session_run(ControlSession::AwaitConnect(Operation::StopMedia), events).1.len() == events.len(),
        success_follows_stop(session_run(ControlSession::AwaitConnect(Operation::StopMedia), events).1),
        session_run(ControlSession::AwaitConnect(Operation::StopMedia), events).0 is AwaitStop ==> exists|j: int|
            0 <= j < events.len() && session_run(
                ControlSession::AwaitConnect(Operation::StopMedia),
                events,
            ).1[j] is StopApp,
    decreases events.len(),
{
    let s0 = ControlSession::AwaitConnect(Operation::StopMedia);
    if events.len() > 0 {
        lemma_stop_run(events.drop_last());
        let (mid, actions) = session_run(s0, events.drop_last());
        lemma_stop_step(mid, events.last());
        let (next, all) = session_run(s0, events);
        assert(all == actions.push(session_step(mid, events.last()).1));
        assert forall|i: int| 0 <= i < all.len() && finishes_ok(#[trigger] all[i]) implies exists|j: int|
            0 <= j < i && all[j] is StopApp by {
            if i < actions.len() {
                assert(all[i] == actions[i]);
                let j = choose|j: int| 0 <= j < i && actions[j] is StopApp;
                assert(all[j] == actions[j]);
            } else {
                let j = choose|j: int| 0 <= j < actions.len() && actions[j] is StopApp;
                assert(all[j] == actions[j]);
            }
        }
        if next is AwaitStop {
            assert(all[actions.len() as int] is StopApp);
        }
    }
}

/// A stop never succeeds silently: whatever the outcomes of its operations,
/// a stop session reports success only after it has asked the device to stop
/// an application.
pub proof fn lemma_stop_success_needs_stop_command(events: Seq<TransportEvent>)
    ensures
        success_follows_stop(session_run(ControlSession::AwaitConnect(Operation::StopMedia), events).1),
{
    lemma_stop_run(events);
}

/// A stop against a device that runs no application: once the device has
/// answered the connection, channel and ping, a status report without an
/// application ends the session with `AppLookupFailed`, and no stop command
/// is sent.
pub proof fn lemma_stop_without_app_fails(raw: RawDeviceStatus)
    requires
        raw.applications@.len() == 0,
    ensures
        session_run(
            ControlSession::AwaitConnect(Operation::StopMedia),
            seq![
                TransportEvent::Done,
                TransportEvent::Done,
                TransportEvent::Done,
                TransportEvent::ReceiverStatus(raw),
            ],
        ) == (
            ControlSession::Finished,
            seq![
                TransportAction::ConnectChannel(ChannelDestination::Receiver),
                TransportAction::Ping,
                TransportAction::GetReceiverStatus,
                TransportAction::Finish(Err(BCError::AppLookupFailed)),
            ],
        ),
{
    let s0 = ControlSession::AwaitConnect(Operation::StopMedia);
    let e = Seq::<TransportEvent>::empty();
    let e1 = e.push(TransportEvent::Done);
    let e2 = e1.push(TransportEvent::Done);
    let e3 = e2.push(TransportEvent::Done);
    let e4 = e3.push(TransportEvent::ReceiverStatus(raw));
    lemma_run_push(s0, e, TransportEvent::Done);
    lemma_run_push(s0, e1, TransportEvent::Done);
    lemma_run_push(s0, e2, TransportEvent::Done);
    lemma_run_push(s0, e3, TransportEvent::ReceiverStatus(raw));
    assert(e4 =~= seq![
        TransportEvent::Done,
        TransportEvent::Done,
        TransportEvent::Done,
        TransportEvent::ReceiverStatus(raw),
    ]);
    assert(session_run(s0, e4).1 =~= seq![
        TransportAction::ConnectChannel(ChannelDestination::Receiver),
        TransportAction::Ping,
        TransportAction::GetReceiverStatus,
        TransportAction::Finish(Err(BCError::AppLookupFailed)),
    ]);
}

/// One more event extends a run by one step.
proof fn lemma_run_push(s: ControlSession, events: Seq<TransportEvent>, e: TransportEvent)
    ensures
        session_run(s, events.push(e)) == (
            session_step(session_run(s, events).0, e).0,
            session_run(s, events).1.push(session_step(session_run(s, events).0, e).1),
        ),
{
    assert(events.push(e).drop_last() =~= events);
}

} // verus!
