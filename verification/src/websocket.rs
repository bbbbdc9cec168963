//! The server as the host process sees it: the messages exchanged with the
//! host, the choice of backends, and the stream handlers built for each
//! connection.

use vstd::prelude::*;
use vstd::string::*;
use crate::input::mouse_device::Mouse;
use crate::session::secret_view;
use crate::stream_handler::PointerStreamHandler;
use crate::stream_handler::ScreenStreamHandler;
use crate::window::WindowInfo;

verus! {

/// A notification for the host process. It is never acknowledged.
#[derive(Debug, PartialEq, Eq)]
pub enum Ws2GuiMessage {
    Error(String),
    Warning(String),
    Info(String),
}

/// A command from the host process.
#[derive(Debug, PartialEq, Eq)]
pub enum Gui2WsMessage {
    Shutdown,
}

/// A notification with its text as a sequence of characters.
pub enum Notice {
    Error(Seq<char>),
    Warning(Seq<char>),
    Info(Seq<char>),
}

impl View for Ws2GuiMessage {
    type V = Notice;

    open spec fn view(&self) -> Notice {
        match self {
            Ws2GuiMessage::Error(text) => Notice::Error(text@),
            Ws2GuiMessage::Warning(text) => Notice::Warning(text@),
            Ws2GuiMessage::Info(text) => Notice::Info(text@),
        }
    }
}

/// Why a stream handler could not be built.
#[derive(Debug, PartialEq, Eq)]
pub struct HandlerError {
    pub reason: String,
}

/// The input device behind the input endpoint.
#[derive(Clone, Copy, Debug, PartialEq, Eq, Structural)]
pub enum PointerBackend {
    /// A graphic tablet with stylus support.
    GraphicTablet,
    /// A plain mouse.
    Mouse,
}

/// The capturer behind the video endpoint.
#[derive(Clone, Copy, Debug, PartialEq, Eq, Structural)]
pub enum CaptureBackend {
    /// The capturer that knows the window system and is faster for it.
    XScreen,
    /// The capturer that works everywhere.
    Generic,
}

/// What one endpoint is started with.
#[derive(Debug, PartialEq, Eq)]
pub struct EndpointPlan<B> {
    /// The secret that a client must present first, if one is configured.
    pub secret: Option<String>,
    /// The backend of the stream handlers built for its connections.
    pub backend: B,
}

/// What the two endpoints are started with.
#[derive(Debug, PartialEq, Eq)]
pub struct ServerPlan {
    pub input: EndpointPlan<PointerBackend>,
    pub video: EndpointPlan<CaptureBackend>,
    /// What positions and frames are relative to.
    pub capture_window: WindowInfo,
    /// The time from one captured frame to the next, in the unit of the
    /// capture clock.
    pub screen_update_interval: u64,
}

/// The backend of the input endpoint.
pub open spec fn pointer_backend(stylus_support: bool) -> PointerBackend {
    if stylus_support {
        PointerBackend::GraphicTablet
    } else {
        PointerBackend::Mouse
    }
}

/// The backend of the video endpoint.
pub open spec fn capture_backend(faster_capture: bool) -> CaptureBackend {
    if faster_capture {
        CaptureBackend::XScreen
    } else {
        CaptureBackend::Generic
    }
}

/// The view of an optional password.
pub open spec fn password_view(password: Option<&str>) -> Option<Seq<char>> {
    match password {
        Some(text) => Some(text@),
        None => None,
    }
}

/// Lays out the server from its configuration. The password, where there is
/// one, guards both endpoints alike.
pub fn plan(
    password: Option<&str>,
    screen_update_interval: u64,
    stylus_support: bool,
    faster_capture: bool,
    capture_window: WindowInfo,
) -> (plan: ServerPlan)
    ensures
        secret_view(plan.input.secret) == password_view(password),
        secret_view(plan.video.secret) == password_view(password),
        plan.input.backend == pointer_backend(stylus_support),
        plan.video.backend == capture_backend(faster_capture),
        plan.capture_window == capture_window,
        plan.screen_update_interval == screen_update_interval,
{
    let input_secret = match password {
        Some(text) => Some(String::from_str(text)),
        None => None,
    };
    let video_secret = match password {
        Some(text) => Some(String::from_str(text)),
        None => None,
    };
    ServerPlan {
        input: EndpointPlan {
            secret: input_secret,
            backend: if stylus_support {
                PointerBackend::GraphicTablet
            } else {
                PointerBackend::Mouse
            },
        },
        video: EndpointPlan {
            secret: video_secret,
            backend: if faster_capture {
                CaptureBackend::XScreen
            } else {
                CaptureBackend::Generic
            },
        },
        capture_window,
        screen_update_interval,
    }
}

/// Builds the handler of an input connection that is served by a graphic
/// tablet. `device` is what opening the tablet gave: the handler wraps the
/// tablet, or the failure is handed on.
pub fn create_graphic_tablet_stream_handler<D>(device: Result<D, String>) -> (handler: Result<
    PointerStreamHandler<D>,
    HandlerError,
>)
    ensures
        match device {
            Ok(tablet) => handler matches Ok(made) && made.wrapped() == tablet,
            Err(reason) => handler matches Err(error) && error.reason == reason,
        },
{
    match device {
        Ok(tablet) => Ok(PointerStreamHandler::new(tablet)),
        Err(reason) => Err(HandlerError { reason }),
    }
}

/// Builds the handler of an input connection that is served by a mouse on
/// the target `winfo`. This cannot fail.
pub fn create_mouse_stream_handler(winfo: WindowInfo) -> (handler: Result<
    PointerStreamHandler<Mouse>,
    HandlerError,
>)
    ensures
        handler matches Ok(made) && made.wrapped().target() == winfo,
{
    Ok(PointerStreamHandler::new(Mouse::new(winfo)))
}

/// Builds the handler of a video connection that is served by the capturer
/// of the window system. `capturer` is what setting that capturer up gave:
/// the handler wraps it, or the failure is handed on.
pub fn create_xscreen_stream_handler<C>(
    capturer: Result<C, String>,
    update_interval: u64,
) -> (handler: Result<ScreenStreamHandler<C>, HandlerError>)
    ensures
        match capturer {
            Ok(capture) => handler matches Ok(made) && made.wrapped() == capture
                && made.interval() == update_interval && made.last_capture() is None,
            Err(reason) => handler matches Err(error) && error.reason == reason,
        },
{
    match capturer {
        Ok(capture) => Ok(ScreenStreamHandler::new(capture, update_interval)),
        Err(reason) => Err(HandlerError { reason }),
    }
}

/// Builds the handler of a video connection that is served by the generic
/// capturer. This cannot fail.
pub fn create_screen_stream_handler<C>(capturer: C, update_interval: u64) -> (handler: Result<
    ScreenStreamHandler<C>,
    HandlerError,
>)
    ensures
        handler matches Ok(made) && made.wrapped() == capturer && made.interval()
            == update_interval && made.last_capture() is None,
{
    Ok(ScreenStreamHandler::new(capturer, update_interval))
}

} // verus!
