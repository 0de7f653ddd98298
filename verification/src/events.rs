//! The data carried across the player protocol: native window handles,
//! engine status messages, inbound event payloads, and the side effects a
//! transition asks the embedding shell to perform.

use vstd::prelude::*;

verus! {

/// A platform window handle, reduced to the plain value that an overlay
/// binding passes to the rendering sink's window-handle property.
#[derive(Clone, Copy, Debug, PartialEq, Eq)]
pub enum NativeHandle {
    /// Mobile UIKit: the address of the UIView.
    UiKit { ui_view: usize },
    /// Desktop AppKit: the address of the NSView.
    AppKit { ns_view: usize },
    /// Desktop X11: the X window identifier.
    Xlib { window: usize },
    /// Desktop Win32: the HWND.
    Win32 { hwnd: usize },
    /// Any other platform: no overlay binding is possible.
    Unsupported,
}

impl NativeHandle {
    /// The numeric value handed to the sink, or `None` where the platform
    /// kind has no overlay binding.
    pub open spec fn spec_raw(&self) -> Option<usize> {
        match *self {
            NativeHandle::UiKit { ui_view } => Some(ui_view),
            NativeHandle::AppKit { ns_view } => Some(ns_view),
            NativeHandle::Xlib { window } => Some(window),
            NativeHandle::Win32 { hwnd } => Some(hwnd),
            NativeHandle::Unsupported => None,
        }
    }

    /// Extracts the numeric handle for the supported platform kinds.
    pub fn raw_value(&self) -> (r: Option<usize>)
        ensures
            r == self.spec_raw(),
    {
        match *self {
            NativeHandle::UiKit { ui_view } => Some(ui_view),
            NativeHandle::AppKit { ns_view } => Some(ns_view),
            NativeHandle::Xlib { window } => Some(window),
            NativeHandle::Win32 { hwnd } => Some(hwnd),
            NativeHandle::Unsupported => None,
        }
    }
}

/// One message drained from the engine pipeline's status channel.
#[derive(Clone, Copy, Debug, PartialEq, Eq)]
pub enum BusMessage {
    /// The engine reported a runtime error.
    Error,
    /// The engine reached the end of the stream.
    Eos,
    /// Any other status message; ignored by the player.
    Other,
}

/// A status message that stops the player when polled.
pub open spec fn is_terminal(m: BusMessage) -> bool {
    m is Error || m is Eos
}

/// Whether some drained status message is an error or an end-of-stream.
pub open spec fn has_terminal(ms: Seq<BusMessage>) -> bool {
    exists|i: int| 0 <= i < ms.len() && is_terminal(ms[i])
}

/// The payload of an inbound event: the fields of the front end's
/// JSON-like value that transitions read, together with what the toolkit
/// and the engine report for this dispatch.
#[derive(Clone, Debug, PartialEq)]
pub struct EventPayload {
    /// Requested surface width, when the payload carries one.
    pub width: Option<i32>,
    /// Requested surface height, when the payload carries one.
    pub height: Option<i32>,
    /// The native handle of the player's window, for a `"ready"` event.
    pub handle: Option<NativeHandle>,
    /// Whether the engine could assemble a pipeline and sink for the
    /// player's URL, for a `"ready"` event.
    pub engine_ok: bool,
    /// The status messages drained from the pipeline, for a `"poll"` event.
    pub messages: Vec<BusMessage>,
}

impl EventPayload {
    /// A payload carrying nothing: no dimensions, no handle, no engine
    /// report, no status messages.
    pub fn empty() -> (r: EventPayload)
        ensures
            r.width is None,
            r.height is None,
            r.handle is None,
            !r.engine_ok,
            r.messages@.len() == 0,
    {
        EventPayload { width: None, height: None, handle: None, engine_ok: false, messages: Vec::new() }
    }
}

/// A side effect on the windowing toolkit or the media engine that a
/// transition asks the embedding shell to perform, in order.
#[derive(Clone, Copy, Debug, PartialEq, Eq)]
pub enum Action {
    /// Create the player's window at the given inner size, named after the
    /// player and titled with its URL.
    CreateWindow { width: i32, height: i32 },
    /// Pass the native handle to the sink's window-handle property.
    BindOverlay { handle: usize },
    /// Set the sub-rectangle of the window where frames are drawn.
    SetRenderRectangle { x: i32, y: i32, width: i32, height: i32 },
    /// Force a redraw after a rectangle change.
    Expose,
    /// Set the engine pipeline to its playing state.
    EnginePlay,
    /// Set the engine pipeline to its paused state.
    EnginePause,
    /// Tear the engine pipeline down to its idle state.
    EngineNull,
    /// Close the player's window.
    CloseWindow,
}

/// A message pushed on a player's outward channel for the front end:
/// `{event, data}` with a null data field throughout this protocol.
#[derive(Clone, Debug, PartialEq, Eq)]
pub struct OutwardEvent {
    /// The channel name: the identifier of the emitting player.
    pub channel: String,
    /// The event name, such as `"closed"` or `"close"`.
    pub event: String,
}

} // verus!
