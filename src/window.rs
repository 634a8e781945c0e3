//! What the host window turns platform notifications into.
use crate::events::{
    AnyEvent, Eventable, KeyPressedEvent, KeyReleasedEvent, MouseButton, MouseButtonPressedEvent,
    MouseButtonReleasedEvent, MouseMoveEvent, WindowCloseEvent, WindowRedrawRequestedEvent,
    WindowResizeEvent,
};
use std::sync::Arc;
use vstd::prelude::*;
use winit::event::DeviceId;
use winit::keyboard::KeyCode;
use winit::window::WindowId;

verus! {

/// Holds the window that the application draws into.
pub struct WindowWrapper<W> {
    reference: Arc<W>,
}

impl<W> WindowWrapper<W> {
    pub closed spec fn window_view(self) -> Arc<W> {
        self.reference
    }

    /// Wraps `window`.
    pub fn new(window: Arc<W>) -> (r: WindowWrapper<W>)
        ensures
            r.window_view() == window,
    {
        WindowWrapper { reference: window }
    }

    /// The wrapped window.
    pub fn window(&self) -> (r: &Arc<W>)
        ensures
            *r == self.window_view(),
    {
        &self.reference
    }
}

/// Events that the application sends to its own window loop.
#[derive(Debug, Clone, Copy, PartialEq, Eq, Structural)]
pub enum WindowManagerCustomEvent {
    TerminateWindow,
}

/// A platform notification addressed to the application's window, as the values that matter
/// here.
pub enum WindowNotification {
    CloseRequested,
    RedrawRequested,
    KeyboardInput { pressed: bool, keycode: KeyCode, repeat: bool },
    Resized { width: u32, height: u32 },
    MouseInput { pressed: bool, device_id: DeviceId, button: MouseButton },
    CursorMoved { device_id: DeviceId, x_bits: u64, y_bits: u64 },
    Other,
}

/// A payload made from a platform notification.
pub enum HandledEvent {
    WindowClose(WindowCloseEvent),
    WindowRedrawRequested(WindowRedrawRequestedEvent),
    KeyPressed(KeyPressedEvent),
    KeyReleased(KeyReleasedEvent),
    WindowResize(WindowResizeEvent),
    MouseButtonPressed(MouseButtonPressedEvent),
    MouseButtonReleased(MouseButtonReleasedEvent),
    MouseMove(MouseMoveEvent),
}

impl HandledEvent {
    pub open spec fn as_any_spec(&self) -> AnyEvent<'_> {
        match self {
            HandledEvent::WindowClose(e) => e.as_any_spec(),
            HandledEvent::WindowRedrawRequested(e) => e.as_any_spec(),
            HandledEvent::KeyPressed(e) => e.as_any_spec(),
            HandledEvent::KeyReleased(e) => e.as_any_spec(),
            HandledEvent::WindowResize(e) => e.as_any_spec(),
            HandledEvent::MouseButtonPressed(e) => e.as_any_spec(),
            HandledEvent::MouseButtonReleased(e) => e.as_any_spec(),
            HandledEvent::MouseMove(e) => e.as_any_spec(),
        }
    }

    /// The payload, erased.
    pub fn as_any(&self) -> (r: AnyEvent<'_>)
        ensures
            r == self.as_any_spec(),
    {
        match self {
            HandledEvent::WindowClose(e) => e.as_any(),
            HandledEvent::WindowRedrawRequested(e) => e.as_any(),
            HandledEvent::KeyPressed(e) => e.as_any(),
            HandledEvent::KeyReleased(e) => e.as_any(),
            HandledEvent::WindowResize(e) => e.as_any(),
            HandledEvent::MouseButtonPressed(e) => e.as_any(),
            HandledEvent::MouseButtonReleased(e) => e.as_any(),
            HandledEvent::MouseMove(e) => e.as_any(),
        }
    }
}

/// What the window loop does in answer to one notification.
pub struct WindowResponse {
    /// The payload to hand to the application, if any.
    pub event: Option<HandledEvent>,
    /// Whether the loop ends.
    pub exit: bool,
    /// Whether another frame is asked for.
    pub request_redraw: bool,
}

pub fn handle_window_close_event(window_id: WindowId) -> (r: WindowCloseEvent)
    ensures
        r.name@ == "WINDOW CLOSE EVENT"@,
        r.window_id == window_id,
        !r.is_handled,
{
    WindowCloseEvent { name: String::from_str("WINDOW CLOSE EVENT"), is_handled: false, window_id }
}

pub fn handle_redraw_requested_event(window_id: WindowId) -> (r: WindowRedrawRequestedEvent)
    ensures
        r.name@ == "WINDOW REDRAW REQUESTED EVENT"@,
        r.window_id == window_id,
        !r.is_handled,
{
    WindowRedrawRequestedEvent {
        name: String::from_str("WINDOW REDRAW REQUESTED EVENT"),
        is_handled: false,
        window_id,
    }
}

/// The payload of a key going down (`pressed`) or up.
pub open spec fn key_input_made(r: HandledEvent, pressed: bool, keycode: KeyCode, repeat: bool) -> bool {
    if pressed {
        r matches HandledEvent::KeyPressed(e) && e.name@ == "KeyPressedEvent"@ && e.keycode
            == keycode && e.repeat == repeat && !e.is_handled
    } else {
        r matches HandledEvent::KeyReleased(e) && e.name@ == "KeyRELEASED EVENT"@ && e.keycode
            == keycode && !e.is_handled
    }
}

/// The payload of a pointer button going down (`pressed`) or up.
pub open spec fn mouse_input_made(
    r: HandledEvent,
    pressed: bool,
    button: MouseButton,
    device_id: DeviceId,
) -> bool {
    if pressed {
        r matches HandledEvent::MouseButtonPressed(e) && e.name@ == "MousePressedEvent"@
            && e.button == button && e.device_id == device_id && !e.is_handled
    } else {
        r matches HandledEvent::MouseButtonReleased(e) && e.name@ == "MouseReleasedEvent"@
            && e.button == button && e.device_id == device_id && !e.is_handled
    }
}

/// A key press when `pressed`, else a key release.
pub fn handle_keyboard_input(pressed: bool, keycode: KeyCode, repeat: bool) -> (r: HandledEvent)
    ensures
        key_input_made(r, pressed, keycode, repeat),
{
    if pressed {
        HandledEvent::KeyPressed(
            KeyPressedEvent {
                name: String::from_str("KeyPressedEvent"),
                repeat,
                is_handled: false,
                keycode,
            },
        )
    } else {
        HandledEvent::KeyReleased(
            KeyReleasedEvent {
                name: String::from_str("KeyRELEASED EVENT"),
                keycode,
                is_handled: false,
            },
        )
    }
}

pub fn handle_window_resized_event(window_id: WindowId, width: u32, height: u32) -> (r:
    WindowResizeEvent)
    ensures
        r.name@ == "WINDOW RESIZE EVENT"@,
        r.window_id == window_id,
        r.width == width,
        r.height == height,
        !r.is_handled,
{
    WindowResizeEvent {
        name: String::from_str("WINDOW RESIZE EVENT"),
        is_handled: false,
        window_id,
        width,
        height,
    }
}

/// A button press when `pressed`, else a button release.
pub fn handle_mouse_input(pressed: bool, button: MouseButton, device_id: DeviceId) -> (r:
    HandledEvent)
    ensures
        mouse_input_made(r, pressed, button, device_id),
{
    if pressed {
        HandledEvent::MouseButtonPressed(
            MouseButtonPressedEvent {
                name: String::from_str("MousePressedEvent"),
                button,
                is_handled: false,
                device_id,
            },
        )
    } else {
        HandledEvent::MouseButtonReleased(
            MouseButtonReleasedEvent {
                name: String::from_str("MouseReleasedEvent"),
                button,
                is_handled: false,
                device_id,
            },
        )
    }
}

pub fn handle_mouse_move_event(device_id: DeviceId, x_bits: u64, y_bits: u64) -> (r:
    MouseMoveEvent)
    ensures
        r.name@ == "WINDOW MOUSE MOVE EVENT"@,
        r.device_id == device_id,
        r.x_bits == x_bits,
        r.y_bits == y_bits,
        !r.is_handled,
{
    MouseMoveEvent {
        name: String::from_str("WINDOW MOUSE MOVE EVENT"),
        is_handled: false,
        device_id,
        x_bits,
        y_bits,
    }
}

/// The answer to a notification for the application's window `window_id`: closing ends the
/// loop, a redraw request asks for the next frame, and each input becomes its payload.
pub fn handle_window_event(notification: WindowNotification, window_id: WindowId) -> (r:
    WindowResponse)
    ensures
        r.exit == (notification is CloseRequested),
        r.request_redraw == (notification is RedrawRequested),
        r.event.is_none() == (notification is Other),
        notification is CloseRequested ==> (r.event matches Some(HandledEvent::WindowClose(e))
            && e.name@ == "WINDOW CLOSE EVENT"@ && e.window_id == window_id && !e.is_handled),
        notification is RedrawRequested ==> (r.event matches Some(
            HandledEvent::WindowRedrawRequested(e),
        ) && e.name@ == "WINDOW REDRAW REQUESTED EVENT"@ && e.window_id == window_id
            && !e.is_handled),
        notification matches WindowNotification::KeyboardInput { pressed, keycode, repeat }
            ==> (r.event matches Some(e) && key_input_made(e, pressed, keycode, repeat)),
        notification matches WindowNotification::Resized { width, height } ==> (r.event matches Some(
            HandledEvent::WindowResize(e),
        ) && e.name@ == "WINDOW RESIZE EVENT"@ && e.width == width && e.height == height
            && e.window_id == window_id && !e.is_handled),
        notification matches WindowNotification::MouseInput { pressed, device_id, button }
            ==> (r.event matches Some(e) && mouse_input_made(e, pressed, button, device_id)),
        notification matches WindowNotification::CursorMoved { device_id, x_bits, y_bits }
            ==> (r.event matches Some(HandledEvent::MouseMove(e)) && e.name@
            == "WINDOW MOUSE MOVE EVENT"@ && e.device_id == device_id && e.x_bits == x_bits
            && e.y_bits == y_bits && !e.is_handled),
{
    match notification {
        WindowNotification::CloseRequested => WindowResponse {
            event: Some(HandledEvent::WindowClose(handle_window_close_event(window_id))),
            exit: true,
            request_redraw: false,
        },
        WindowNotification::RedrawRequested => WindowResponse {
            event: Some(
                HandledEvent::WindowRedrawRequested(handle_redraw_requested_event(window_id)),
            ),
            exit: false,
            request_redraw: true,
        },
        WindowNotification::KeyboardInput { pressed, keycode, repeat } => WindowResponse {
            event: Some(handle_keyboard_input(pressed, keycode, repeat)),
            exit: false,
            request_redraw: false,
        },
        WindowNotification::Resized { width, height } => WindowResponse {
            event: Some(
                HandledEvent::WindowResize(handle_window_resized_event(window_id, width, height)),
            ),
            exit: false,
            request_redraw: false,
        },
        WindowNotification::MouseInput { pressed, device_id, button } => WindowResponse {
            event: Some(handle_mouse_input(pressed, button, device_id)),
            exit: false,
            request_redraw: false,
        },
        WindowNotification::CursorMoved { device_id, x_bits, y_bits } => WindowResponse {
            event: Some(HandledEvent::MouseMove(handle_mouse_move_event(device_id, x_bits, y_bits))),
            exit: false,
            request_redraw: false,
        },
        WindowNotification::Other => WindowResponse { event: None, exit: false, request_redraw: false },
    }
}

/// Whether the window loop ends on an event that the application sent it.
pub fn handle_user_event(event: WindowManagerCustomEvent) -> (exit: bool)
    ensures
        exit == (event == WindowManagerCustomEvent::TerminateWindow),
{
    match event {
        WindowManagerCustomEvent::TerminateWindow => true,
    }
}

} // verus!
