use std::sync::Arc;

use strife::events::{Eventable, MouseButton};
use strife::window::{
    handle_keyboard_input, handle_mouse_input, handle_user_event, handle_window_event,
    HandledEvent, WindowManagerCustomEvent, WindowNotification, WindowWrapper,
};
use winit::event::DeviceId;
use winit::keyboard::KeyCode;
use winit::window::WindowId;

#[test]
fn close_request_ends_the_loop() {
    let r = handle_window_event(WindowNotification::CloseRequested, WindowId::dummy());
    assert!(r.exit);
    assert!(!r.request_redraw);
    match r.event {
        Some(HandledEvent::WindowClose(e)) => {
            assert_eq!(e.name, "WINDOW CLOSE EVENT");
            assert_eq!(e.window_id, WindowId::dummy());
            assert!(!e.is_handled);
        }
        _ => panic!("expected a close payload"),
    }
}

#[test]
fn redraw_request_asks_for_next_frame() {
    let r = handle_window_event(WindowNotification::RedrawRequested, WindowId::dummy());
    assert!(!r.exit);
    assert!(r.request_redraw);
    match r.event {
        Some(HandledEvent::WindowRedrawRequested(e)) => {
            assert_eq!(e.name, "WINDOW REDRAW REQUESTED EVENT")
        }
        _ => panic!("expected a redraw payload"),
    }
}

#[test]
fn key_down_and_up() {
    let down = handle_window_event(
        WindowNotification::KeyboardInput { pressed: true, keycode: KeyCode::KeyW, repeat: true },
        WindowId::dummy(),
    );
    match down.event {
        Some(HandledEvent::KeyPressed(e)) => {
            assert_eq!(e.name, "KeyPressedEvent");
            assert_eq!(e.keycode, KeyCode::KeyW);
            assert!(e.repeat);
        }
        _ => panic!("expected a key press"),
    }
    match handle_keyboard_input(false, KeyCode::KeyW, true) {
        HandledEvent::KeyReleased(e) => {
            assert_eq!(e.name, "KeyRELEASED EVENT");
            assert_eq!(e.keycode, KeyCode::KeyW);
        }
        _ => panic!("expected a key release"),
    }
}

#[test]
fn resize_carries_size() {
    let r = handle_window_event(
        WindowNotification::Resized { width: 1024, height: 768 },
        WindowId::dummy(),
    );
    match r.event {
        Some(HandledEvent::WindowResize(e)) => {
            assert_eq!(e.name, "WINDOW RESIZE EVENT");
            assert_eq!(e.get_width_and_height(), (1024, 768));
        }
        _ => panic!("expected a resize payload"),
    }
}

#[test]
fn pointer_buttons_and_moves() {
    match handle_mouse_input(true, MouseButton::Right, DeviceId::dummy()) {
        HandledEvent::MouseButtonPressed(e) => {
            assert_eq!(e.name, "MousePressedEvent");
            assert_eq!(e.button, MouseButton::Right);
        }
        _ => panic!("expected a button press"),
    }
    let up = handle_window_event(
        WindowNotification::MouseInput {
            pressed: false,
            device_id: DeviceId::dummy(),
            button: MouseButton::Other(4),
        },
        WindowId::dummy(),
    );
    match up.event {
        Some(HandledEvent::MouseButtonReleased(e)) => {
            assert_eq!(e.name, "MouseReleasedEvent");
            assert_eq!(e.to_string(), "MouseReleasedEvent: button - button 4, ");
        }
        _ => panic!("expected a button release"),
    }
    let moved = handle_window_event(
        WindowNotification::CursorMoved {
            device_id: DeviceId::dummy(),
            x_bits: 10.0f64.to_bits(),
            y_bits: 20.0f64.to_bits(),
        },
        WindowId::dummy(),
    );
    match moved.event {
        Some(HandledEvent::MouseMove(e)) => {
            assert_eq!(e.name, "WINDOW MOUSE MOVE EVENT");
            assert_eq!(f64::from_bits(e.x_bits), 10.0);
            assert_eq!(f64::from_bits(e.y_bits), 20.0);
        }
        _ => panic!("expected a pointer move"),
    }
}

#[test]
fn other_notifications_give_nothing() {
    let r = handle_window_event(WindowNotification::Other, WindowId::dummy());
    assert!(r.event.is_none());
    assert!(!r.exit);
    assert!(!r.request_redraw);
}

#[test]
fn terminate_ends_the_loop() {
    assert!(handle_user_event(WindowManagerCustomEvent::TerminateWindow));
}

#[test]
fn erased_handled_event_keeps_kind() {
    let e = handle_keyboard_input(true, KeyCode::Space, false);
    assert_eq!(e.as_any().get_name(), "KeyPressedEvent");
}

#[test]
fn window_wrapper_holds_the_window() {
    let w = Arc::new(42u32);
    let wrapper = WindowWrapper::new(w.clone());
    assert_eq!(**wrapper.window(), 42);
}
