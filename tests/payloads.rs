use strife::events::{
    decimal_text, describe_key_event, mouse_button_to_string, AnyEvent, EventCategory, EventKind,
    Eventable, KeyPressedEvent, KeyReleasedEvent, MouseButton, MouseButtonPressedEvent,
    MouseButtonReleasedEvent, MouseMoveEvent, WindowCloseEvent, WindowRedrawRequestedEvent,
    WindowResizeEvent, KIND_COUNT,
};
use strife::logging::{LogColor, Logger};
use winit::event::{DeviceId, WindowEvent};
use winit::keyboard::KeyCode;
use winit::window::WindowId;

#[test]
fn resize_text_embeds_width_and_height() {
    let e = WindowResizeEvent {
        name: String::from("WINDOW RESIZE EVENT"),
        window_id: WindowId::dummy(),
        width: 800,
        height: 600,
        is_handled: false,
    };
    assert_eq!(e.to_string(), "WINDOW RESIZE EVENT: width - 800, height - 600");
    assert_eq!(e.get_width_and_height(), (800, 600));
    assert_eq!(e.get_type_id(), EventKind::WindowResize);
    assert_eq!(e.as_any().to_string(), e.to_string());
}

#[test]
fn key_text_names_the_key_code() {
    let e = KeyPressedEvent {
        name: String::from("KeyPressedEvent"),
        keycode: KeyCode::KeyA,
        repeat: true,
        is_handled: false,
    };
    assert_eq!(e.to_string(), "Event KeyPressedEvent, keycode: KeyA");
    assert_eq!(e.get_keycode(), KeyCode::KeyA);
    assert!(e.get_repeat());
    let r = KeyReleasedEvent {
        name: String::from("up"),
        keycode: KeyCode::Escape,
        is_handled: true,
    };
    assert_eq!(r.to_string(), "Event up, keycode: Escape");
    assert!(r.is_handled());
    assert_eq!(describe_key_event("n", "k"), "Event n, keycode: k");
}

#[test]
fn button_text_for_each_button() {
    assert_eq!(mouse_button_to_string(&MouseButton::Left), "left");
    assert_eq!(mouse_button_to_string(&MouseButton::Right), "right");
    assert_eq!(mouse_button_to_string(&MouseButton::Middle), "middle");
    assert_eq!(mouse_button_to_string(&MouseButton::Back), "back");
    assert_eq!(mouse_button_to_string(&MouseButton::Forward), "forward");
    assert_eq!(mouse_button_to_string(&MouseButton::Other(7)), "button 7");
    assert_eq!(mouse_button_to_string(&MouseButton::Other(65535)), "button 65535");
}

#[test]
fn button_payload_text() {
    let p = MouseButtonPressedEvent {
        name: String::from("MousePressedEvent"),
        is_handled: false,
        device_id: DeviceId::dummy(),
        button: MouseButton::Left,
    };
    assert_eq!(p.to_string(), "MousePressedEvent: button - left, ");
    assert_eq!(*p.get_button(), MouseButton::Left);
    let r = MouseButtonReleasedEvent {
        name: String::from("MouseReleasedEvent"),
        is_handled: false,
        device_id: DeviceId::dummy(),
        button: MouseButton::Other(12),
    };
    assert_eq!(r.to_string(), "MouseReleasedEvent: button - button 12, ");
    assert_eq!(r.get_type_id(), EventKind::MouseButtonReleased);
}

#[test]
fn decimal_text_edges() {
    assert_eq!(decimal_text(0), "0");
    assert_eq!(decimal_text(9), "9");
    assert_eq!(decimal_text(10), "10");
    assert_eq!(decimal_text(4294967295), "4294967295");
}

#[test]
fn plain_payloads_show_their_name() {
    let close = WindowCloseEvent {
        name: String::from("WINDOW CLOSE EVENT"),
        window_id: WindowId::dummy(),
        is_handled: false,
    };
    assert_eq!(close.to_string(), "WINDOW CLOSE EVENT");
    assert_eq!(close.get_window_id(), WindowId::dummy());
    let redraw = WindowRedrawRequestedEvent {
        name: String::from("WINDOW REDRAW REQUESTED EVENT"),
        window_id: WindowId::dummy(),
        is_handled: false,
    };
    assert_eq!(redraw.to_string(), "WINDOW REDRAW REQUESTED EVENT");
    let moved = MouseMoveEvent {
        name: String::from("WINDOW MOUSE MOVE EVENT"),
        x_bits: 1.5f64.to_bits(),
        y_bits: 2.5f64.to_bits(),
        is_handled: false,
        device_id: DeviceId::dummy(),
    };
    assert_eq!(moved.to_string(), "WINDOW MOUSE MOVE EVENT");
    assert_eq!(*moved.get_device_id(), DeviceId::dummy());
}

#[test]
fn raw_window_event_is_a_payload() {
    let raw = WindowEvent::Focused(true);
    assert_eq!(raw.get_name(), "Window Event");
    assert_eq!(raw.to_string(), "Window Event");
    assert!(!raw.is_handled());
    let any = raw.as_any();
    assert_eq!(any.get_type_id(), EventKind::WindowRaw);
    assert!(WindowEvent::downcast_ref(any).is_some());
    assert!(KeyPressedEvent::downcast_ref(any).is_none());
}

#[test]
fn downcast_recovers_the_payload() {
    let e = KeyPressedEvent {
        name: String::from("k"),
        keycode: KeyCode::KeyZ,
        repeat: false,
        is_handled: false,
    };
    let any = AnyEvent::KeyPressed(&e);
    let back = KeyPressedEvent::downcast_ref(any).unwrap();
    assert_eq!(back.name, "k");
    assert!(KeyReleasedEvent::downcast_ref(any).is_none());
    assert_eq!(any.get_name(), "k");
    assert!(!any.is_handled());
}

#[test]
fn kinds_have_distinct_indices() {
    assert_eq!(KIND_COUNT, 9);
    for i in 0..KIND_COUNT {
        assert_eq!(EventKind::from_index(i).index(), i);
    }
    assert_eq!(KeyPressedEvent::type_id_of(), EventKind::KeyPressed);
    assert_eq!(WindowCloseEvent::type_id_of(), EventKind::WindowClose);
}

#[test]
fn category_bits() {
    assert_eq!(EventCategory::NoCategory.bits(), 0);
    assert_eq!(EventCategory::ApplicationCategory.bits(), 1);
    assert_eq!(EventCategory::InputCategory.bits(), 2);
    assert_eq!(EventCategory::KeyboardCategory.bits(), 4);
    assert_eq!(EventCategory::MouseCategory.bits(), 8);
    assert_eq!(EventCategory::MouseButtonCategory.bits(), 16);
    assert_eq!(EventCategory::UserCategory.bits(), 32);
}

#[test]
fn log_colors() {
    assert_eq!(LogColor::TRACE.value(), (145, 145, 145));
    assert_eq!(LogColor::DEBUG.value(), (255, 255, 255));
    assert_eq!(LogColor::INFO.value(), (0, 255, 47));
    assert_eq!(LogColor::WARN.value(), (232, 255, 0));
    assert_eq!(LogColor::ERROR.value(), (173, 70, 61));
    let logger = Logger { is_init: true };
    assert!(logger.is_init);
}
