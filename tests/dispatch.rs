use std::cell::RefCell;
use std::rc::Rc;

use strife::dispatcher::{AnyListener, EitherListener, EventDispatcher, EventListener, EventListenerStruct};
use strife::events::{
    AnyEvent, EventKind, Eventable, KeyPressedEvent, KeyReleasedEvent, MouseMoveEvent,
};
use winit::event::DeviceId;
use winit::keyboard::KeyCode;

type Log = Rc<RefCell<Vec<String>>>;
type KeyCallback = Box<dyn Fn(&KeyPressedEvent) -> bool>;
type MoveCallback = Box<dyn Fn(&MouseMoveEvent) -> bool>;

fn key_pressed() -> KeyPressedEvent {
    KeyPressedEvent {
        name: String::from("KeyPressedEvent"),
        keycode: KeyCode::KeyA,
        repeat: false,
        is_handled: false,
    }
}

fn mouse_move(x: f64, y: f64) -> MouseMoveEvent {
    MouseMoveEvent {
        name: String::from("WINDOW MOUSE MOVE EVENT"),
        x_bits: x.to_bits(),
        y_bits: y.to_bits(),
        is_handled: false,
        device_id: DeviceId::dummy(),
    }
}

fn key_recorder(log: &Log, tag: &str, result: bool) -> EventListenerStruct<KeyPressedEvent, KeyCallback> {
    let log = log.clone();
    let tag = tag.to_string();
    let callback: KeyCallback = Box::new(move |_e: &KeyPressedEvent| {
        log.borrow_mut().push(tag.clone());
        result
    });
    EventListenerStruct::new(callback)
}

fn move_recorder(log: &Log, tag: &str, result: bool) -> EventListenerStruct<MouseMoveEvent, MoveCallback> {
    let log = log.clone();
    let tag = tag.to_string();
    let callback: MoveCallback = Box::new(move |_e: &MouseMoveEvent| {
        log.borrow_mut().push(tag.clone());
        result
    });
    EventListenerStruct::new(callback)
}

#[test]
fn consuming_listener_stops_the_chain() {
    let log: Log = Rc::new(RefCell::new(Vec::new()));
    let mut dispatcher = EventDispatcher::new();
    dispatcher.add_listener(key_recorder(&log, "X", true));
    dispatcher.add_listener(key_recorder(&log, "Y", false));
    dispatcher.dispatch(&key_pressed());
    assert_eq!(*log.borrow(), vec!["X".to_string()]);
}

#[test]
fn chain_runs_in_registration_order_until_consumed() {
    let log: Log = Rc::new(RefCell::new(Vec::new()));
    let mut dispatcher = EventDispatcher::new();
    dispatcher.add_listener(key_recorder(&log, "first", false));
    dispatcher.add_listener(key_recorder(&log, "second", false));
    dispatcher.add_listener(key_recorder(&log, "third", true));
    dispatcher.add_listener(key_recorder(&log, "fourth", false));
    dispatcher.dispatch(&key_pressed());
    assert_eq!(
        *log.borrow(),
        vec!["first".to_string(), "second".to_string(), "third".to_string()]
    );
}

#[test]
fn chain_without_consumer_runs_whole() {
    let log: Log = Rc::new(RefCell::new(Vec::new()));
    let mut dispatcher = EventDispatcher::new();
    dispatcher.add_listener(key_recorder(&log, "a", false));
    dispatcher.add_listener(key_recorder(&log, "b", false));
    let event = key_pressed();
    dispatcher.dispatch_dynamic(event.as_any());
    dispatcher.dispatch_dynamic(event.as_any());
    assert_eq!(
        *log.borrow(),
        vec!["a".to_string(), "b".to_string(), "a".to_string(), "b".to_string()]
    );
}

#[test]
fn re_registration_gives_separate_slots() {
    let log: Log = Rc::new(RefCell::new(Vec::new()));
    let mut dispatcher = EventDispatcher::new();
    dispatcher.add_listener(key_recorder(&log, "same", false));
    dispatcher.add_listener(key_recorder(&log, "same", false));
    dispatcher.dispatch(&key_pressed());
    assert_eq!(log.borrow().len(), 2);
    assert_eq!(dispatcher.log_listeners(), vec![(EventKind::KeyPressed, 2)]);
}

#[test]
fn two_payload_types_do_not_cross() {
    let log: Log = Rc::new(RefCell::new(Vec::new()));
    let mut dispatcher = EventDispatcher::new();
    dispatcher.add_listener(EitherListener::Left(key_recorder(&log, "key", false)));
    dispatcher.add_listener(EitherListener::Right(move_recorder(&log, "move", false)));

    let key = key_pressed();
    dispatcher.dispatch(&key);
    assert_eq!(*log.borrow(), vec!["key".to_string()]);

    dispatcher.dispatch_dynamic(key.as_any());
    assert_eq!(*log.borrow(), vec!["key".to_string(), "key".to_string()]);

    let moved = mouse_move(1.0, 2.0);
    dispatcher.dispatch_dynamic(moved.as_any());
    assert_eq!(
        *log.borrow(),
        vec!["key".to_string(), "key".to_string(), "move".to_string()]
    );
}

#[test]
fn dispatch_without_chain_changes_nothing() {
    let log: Log = Rc::new(RefCell::new(Vec::new()));
    let mut dispatcher = EventDispatcher::new();
    dispatcher.add_listener(key_recorder(&log, "key", true));
    let before = dispatcher.log_listeners();
    let released = KeyReleasedEvent {
        name: String::from("KeyRELEASED EVENT"),
        keycode: KeyCode::KeyA,
        is_handled: false,
    };
    dispatcher.dispatch(&released);
    dispatcher.dispatch_dynamic(released.as_any());
    assert!(log.borrow().is_empty());
    assert_eq!(dispatcher.log_listeners(), before);
}

#[test]
fn empty_dispatcher_accepts_any_payload() {
    let mut dispatcher: EventDispatcher<EventListenerStruct<KeyPressedEvent, KeyCallback>> =
        EventDispatcher::new();
    dispatcher.dispatch(&mouse_move(3.0, 4.0));
    dispatcher.dispatch(&key_pressed());
    assert!(dispatcher.log_listeners().is_empty());
}

#[test]
fn log_listeners_lists_kinds_in_order() {
    let log: Log = Rc::new(RefCell::new(Vec::new()));
    let mut dispatcher = EventDispatcher::new();
    dispatcher.add_listener(EitherListener::Right(move_recorder(&log, "m1", false)));
    dispatcher.add_listener(EitherListener::Left(key_recorder(&log, "k1", false)));
    dispatcher.add_listener(EitherListener::Right(move_recorder(&log, "m2", false)));
    assert_eq!(
        dispatcher.log_listeners(),
        vec![(EventKind::KeyPressed, 1), (EventKind::MouseMove, 2)]
    );
}

struct Counter {
    seen: u32,
    consume_after: u32,
}

impl EventListener for Counter {
    type EventableConcreteType = KeyPressedEvent;

    fn handle(&mut self, _event: &KeyPressedEvent) -> bool {
        self.seen += 1;
        self.seen >= self.consume_after
    }
}

#[test]
fn typed_listener_keeps_its_state() {
    let mut dispatcher = EventDispatcher::new();
    dispatcher.add_listener(Counter { seen: 0, consume_after: 2 });
    let event = key_pressed();
    dispatcher.dispatch(&event);
    dispatcher.dispatch(&event);
    dispatcher.dispatch(&mouse_move(0.0, 0.0));
    assert_eq!(dispatcher.log_listeners(), vec![(EventKind::KeyPressed, 1)]);
}

#[test]
fn erased_adapter_ignores_other_payload_types() {
    let mut counter = Counter { seen: 0, consume_after: 1 };
    let moved = mouse_move(5.0, 6.0);
    assert!(!counter.handle_erased(moved.as_any()));
    assert_eq!(counter.seen, 0);
    assert_eq!(counter.event_type_id(), EventKind::KeyPressed);
    let key = key_pressed();
    assert!(counter.handle_erased(AnyEvent::KeyPressed(&key)));
    assert_eq!(counter.seen, 1);
}
