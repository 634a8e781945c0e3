//! Layers and listeners that the application ships with.
use crate::dispatcher::{AnyListener, EventDispatcher, EventListener};
use crate::events::{AnyEvent, EventKind, MouseMoveEvent};
use crate::layers::Layer;
use vstd::prelude::*;

verus! {

/// Takes every pointer move offered to it, on behalf of the layer it is named after.
pub struct TestMouseMoveListenerWithLayerName {
    pub layer_name: String,
}

impl EventListener for TestMouseMoveListenerWithLayerName {
    type EventableConcreteType = MouseMoveEvent;

    open spec fn responds(&self, event: &MouseMoveEvent, consumed: bool, after: &Self) -> bool {
        consumed && *after == *self
    }

    fn handle(&mut self, event: &MouseMoveEvent) -> (consumed: bool) {
        true
    }
}

/// A layer that hands every event to its own dispatcher and never stops an event.
pub struct TestLayer {
    pub name: String,
    pub event_dispatcher: EventDispatcher<TestMouseMoveListenerWithLayerName>,
}

impl TestLayer {
    /// A layer called `name` whose dispatcher holds one pointer-move listener named after it.
    pub fn new(name: &String) -> (r: TestLayer)
        ensures
            r.name@ == name@,
            r.event_dispatcher.chains_bound(),
            r.event_dispatcher.chain(EventKind::MouseMove).len() == 1,
            r.event_dispatcher.chain(EventKind::MouseMove)[0].layer_name@ == name@,
            forall|k: EventKind|
                k != EventKind::MouseMove ==> (#[trigger] r.event_dispatcher.chain(k)).len() == 0,
    {
        let mut event_dispatcher = EventDispatcher::new();
        event_dispatcher.add_listener(TestMouseMoveListenerWithLayerName { layer_name: name.clone() });
        TestLayer { name: name.clone(), event_dispatcher }
    }
}

impl Layer for TestLayer {
    open spec fn attaches(&self, after: &Self) -> bool {
        *after == *self
    }

    open spec fn detaches(&self, after: &Self) -> bool {
        *after == *self
    }

    open spec fn updates(&self, after: &Self) -> bool {
        *after == *self
    }

    open spec fn observes(&self, event: AnyEvent<'_>, consumed: bool, after: &Self) -> bool {
        &&& !consumed
        &&& after.name == self.name
        &&& EventDispatcher::dispatched(self.event_dispatcher, after.event_dispatcher, event)
    }

    fn get_name(&self) -> &String {
        &self.name
    }

    fn on_attach(&mut self) {
    }

    fn on_detach(&mut self) {
    }

    fn on_update(&mut self) {
    }

    fn on_event(&mut self, event: AnyEvent<'_>) -> (consumed: bool) {
        self.event_dispatcher.dispatch_dynamic(event);
        false
    }
}

/// A layer for the rendered world: it owns a dispatcher, and does nothing yet with the
/// events offered to it.
pub struct WorldLayerWrapper<L: AnyListener> {
    name: String,
    event_dispatcher: EventDispatcher<L>,
}

impl<L: AnyListener> Layer for WorldLayerWrapper<L> {
    open spec fn attaches(&self, after: &Self) -> bool {
        *after == *self
    }

    open spec fn detaches(&self, after: &Self) -> bool {
        *after == *self
    }

    open spec fn updates(&self, after: &Self) -> bool {
        *after == *self
    }

    open spec fn observes(&self, event: AnyEvent<'_>, consumed: bool, after: &Self) -> bool {
        !consumed && *after == *self
    }

    fn get_name(&self) -> &String {
        &self.name
    }

    fn on_attach(&mut self) {
    }

    fn on_detach(&mut self) {
    }

    fn on_update(&mut self) {
    }

    fn on_event(&mut self, event: AnyEvent<'_>) -> (consumed: bool) {
        false
    }
}

/// The world layer's own state: none yet.
pub struct WorldLayer {}

} // verus!
