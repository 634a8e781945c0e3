//! The top-level pipeline: a layer stack and a dispatcher for listeners outside any layer.
use crate::dispatcher::{AnyListener, EventDispatcher};
use crate::events::{EventKind, Eventable};
use crate::layers::{Layer, LayerStack};
use vstd::prelude::*;

verus! {

/// Where every payload of the application goes.
pub struct EventSystem<Y: Layer, L: AnyListener> {
    pub layer_stack: LayerStack<Y>,
    pub non_layer_event_dispatcher: EventDispatcher<L>,
}

impl<Y: Layer, L: AnyListener> EventSystem<Y, L> {
    /// No layers and no listeners.
    pub fn new() -> (r: Self)
        ensures
            r.layer_stack.wf(),
            r.layer_stack.layers_view().len() == 0,
            r.layer_stack.boundary() == 0,
            forall|k: EventKind| (#[trigger] r.non_layer_event_dispatcher.chain(k)).len() == 0,
            r.non_layer_event_dispatcher.chains_bound(),
    {
        EventSystem { layer_stack: LayerStack::new(), non_layer_event_dispatcher: EventDispatcher::new() }
    }

    /// Routes `event`. A redraw request is the frame tick: every layer updates, top to bottom,
    /// and nothing is dispatched. Any other payload goes first to the listeners outside the
    /// layers, then to the layers, top to bottom.
    pub fn on_event<E: Eventable>(&mut self, event: E)
        ensures
            E::type_id_spec() == EventKind::WindowRedrawRequested ==> {
                &&& LayerStack::updated(old(self).layer_stack, final(self).layer_stack)
                &&& final(self).non_layer_event_dispatcher == old(self).non_layer_event_dispatcher
            },
            E::type_id_spec() != EventKind::WindowRedrawRequested ==> {
                &&& EventDispatcher::dispatched(
                    old(self).non_layer_event_dispatcher,
                    final(self).non_layer_event_dispatcher,
                    event.as_any_spec(),
                )
                &&& LayerStack::event_passed(
                    old(self).layer_stack,
                    final(self).layer_stack,
                    event.as_any_spec(),
                )
            },
    {
        if E::type_id_of() == EventKind::WindowRedrawRequested {
            self.layer_stack.on_update();
            return ;
        }
        self.non_layer_event_dispatcher.dispatch(&event);
        self.layer_stack.on_event(event.as_any());
    }
}

} // verus!
