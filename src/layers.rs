//! Layers and the ordered stack that drives them.
use crate::events::AnyEvent;
use vstd::prelude::*;

verus! {

/// An application module that the stack attaches, updates, offers events to and detaches.
pub trait Layer: Sized {
    /// What `on_attach` may do to the layer.
    open spec fn attaches(&self, after: &Self) -> bool {
        true
    }

    /// What `on_detach` may do to the layer.
    open spec fn detaches(&self, after: &Self) -> bool {
        true
    }

    /// What `on_update` may do to the layer.
    open spec fn updates(&self, after: &Self) -> bool {
        true
    }

    /// What `on_event` may do: `consumed` is its result, `after` the layer afterwards.
    open spec fn observes(&self, event: AnyEvent<'_>, consumed: bool, after: &Self) -> bool {
        true
    }

    fn get_name(&self) -> &String;

    fn on_attach(&mut self)
        ensures
            old(self).attaches(final(self)),
    ;

    fn on_detach(&mut self)
        ensures
            old(self).detaches(final(self)),
    ;

    fn on_update(&mut self)
        ensures
            old(self).updates(final(self)),
    ;

    /// Offers `event` to the layer; `true` when the layer consumed it.
    fn on_event(&mut self, event: AnyEvent<'_>) -> (consumed: bool)
        ensures
            old(self).observes(event, consumed, final(self)),
    ;
}

/// Whether an event offered to the stack goes on below a layer that consumed it.
#[derive(Debug, Clone, Copy, PartialEq, Eq, Structural)]
pub enum Propagation {
    /// Every layer observes every event.
    ToAll,
    /// The first layer, in traversal order, that consumes an event is the last to see it.
    UntilConsumed,
}

/// The order in which the stack offers events and updates: top to bottom, that is the layers
/// in reverse.
pub open spec fn traversal<Y>(layers: Seq<Y>) -> Seq<Y> {
    layers.reverse()
}

/// An event pass over layers, in traversal order: `before` and `after` are the layers in that
/// order; `consumer` is the position of the one that stopped the event, if any.
pub open spec fn event_pass<Y: Layer>(
    before: Seq<Y>,
    after: Seq<Y>,
    e: AnyEvent<'_>,
    propagation: Propagation,
    consumer: Option<int>,
) -> bool {
    let stop = match consumer {
        Some(k) => k,
        None => before.len() as int,
    };
    &&& after.len() == before.len()
    &&& 0 <= stop <= before.len()
    &&& propagation == Propagation::ToAll ==> consumer.is_none()
    &&& forall|j: int|
        0 <= j < stop ==> #[trigger] before[j].observes(e, false, &after[j]) || (propagation
            == Propagation::ToAll && before[j].observes(e, true, &after[j]))
    &&& consumer matches Some(k) ==> k < before.len() && before[k].observes(e, true, &after[k])
    &&& forall|j: int| stop < j < before.len() ==> #[trigger] after[j] == before[j]
}

/// Layers in two bands: normal layers at the front, overlays after them.
pub struct LayerStack<Y: Layer> {
    layers: Vec<Y>,
    layer_insert_index: usize,
    propagation: Propagation,
}

impl<Y: Layer> LayerStack<Y> {
    /// All layers, normal ones first, from bottom to top.
    pub closed spec fn layers_view(self) -> Seq<Y> {
        self.layers@
    }

    /// How many of the layers are normal ones; the rest are overlays.
    pub closed spec fn boundary(self) -> int {
        self.layer_insert_index as int
    }

    pub closed spec fn propagation_view(self) -> Propagation {
        self.propagation
    }

    /// What `push_layer` does: `layer`, attached, becomes the topmost normal layer.
    pub open spec fn layer_pushed(before: Self, layer: Y, after: Self) -> bool {
        &&& after.wf()
        &&& after.boundary() == before.boundary() + 1
        &&& after.layers_view().len() == before.layers_view().len() + 1
        &&& layer.attaches(&after.layers_view()[before.boundary()])
        &&& forall|j: int|
            0 <= j < before.boundary() ==> #[trigger] after.layers_view()[j]
                == before.layers_view()[j]
        &&& forall|j: int|
            before.boundary() < j < after.layers_view().len() ==> #[trigger] after.layers_view()[j]
                == before.layers_view()[j - 1]
        &&& after.propagation_view() == before.propagation_view()
    }

    /// What `push_overlay` does: `overlay`, attached, goes on top of every layer.
    pub open spec fn overlay_pushed(before: Self, overlay: Y, after: Self) -> bool {
        &&& before.wf() ==> after.wf()
        &&& after.boundary() == before.boundary()
        &&& after.layers_view().len() == before.layers_view().len() + 1
        &&& overlay.attaches(&after.layers_view().last())
        &&& after.layers_view().drop_last() == before.layers_view()
        &&& after.propagation_view() == before.propagation_view()
    }

    /// What `pop_layer` does: the topmost normal layer leaves; without normal layers, nothing
    /// changes.
    pub open spec fn layer_popped(before: Self, after: Self) -> bool {
        &&& after.wf()
        &&& before.boundary() == 0 ==> after == before
        &&& before.boundary() > 0 ==> {
            &&& after.boundary() == before.boundary() - 1
            &&& after.layers_view() == before.layers_view().remove(before.boundary() - 1)
        }
        &&& after.propagation_view() == before.propagation_view()
    }

    /// What `on_update` does: every layer updates once; the bands stay as they were.
    pub open spec fn updated(before: Self, after: Self) -> bool {
        &&& after.layers_view().len() == before.layers_view().len()
        &&& forall|j: int|
            0 <= j < before.layers_view().len() ==> #[trigger] before.layers_view()[j].updates(
                &after.layers_view()[j],
            )
        &&& after.boundary() == before.boundary()
        &&& after.propagation_view() == before.propagation_view()
    }

    /// What `on_event` does: one event pass in traversal order, under the stack's propagation;
    /// the bands stay as they were.
    pub open spec fn event_passed(before: Self, after: Self, event: AnyEvent<'_>) -> bool {
        &&& exists|consumer: Option<int>|
            event_pass(
                traversal(before.layers_view()),
                traversal(after.layers_view()),
                event,
                before.propagation_view(),
                consumer,
            )
        &&& after.boundary() == before.boundary()
        &&& after.propagation_view() == before.propagation_view()
    }

    /// The boundary lies within the layers: what every operation keeps.
    pub open spec fn wf(self) -> bool {
        0 <= self.boundary() <= self.layers_view().len()
    }

    /// An empty stack, in which every layer observes every event.
    pub fn new() -> (r: Self)
        ensures
            r.wf(),
            r.layers_view().len() == 0,
            r.boundary() == 0,
            r.propagation_view() == Propagation::ToAll,
    {
        LayerStack { layers: Vec::new(), layer_insert_index: 0, propagation: Propagation::ToAll }
    }

    /// All layers, normal ones first, from bottom to top.
    pub fn layers(&self) -> (r: &Vec<Y>)
        ensures
            r@ == self.layers_view(),
    {
        &self.layers
    }

    pub fn len(&self) -> (r: usize)
        ensures
            r == self.layers_view().len(),
    {
        self.layers.len()
    }

    /// How many normal layers there are.
    pub fn normal_count(&self) -> (r: usize)
        ensures
            r == self.boundary(),
    {
        self.layer_insert_index
    }

    pub fn get_propagation(&self) -> (r: Propagation)
        ensures
            r == self.propagation_view(),
    {
        self.propagation
    }

    pub fn set_propagation(&mut self, propagation: Propagation)
        ensures
            final(self).propagation_view() == propagation,
            final(self).layers_view() == old(self).layers_view(),
            final(self).boundary() == old(self).boundary(),
    {
        self.propagation = propagation;
    }

    /// Attaches `layer` and puts it on top of the normal layers, below every overlay.
    pub fn push_layer(&mut self, layer: Y)
        requires
            old(self).wf(),
        ensures
            Self::layer_pushed(*old(self), layer, *final(self)),
    {
        let mut layer = layer;
        layer.on_attach();
        self.layers.insert(self.layer_insert_index, layer);
        let len = self.layers.len();
        assert(self.layer_insert_index < len);
        self.layer_insert_index = self.layer_insert_index + 1;
    }

    /// Attaches `overlay` and puts it on top of every layer.
    pub fn push_overlay(&mut self, overlay: Y)
        ensures
            Self::overlay_pushed(*old(self), overlay, *final(self)),
    {
        let mut overlay = overlay;
        overlay.on_attach();
        self.layers.push(overlay);
        assert(self.layers@.drop_last() =~= old(self).layers@);
    }

    /// Detaches and drops the topmost normal layer. Without normal layers, nothing changes.
    pub fn pop_layer(&mut self)
        requires
            old(self).wf(),
        ensures
            Self::layer_popped(*old(self), *final(self)),
    {
        if self.layer_insert_index > 0 {
            self.layer_insert_index = self.layer_insert_index - 1;
            let mut layer = self.layers.remove(self.layer_insert_index);
            layer.on_detach();
        }
    }

    /// Updates every layer once, top to bottom.
    pub fn on_update(&mut self)
        ensures
            Self::updated(*old(self), *final(self)),
    {
        let n = self.layers.len();
        let mut i: usize = n;
        while i > 0
            invariant
                i <= n,
                self.layers@.len() == n,
                n == old(self).layers@.len(),
                self.layer_insert_index == old(self).layer_insert_index,
                self.propagation == old(self).propagation,
                forall|j: int|
                    i <= j < n ==> #[trigger] old(self).layers@[j].updates(&self.layers@[j]),
                forall|j: int| 0 <= j < i ==> #[trigger] self.layers@[j] == old(self).layers@[j],
            decreases i,
        {
            i = i - 1;
            self.layers[i].on_update();
        }
    }

    /// Offers `event` to the layers top to bottom: to all of them, or, when the stack stops at
    /// the first consumer, until one consumes it.
    pub fn on_event(&mut self, event: AnyEvent<'_>)
        ensures
            Self::event_passed(*old(self), *final(self), event),
    {
        let n = self.layers.len();
        let ghost before = old(self).layers@;
        let ghost mut consumer: Option<int> = None;
        let mut i: usize = n;
        while i > 0
            invariant_except_break
                consumer.is_none(),
                forall|j: int|
                    i <= j < n ==> #[trigger] visited(before[j], event, self.propagation, self.layers@[j]),
                forall|j: int| 0 <= j < i ==> #[trigger] self.layers@[j] == before[j],
            invariant
                i <= n,
                self.layers@.len() == n,
                before.len() == n,
                self.layer_insert_index == old(self).layer_insert_index,
                self.propagation == old(self).propagation,
            ensures
                top_down_pass(before, self.layers@, event, self.propagation, consumer),
            decreases i,
        {
            i = i - 1;
            let consumed = self.layers[i].on_event(event);
            if consumed && self.propagation == Propagation::UntilConsumed {
                proof {
                    consumer = Some(i as int);
                }
                break;
            }
        }
        proof {
            let c = lemma_top_down_is_traversal(
                before,
                self.layers@,
                event,
                self.propagation,
                consumer,
            );
            assert(event_pass(
                traversal(old(self).layers_view()),
                traversal(self.layers_view()),
                event,
                old(self).propagation_view(),
                c,
            ));
        }
    }
}

/// Pushing `l1` and then `l2` as normal layers and then `o1` as an overlay onto an empty stack
/// gives the traversal order `o1`, `l2`, `l1`: the top of the stack first, each layer as its
/// `on_attach` left it.
pub proof fn lemma_traversal_order<Y: Layer>(
    s0: LayerStack<Y>,
    l1: Y,
    s1: LayerStack<Y>,
    l2: Y,
    s2: LayerStack<Y>,
    o1: Y,
    s3: LayerStack<Y>,
)
    requires
        s0.layers_view().len() == 0,
        s0.boundary() == 0,
        LayerStack::layer_pushed(s0, l1, s1),
        LayerStack::layer_pushed(s1, l2, s2),
        LayerStack::overlay_pushed(s2, o1, s3),
    ensures
        traversal(s3.layers_view()).len() == 3,
        o1.attaches(&traversal(s3.layers_view())[0]),
        l2.attaches(&traversal(s3.layers_view())[1]),
        l1.attaches(&traversal(s3.layers_view())[2]),
        s3.boundary() == 2,
{
    assert(s3.layers_view().drop_last()[0] == s3.layers_view()[0]);
    assert(s3.layers_view().drop_last()[1] == s3.layers_view()[1]);
}

/// Pushing two normal layers onto an empty stack and popping once leaves exactly one layer:
/// the first one pushed, as its `on_attach` left it.
pub proof fn lemma_pop_after_two_pushes<Y: Layer>(
    s0: LayerStack<Y>,
    l1: Y,
    s1: LayerStack<Y>,
    l2: Y,
    s2: LayerStack<Y>,
    s3: LayerStack<Y>,
)
    requires
        s0.layers_view().len() == 0,
        s0.boundary() == 0,
        LayerStack::layer_pushed(s0, l1, s1),
        LayerStack::layer_pushed(s1, l2, s2),
        LayerStack::layer_popped(s2, s3),
    ensures
        s3.layers_view().len() == 1,
        s3.boundary() == 1,
        s3.layers_view()[0] == s1.layers_view()[0],
        l1.attaches(&s3.layers_view()[0]),
{
    assert(s3.layers_view()[0] == s2.layers_view()[0]);
}

/// One layer's share of an event pass that went on below it.
pub open spec fn visited<Y: Layer>(
    before: Y,
    e: AnyEvent<'_>,
    propagation: Propagation,
    after: Y,
) -> bool {
    before.observes(e, false, &after) || (propagation == Propagation::ToAll && before.observes(
        e,
        true,
        &after,
    ))
}

/// An event pass in stack positions, from the top down; `consumer` is the stack position of
/// the layer that stopped the event, if any.
pub open spec fn top_down_pass<Y: Layer>(
    before: Seq<Y>,
    after: Seq<Y>,
    e: AnyEvent<'_>,
    propagation: Propagation,
    consumer: Option<int>,
) -> bool {
    let stop = match consumer {
        Some(k) => k,
        None => -1,
    };
    &&& after.len() == before.len()
    &&& -1 <= stop < before.len()
    &&& propagation == Propagation::ToAll ==> consumer.is_none()
    &&& forall|j: int| stop < j < before.len() ==> #[trigger] visited(before[j], e, propagation, after[j])
    &&& consumer matches Some(k) ==> 0 <= k && before[k].observes(e, true, &after[k])
    &&& forall|j: int| 0 <= j < stop ==> #[trigger] after[j] == before[j]
}

proof fn lemma_top_down_is_traversal<Y: Layer>(
    before: Seq<Y>,
    after: Seq<Y>,
    e: AnyEvent<'_>,
    propagation: Propagation,
    consumer: Option<int>,
) -> (c: Option<int>)
    requires
        top_down_pass(before, after, e, propagation, consumer),
    ensures
        event_pass(traversal(before), traversal(after), e, propagation, c),
{
    let n = before.len() as int;
    let c = match consumer {
        Some(k) => Some(n - 1 - k),
        None => None,
    };
    let tb = traversal(before);
    let ta = traversal(after);
    let stop = match c {
        Some(k) => k,
        None => n,
    };
    assert forall|j: int| 0 <= j < stop implies #[trigger] tb[j].observes(e, false, &ta[j]) || (
    propagation == Propagation::ToAll && tb[j].observes(e, true, &ta[j])) by {
        assert(tb[j] == before[n - 1 - j]);
        assert(ta[j] == after[n - 1 - j]);
        assert(visited(before[n - 1 - j], e, propagation, after[n - 1 - j]));
    }
    assert forall|j: int| stop < j < n implies #[trigger] ta[j] == tb[j] by {
        assert(tb[j] == before[n - 1 - j]);
        assert(ta[j] == after[n - 1 - j]);
    }
    if let Some(k) = consumer {
        assert(tb[n - 1 - k] == before[k]);
        assert(ta[n - 1 - k] == after[k]);
    }
    assert(event_pass(tb, ta, e, propagation, c));
    c
}

} // verus!
