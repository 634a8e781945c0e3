//! Listeners, the adapter that erases their payload type, and the dispatcher that routes
//! payloads to them.
use crate::events::{AnyEvent, EventKind, Eventable, KIND_COUNT, all_kinds};
use vstd::prelude::*;

verus! {

/// A listener bound to one concrete payload type.
pub trait EventListener: Sized {
    type EventableConcreteType: Eventable;

    /// What one call of `handle` may do: `consumed` is its result, `after` the listener
    /// afterwards. Implementations narrow it to what they do.
    open spec fn responds(
        &self,
        event: &Self::EventableConcreteType,
        consumed: bool,
        after: &Self,
    ) -> bool {
        true
    }

    /// Handles `event`; `true` stops it from reaching the listeners after this one.
    fn handle(&mut self, event: &Self::EventableConcreteType) -> (consumed: bool)
        ensures
            old(self).responds(event, consumed, final(self)),
    ;
}

/// A listener that takes payloads of any type: what a dispatcher holds.
pub trait AnyListener: Sized {
    /// The payload kind this listener is bound to.
    spec fn listens_to(&self) -> EventKind;

    /// What one call of `handle_erased` may do.
    open spec fn responds_erased(&self, payload: AnyEvent<'_>, consumed: bool, after: &Self) -> bool {
        true
    }

    fn event_type_id(&self) -> (k: EventKind)
        ensures
            k == self.listens_to(),
    ;

    /// Offers `payload` to the listener. A payload of another kind than the bound one is not
    /// consumed and leaves the listener as it was.
    fn handle_erased(&mut self, payload: AnyEvent<'_>) -> (consumed: bool)
        ensures
            old(self).responds_erased(payload, consumed, final(self)),
            final(self).listens_to() == old(self).listens_to(),
            payload.kind() != old(self).listens_to() ==> !consumed && *final(self) == *old(self),
    ;
}

/// The erasure adapter: every typed listener is an erased one, which checks the payload's
/// type before it forwards the payload.
impl<L: EventListener> AnyListener for L {
    open spec fn listens_to(&self) -> EventKind {
        L::EventableConcreteType::type_id_spec()
    }

    open spec fn responds_erased(&self, payload: AnyEvent<'_>, consumed: bool, after: &Self) -> bool {
        match L::EventableConcreteType::downcast_spec(payload) {
            Some(p) => self.responds(&p, consumed, after),
            None => !consumed && *after == *self,
        }
    }

    fn event_type_id(&self) -> (k: EventKind) {
        L::EventableConcreteType::type_id_of()
    }

    fn handle_erased(&mut self, payload: AnyEvent<'_>) -> (consumed: bool) {
        match L::EventableConcreteType::downcast_ref(payload) {
            Some(concrete_payload) => self.handle(concrete_payload),
            None => false,
        }
    }
}

/// A listener made of a callback on payloads of type `E`.
pub struct EventListenerStruct<E, F: Fn(&E) -> bool> {
    callback: F,
    payload: std::marker::PhantomData<E>,
}

impl<E, F: Fn(&E) -> bool> EventListenerStruct<E, F> {
    #[verifier::type_invariant]
    spec fn callable(self) -> bool {
        forall|e: &E| #[trigger] self.callback.requires((e,))
    }

    pub closed spec fn callback(self) -> F {
        self.callback
    }

    /// A listener that calls `callback` on each payload offered to it.
    pub fn new(callback: F) -> (r: Self)
        requires
            forall|e: &E| #[trigger] callback.requires((e,)),
        ensures
            r.callback() == callback,
    {
        EventListenerStruct { callback, payload: std::marker::PhantomData }
    }
}

impl<E: Eventable, F: Fn(&E) -> bool> EventListener for EventListenerStruct<E, F> {
    type EventableConcreteType = E;

    /// The callback's result is the listener's; the listener itself does not change.
    open spec fn responds(&self, event: &E, consumed: bool, after: &Self) -> bool {
        self.callback().ensures((event,), consumed) && *after == *self
    }

    fn handle(&mut self, event: &E) -> (consumed: bool) {
        proof {
            use_type_invariant(&*self);
        }
        (self.callback)(event)
    }
}

/// A chain run: offering `e` to the listeners `before` in order, stopping at the first that
/// consumed it, left them as `after`. `consumer` is the position of the one that consumed it,
/// if any.
pub open spec fn chain_ran<L: AnyListener>(
    before: Seq<L>,
    after: Seq<L>,
    e: AnyEvent<'_>,
    consumer: Option<int>,
) -> bool {
    let stop = match consumer {
        Some(k) => k,
        None => before.len() as int,
    };
    &&& after.len() == before.len()
    &&& 0 <= stop <= before.len()
    &&& forall|j: int| 0 <= j < stop ==> #[trigger] before[j].responds_erased(e, false, &after[j])
    &&& consumer matches Some(k) ==> k < before.len() && before[k].responds_erased(
        e,
        true,
        &after[k],
    )
    &&& forall|j: int| stop < j < before.len() ==> #[trigger] after[j] == before[j]
}

/// A listener that is one of two listener types: how listeners of several payload types share
/// one dispatcher.
pub enum EitherListener<A, B> {
    Left(A),
    Right(B),
}

impl<A: AnyListener, B: AnyListener> AnyListener for EitherListener<A, B> {
    open spec fn listens_to(&self) -> EventKind {
        match self {
            EitherListener::Left(a) => a.listens_to(),
            EitherListener::Right(b) => b.listens_to(),
        }
    }

    open spec fn responds_erased(&self, payload: AnyEvent<'_>, consumed: bool, after: &Self) -> bool {
        match (self, after) {
            (EitherListener::Left(a), EitherListener::Left(a2)) => a.responds_erased(
                payload,
                consumed,
                a2,
            ),
            (EitherListener::Right(b), EitherListener::Right(b2)) => b.responds_erased(
                payload,
                consumed,
                b2,
            ),
            _ => false,
        }
    }

    fn event_type_id(&self) -> (k: EventKind) {
        match self {
            EitherListener::Left(a) => a.event_type_id(),
            EitherListener::Right(b) => b.event_type_id(),
        }
    }

    fn handle_erased(&mut self, payload: AnyEvent<'_>) -> (consumed: bool) {
        match self {
            EitherListener::Left(a) => a.handle_erased(payload),
            EitherListener::Right(b) => b.handle_erased(payload),
        }
    }
}

/// Listener chains, kept by the index of their payload kind, each in registration order. A
/// chain is created when its first listener comes.
pub struct EventDispatcher<L: AnyListener> {
    event_listeners: Vec<Vec<L>>,
}

impl<L: AnyListener> EventDispatcher<L> {
    /// The listeners registered for payloads of kind `k`, in registration order.
    pub closed spec fn chain(self, k: EventKind) -> Seq<L> {
        if k.index_spec() < self.event_listeners@.len() {
            self.event_listeners@[k.index_spec()]@
        } else {
            seq![]
        }
    }

    /// What a dispatch of `event` does: it runs the chain of the event's kind as `chain_ran`
    /// says and touches no other chain; with no listener for that kind, nothing changes.
    pub open spec fn dispatched(before: Self, after: Self, event: AnyEvent<'_>) -> bool {
        &&& forall|k: EventKind|
            k != event.kind() ==> #[trigger] after.chain(k) == before.chain(k)
        &&& exists|consumer: Option<int>|
            chain_ran(before.chain(event.kind()), after.chain(event.kind()), event, consumer)
        &&& before.chain(event.kind()).len() == 0 ==> forall|k: EventKind| #[trigger]
            after.chain(k) == before.chain(k)
        &&& before.chains_bound() ==> after.chains_bound()
    }

    /// Every listener sits in the chain of the kind it is bound to.
    pub open spec fn chains_bound(self) -> bool {
        forall|k: EventKind, j: int|
            0 <= j < self.chain(k).len() ==> (#[trigger] self.chain(k)[j]).listens_to() == k
    }

    /// A dispatch never reaches a listener bound to another payload type than the event's,
    /// by either entry point: every such listener is left as it was, in its place.
    pub proof fn lemma_no_cross_invocation(before: Self, after: Self, event: AnyEvent<'_>)
        requires
            before.chains_bound(),
            Self::dispatched(before, after, event),
        ensures
            after.chains_bound(),
            forall|k: EventKind, j: int|
                0 <= j < before.chain(k).len() && (#[trigger] before.chain(k)[j]).listens_to()
                    != event.kind() ==> j < after.chain(k).len() && after.chain(k)[j]
                    == before.chain(k)[j],
    {
        assert forall|k: EventKind, j: int|
            0 <= j < before.chain(k).len() && (#[trigger] before.chain(k)[j]).listens_to()
                != event.kind() implies j < after.chain(k).len() && after.chain(k)[j]
                == before.chain(k)[j] by {
            assert(k != event.kind());
            assert(after.chain(k) == before.chain(k));
        }
    }

    /// A dispatcher without listeners.
    pub fn new() -> (r: Self)
        ensures
            forall|k: EventKind| (#[trigger] r.chain(k)).len() == 0,
            r.chains_bound(),
    {
        EventDispatcher { event_listeners: Vec::new() }
    }

    /// Appends `listener` to the chain of the kind it is bound to, creating the chain if there
    /// is none.
    pub fn add_listener(&mut self, listener: L)
        ensures
            final(self).chain(listener.listens_to()) == old(self).chain(listener.listens_to()).push(
                listener,
            ),
            forall|k: EventKind|
                k != listener.listens_to() ==> #[trigger] final(self).chain(k) == old(self).chain(
                    k,
                ),
            old(self).chains_bound() ==> final(self).chains_bound(),
    {
        let type_id = listener.event_type_id();
        let slot = type_id.index();
        while self.event_listeners.len() <= slot
            invariant
                slot < KIND_COUNT,
                forall|k: EventKind| #[trigger] self.chain(k) == old(self).chain(k),
            decreases KIND_COUNT - self.event_listeners.len(),
        {
            let ghost prev = *self;
            self.event_listeners.push(Vec::new());
            proof {
                assert forall|k: EventKind| #[trigger] self.chain(k) == old(self).chain(k) by {
                    let i = k.index_spec();
                    if i < prev.event_listeners@.len() {
                        assert(self.event_listeners@[i] == prev.event_listeners@[i]);
                        assert(self.chain(k) == prev.chain(k));
                    } else if i == prev.event_listeners@.len() {
                        assert(self.chain(k) =~= prev.chain(k));
                    } else {
                        assert(self.chain(k) =~= prev.chain(k));
                    }
                }
            }
        }
        let ghost mid = *self;
        self.event_listeners[slot].push(listener);
        proof {
            assert forall|k: EventKind| k != type_id implies #[trigger] self.chain(k) == old(
                self,
            ).chain(k) by {
                assert(k.index_spec() != type_id.index_spec());
                assert(self.chain(k) == mid.chain(k));
            }
            assert(mid.chain(type_id) == old(self).chain(type_id));
            assert(self.chain(type_id) =~= mid.chain(type_id).push(listener));
            if old(self).chains_bound() {
                assert forall|k: EventKind, j: int| 0 <= j < self.chain(k).len() implies (
                #[trigger] self.chain(k)[j]).listens_to() == k by {
                    if k != type_id {
                        assert(self.chain(k) == old(self).chain(k));
                    } else if j < old(self).chain(k).len() {
                        assert(self.chain(k)[j] == old(self).chain(k)[j]);
                    }
                }
            }
        }
    }

    /// Each kind that has listeners, with how many, in the order of `all_kinds()`, over the
    /// first `n` kinds.
    pub closed spec fn listener_counts(self, n: int) -> Seq<(EventKind, usize)>
        decreases n,
    {
        if n <= 0 {
            seq![]
        } else {
            let k = all_kinds()[n - 1];
            let rest = self.listener_counts(n - 1);
            if self.chain(k).len() > 0 {
                rest.push((k, self.chain(k).len() as usize))
            } else {
                rest
            }
        }
    }

    /// What a log of the registry lists: each kind that has listeners, with the length of its
    /// chain, in the order of `all_kinds()`.
    pub fn log_listeners(&self) -> (r: Vec<(EventKind, usize)>)
        ensures
            r@ == self.listener_counts(KIND_COUNT as int),
    {
        let mut r: Vec<(EventKind, usize)> = Vec::new();
        let mut i: usize = 0;
        while i < KIND_COUNT
            invariant
                i <= KIND_COUNT,
                r@ == self.listener_counts(i as int),
            decreases KIND_COUNT - i,
        {
            let k = EventKind::from_index(i);
            let n = if i < self.event_listeners.len() {
                self.event_listeners[i].len()
            } else {
                0
            };
            assert(n == self.chain(k).len());
            if n > 0 {
                r.push((k, n));
            }
            i = i + 1;
        }
        r
    }

    /// Offers `event` to the chain of its kind, in registration order, until a listener
    /// consumes it. The other chains are left as they were; so is the dispatcher when the
    /// chain is empty.
    pub fn dispatch_dynamic(&mut self, event: AnyEvent<'_>)
        ensures
            Self::dispatched(*old(self), *final(self), event),
    {
        let type_id = event.get_type_id();
        let slot = type_id.index();
        if slot >= self.event_listeners.len() {
            assert(chain_ran(old(self).chain(type_id), self.chain(type_id), event, None));
            return ;
        }
        let n = self.event_listeners[slot].len();
        let ghost before = old(self).event_listeners@[slot as int]@;
        let ghost mut consumer: Option<int> = None;
        let mut i: usize = 0;
        while i < n
            invariant_except_break
                consumer.is_none(),
                forall|j: int|
                    0 <= j < i ==> #[trigger] before[j].responds_erased(
                        event,
                        false,
                        &self.event_listeners@[slot as int]@[j],
                    ),
                forall|j: int|
                    i <= j < n ==> #[trigger] self.event_listeners@[slot as int]@[j] == before[j],
            invariant
                slot < self.event_listeners@.len(),
                self.event_listeners@.len() == old(self).event_listeners@.len(),
                slot as int == type_id.index_spec(),
                n == before.len(),
                i <= n,
                forall|s: int|
                    0 <= s < self.event_listeners@.len() && s != slot ==> #[trigger]
                        self.event_listeners@[s] == old(self).event_listeners@[s],
                self.event_listeners@[slot as int]@.len() == n,
                forall|j: int|
                    0 <= j < n ==> (#[trigger] self.event_listeners@[slot as int]@[j]).listens_to()
                        == before[j].listens_to(),
            ensures
                chain_ran(before, self.event_listeners@[slot as int]@, event, consumer),
            decreases n - i,
        {
            let handled = self.event_listeners[slot][i].handle_erased(event);
            if handled {
                proof {
                    consumer = Some(i as int);
                }
                break;
            }
            i = i + 1;
        }
        proof {
            assert(old(self).chain(type_id) == before);
            assert(self.chain(type_id) == self.event_listeners@[slot as int]@);
            assert(chain_ran(old(self).chain(type_id), self.chain(type_id), event, consumer));
            assert forall|k: EventKind| k != type_id implies #[trigger] self.chain(k) == old(
                self,
            ).chain(k) by {
                assert(k.index_spec() != slot as int);
            }
            if before.len() == 0 {
                assert(self.chain(type_id) =~= old(self).chain(type_id));
            }
            if old(self).chains_bound() {
                assert forall|k: EventKind, j: int| 0 <= j < self.chain(k).len() implies (
                #[trigger] self.chain(k)[j]).listens_to() == k by {
                    if k != type_id {
                        assert(self.chain(k) == old(self).chain(k));
                    } else {
                        assert(old(self).chain(k)[j].listens_to() == k);
                    }
                }
            }
        }
    }

    /// Offers `event`, whose type is known here, to the chain of its type: as
    /// `dispatch_dynamic` does with the erased payload.
    pub fn dispatch<T: Eventable>(&mut self, event: &T)
        ensures
            event.as_any_spec().kind() == T::type_id_spec(),
            Self::dispatched(*old(self), *final(self), event.as_any_spec()),
    {
        let erased = event.as_any();
        self.dispatch_dynamic(erased);
    }
}

} // verus!
