//! A component whose outcomes are those of another component, translated.
use vstd::prelude::*;
use crate::component::{Component, Event, EventCtx, EventCtxView};
use crate::display::{DisplayList, DrawOpView};
use crate::geometry::Rect;

verus! {

/// A function from the outcomes of one component to the outcomes of
/// another. It has no state: what it returns depends on the message alone.
pub trait Translation<A> {
    /// What the function returns.
    type Out;

    /// Whether this is a function at all: it accepts every message and
    /// returns the same for the same message.
    spec fn valid(&self) -> bool;

    /// The outcome that `msg` becomes, or `None` where it is dropped.
    spec fn apply(&self, msg: A) -> Option<Self::Out>;

    fn translate(&self, msg: A) -> (out: Option<Self::Out>)
        requires
            self.valid(),
        ensures
            out == self.apply(msg),
    ;
}

/// A closure as a translation.
pub struct ByFn<F>(pub F);

impl<A, B, F: Fn(A) -> Option<B>> Translation<A> for ByFn<F> {
    type Out = B;

    /// The closure may be called with every message, and whatever it may
    /// return for a message is one and the same value.
    open spec fn valid(&self) -> bool {
        &&& forall|msg: A| call_requires(self.0, (msg,))
        &&& forall|msg: A, out: Option<B>| #[trigger]
            call_ensures(self.0, (msg,), out) ==> out == self.apply(msg)
    }

    /// What the closure returns for `msg`.
    open spec fn apply(&self, msg: A) -> Option<B> {
        choose|out: Option<B>| call_ensures(self.0, (msg,), out)
    }

    fn translate(&self, msg: A) -> (out: Option<B>) {
        (self.0)(msg)
    }
}

/// Wraps a component and hands each of its outcomes to a function. What the
/// function returns is the outcome of the wrapper; where it returns
/// nothing, the event has no outcome.
pub struct MsgMap<T, F> {
    pub inner: T,
    pub func: F,
}

impl<T, F> MsgMap<T, F> {
    pub fn new(inner: T, func: F) -> (r: Self)
        ensures
            r == (MsgMap { inner, func }),
    {
        MsgMap { inner, func }
    }
}

impl<T: Component, F: Translation<T::Msg>> Component for MsgMap<T, F> {
    type Msg = F::Out;

    open spec fn inv(&self) -> bool {
        self.inner.inv() && self.func.valid()
    }

    open spec fn fits(&self, bounds: Rect) -> bool {
        self.inner.fits(bounds)
    }

    open spec fn placed(&self, bounds: Rect) -> Self {
        MsgMap { inner: self.inner.placed(bounds), func: self.func }
    }

    open spec fn extent(&self, bounds: Rect) -> Rect {
        self.inner.extent(bounds)
    }

    open spec fn dispatched(&self, ctx: EventCtxView, event: Event) -> (
        Self,
        EventCtxView,
        Option<F::Out>,
    ) {
        let (inner, after, msg) = self.inner.dispatched(ctx, event);
        (
            MsgMap { inner, func: self.func },
            after,
            match msg {
                Some(msg) => self.func.apply(msg),
                None => None,
            },
        )
    }

    open spec fn painted(&self) -> Seq<DrawOpView> {
        self.inner.painted()
    }

    open spec fn areas(&self) -> Seq<Rect> {
        Seq::empty()
    }

    fn can_place(&self, bounds: Rect) -> (ok: bool) {
        self.inner.can_place(bounds)
    }

    fn place(&mut self, bounds: Rect) -> (occupied: Rect) {
        self.inner.place(bounds)
    }

    fn event(&mut self, ctx: &mut EventCtx, event: Event) -> (msg: Option<F::Out>) {
        match self.inner.event(ctx, event) {
            Some(msg) => self.func.translate(msg),
            None => None,
        }
    }

    fn paint(&mut self, out: &mut DisplayList) {
        self.inner.paint(out)
    }

    fn bounds(&self, sink: &mut Vec<Rect>) {
        assert(sink@ =~= old(sink)@ + self.areas());
    }

    proof fn lemma_place_again(&self, bounds: Rect) {
        self.inner.lemma_place_again(bounds);
    }
}

/// The inner component and the context change as they would without the
/// wrapper. An event without an outcome there has none in the wrapper, and
/// an outcome there becomes what the function makes of it.
pub proof fn lemma_map_follows_inner<T: Component, F: Translation<T::Msg>>(
    map: MsgMap<T, F>,
    ctx: EventCtxView,
    event: Event,
)
    ensures
        map.dispatched(ctx, event).0.inner == map.inner.dispatched(ctx, event).0,
        map.dispatched(ctx, event).0.func == map.func,
        map.dispatched(ctx, event).1 == map.inner.dispatched(ctx, event).1,
        map.inner.dispatched(ctx, event).2 is None ==> map.dispatched(ctx, event).2 is None,
        map.inner.dispatched(ctx, event).2 matches Some(msg) ==> map.dispatched(ctx, event).2
            == map.func.apply(msg),
{
}

} // verus!
