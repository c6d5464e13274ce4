//! The contract that every widget fulfils, the events it receives and the
//! context through which it asks for a repaint or a timer.
//!
//! A component is a value. What `place` and `event` do to it is given by the
//! specification functions `placed` and `dispatched`, so the behaviour of a
//! tree of components is a function of the tree, the bounds and the events.
use vstd::prelude::*;
use crate::display::{DisplayList, DrawOpView};
use crate::geometry::{Point, Rect};

verus! {

/// A span of time in milliseconds.
#[derive(Clone, Copy, Debug, PartialEq, Eq, Structural)]
pub struct Duration {
    pub millis: u32,
}

impl Duration {
    pub fn from_millis(millis: u32) -> (d: Self)
        ensures
            d == (Duration { millis }),
    {
        Duration { millis }
    }

    pub fn to_millis(self) -> (millis: u32)
        ensures
            millis == self.millis,
    {
        self.millis
    }
}

/// The handle of a requested timer. A component keeps it to recognise its own
/// timer among the timer events it is sent.
#[derive(Clone, Copy, Debug, PartialEq, Eq, Structural)]
pub struct TimerToken(pub u32);

impl TimerToken {
    pub fn from_raw(raw: u32) -> (token: Self)
        ensures
            token == TimerToken(raw),
    {
        TimerToken(raw)
    }

    pub fn into_raw(self) -> (raw: u32)
        ensures
            raw == self.0,
    {
        self.0
    }
}

/// What a finger does on the screen, and where.
#[derive(Clone, Copy, Debug, PartialEq, Eq, Structural)]
pub enum TouchEvent {
    TouchStart(Point),
    TouchMove(Point),
    TouchEnd(Point),
}

/// One occurrence that is dispatched to a component tree.
#[derive(Clone, Copy, Debug, PartialEq, Eq, Structural)]
pub enum Event {
    Touch(TouchEvent),
    /// The timer with this token has fired.
    Timer(TimerToken),
}

/// The context of a dispatch as a value of specifications.
pub struct EventCtxView {
    /// Whether a repaint has been asked for.
    pub paint_requested: bool,
    /// The timers asked for and not yet taken by the driver, oldest first.
    pub timers: Seq<(TimerToken, Duration)>,
    /// The number of the token that the next timer gets.
    pub next_token: u32,
}

impl EventCtxView {
    /// The context before anything was asked of it.
    pub open spec fn fresh() -> Self {
        EventCtxView { paint_requested: false, timers: Seq::empty(), next_token: 1 }
    }

    /// This context after a repaint was asked for.
    pub open spec fn with_paint(self) -> Self {
        EventCtxView { paint_requested: true, ..self }
    }

    /// This context after a repaint was asked for if `wanted`.
    pub open spec fn paint_if(self, wanted: bool) -> Self {
        if wanted {
            self.with_paint()
        } else {
            self
        }
    }

    /// The token that the next timer gets.
    pub open spec fn upcoming(self) -> TimerToken {
        TimerToken(self.next_token)
    }

    /// This context after a timer of `duration` was asked for: the timer is
    /// queued under the upcoming token, and the token after it is the next
    /// number, starting over at zero after the largest.
    pub open spec fn with_timer(self, duration: Duration) -> Self {
        EventCtxView {
            timers: self.timers.push((self.upcoming(), duration)),
            next_token: if self.next_token == u32::MAX {
                0
            } else {
                (self.next_token + 1) as u32
            },
            ..self
        }
    }
}

/// What components use during a dispatch to ask for a repaint or a timer.
/// The driver reads the requests when the dispatch is over.
pub struct EventCtx {
    paint_requested: bool,
    timers: Vec<(TimerToken, Duration)>,
    next_token: u32,
}

impl View for EventCtx {
    type V = EventCtxView;

    closed spec fn view(&self) -> EventCtxView {
        EventCtxView {
            paint_requested: self.paint_requested,
            timers: self.timers@,
            next_token: self.next_token,
        }
    }
}

impl EventCtx {
    pub fn new() -> (ctx: Self)
        ensures
            ctx@ == EventCtxView::fresh(),
    {
        EventCtx { paint_requested: false, timers: Vec::new(), next_token: 1 }
    }

    /// Asks for a repaint after this dispatch.
    pub fn request_paint(&mut self)
        ensures
            final(self)@ == old(self)@.with_paint(),
    {
        self.paint_requested = true;
    }

    /// Asks for a timer event after `duration`, and returns the token that
    /// the event will carry. Two requests in a row get different tokens.
    pub fn request_timer(&mut self, duration: Duration) -> (token: TimerToken)
        ensures
            token == old(self)@.upcoming(),
            final(self)@ == old(self)@.with_timer(duration),
            final(self)@.upcoming() != token,
    {
        let token = TimerToken(self.next_token);
        self.timers.push((token, duration));
        self.next_token = if self.next_token == u32::MAX {
            0
        } else {
            self.next_token + 1
        };
        token
    }

    /// Whether a repaint was asked for.
    pub fn is_paint_requested(&self) -> (wanted: bool)
        ensures
            wanted == self@.paint_requested,
    {
        self.paint_requested
    }

    /// Takes the youngest timer request, if there is one.
    pub fn pop_timer(&mut self) -> (timer: Option<(TimerToken, Duration)>)
        ensures
            final(self)@.paint_requested == old(self)@.paint_requested,
            final(self)@.next_token == old(self)@.next_token,
            match timer {
                Some(t) => old(self)@.timers.len() > 0 && t == old(self)@.timers.last()
                    && final(self)@.timers == old(self)@.timers.drop_last(),
                None => old(self)@.timers.len() == 0 && final(self)@.timers
                    == old(self)@.timers,
            },
    {
        self.timers.pop()
    }

    /// Forgets the requests of the last dispatch. Tokens go on from where
    /// they were.
    pub fn clear(&mut self)
        ensures
            final(self)@ == (EventCtxView {
                next_token: old(self)@.next_token,
                ..EventCtxView::fresh()
            }),
    {
        self.paint_requested = false;
        self.timers.clear();
    }
}

/// A widget: something that is given a place on the screen, reacts to
/// events and paints itself.
pub trait Component: Sized {
    /// What the component reports when an interaction is complete.
    type Msg;

    /// What must hold of a component for it to be used. Construction
    /// establishes it and every method keeps it.
    spec fn inv(&self) -> bool;

    /// Whether the component can be laid out in `bounds`: every rectangle
    /// of the layout can be computed and lies on the `i16` plane.
    spec fn fits(&self, bounds: Rect) -> bool;

    /// The component after it was placed in `bounds`.
    spec fn placed(&self, bounds: Rect) -> Self;

    /// The rectangle that the component reports to occupy when placed in
    /// `bounds`.
    spec fn extent(&self, bounds: Rect) -> Rect;

    /// The component and the context after `event` was dispatched, and the
    /// outcome, if the event completed an interaction.
    spec fn dispatched(&self, ctx: EventCtxView, event: Event) -> (
        Self,
        EventCtxView,
        Option<Self::Msg>,
    );

    /// What the component draws in its present state.
    spec fn painted(&self) -> Seq<DrawOpView>;

    /// The rectangles that the component reports through `bounds`.
    spec fn areas(&self) -> Seq<Rect>;

    /// Whether `place` may be called with `bounds`.
    fn can_place(&self, bounds: Rect) -> (ok: bool)
        ensures
            ok == self.fits(bounds),
    ;

    /// Lays the component and its children out in `bounds` and returns the
    /// rectangle it occupies. Nothing is drawn and no request is made.
    fn place(&mut self, bounds: Rect) -> (occupied: Rect)
        requires
            old(self).inv(),
            old(self).fits(bounds),
        ensures
            *final(self) == old(self).placed(bounds),
            occupied == old(self).extent(bounds),
            final(self).inv(),
    ;

    /// Hands one event to the component. Returns an outcome if the event
    /// completed an interaction.
    fn event(&mut self, ctx: &mut EventCtx, event: Event) -> (msg: Option<Self::Msg>)
        requires
            old(self).inv(),
        ensures
            (*final(self), final(ctx)@, msg) == old(self).dispatched(old(ctx)@, event),
            final(self).inv(),
    ;

    /// Appends to `out` what the component draws in its present state. The
    /// component does not change.
    fn paint(&mut self, out: &mut DisplayList)
        requires
            old(self).inv(),
        ensures
            *final(self) == *old(self),
            final(out)@ == old(out)@ + old(self).painted(),
    ;

    /// Appends to `sink` the rectangles that the component reports.
    fn bounds(&self, sink: &mut Vec<Rect>)
        ensures
            final(sink)@ == old(sink)@ + self.areas(),
    ;

    /// Placing is repeatable: a component that was placed in `bounds` can
    /// be placed there again, and that changes nothing and reports the same
    /// rectangle.
    proof fn lemma_place_again(&self, bounds: Rect)
        requires
            self.inv(),
            self.fits(bounds),
        ensures
            self.placed(bounds).inv(),
            self.placed(bounds).fits(bounds),
            self.placed(bounds).placed(bounds) == self.placed(bounds),
            self.placed(bounds).extent(bounds) == self.extent(bounds),
    ;
}

/// Two components placed with the same bounds as equals stay equals: the
/// layout depends on nothing but the component and the bounds.
pub proof fn lemma_place_deterministic<C: Component>(a: C, b: C, bounds: Rect)
    requires
        a == b,
    ensures
        a.placed(bounds) == b.placed(bounds),
        a.placed(bounds).areas() == b.placed(bounds).areas(),
        a.extent(bounds) == b.extent(bounds),
{
}

/// Two components side by side in the same bounds. An event goes to the
/// first, and to the second only if the first has no outcome.
impl<A: Component, B: Component<Msg = A::Msg>> Component for (A, B) {
    type Msg = A::Msg;

    open spec fn inv(&self) -> bool {
        self.0.inv() && self.1.inv()
    }

    open spec fn fits(&self, bounds: Rect) -> bool {
        self.0.fits(bounds) && self.1.fits(bounds)
    }

    open spec fn placed(&self, bounds: Rect) -> Self {
        (self.0.placed(bounds), self.1.placed(bounds))
    }

    open spec fn extent(&self, bounds: Rect) -> Rect {
        self.0.extent(bounds).spec_union(self.1.extent(bounds))
    }

    open spec fn dispatched(&self, ctx: EventCtxView, event: Event) -> (
        Self,
        EventCtxView,
        Option<A::Msg>,
    ) {
        let (first, ctx1, msg1) = self.0.dispatched(ctx, event);
        if msg1 is Some {
            ((first, self.1), ctx1, msg1)
        } else {
            let (second, ctx2, msg2) = self.1.dispatched(ctx1, event);
            ((first, second), ctx2, msg2)
        }
    }

    open spec fn painted(&self) -> Seq<DrawOpView> {
        self.0.painted() + self.1.painted()
    }

    open spec fn areas(&self) -> Seq<Rect> {
        Seq::empty()
    }

    fn can_place(&self, bounds: Rect) -> (ok: bool) {
        self.0.can_place(bounds) && self.1.can_place(bounds)
    }

    fn place(&mut self, bounds: Rect) -> (occupied: Rect) {
        let first = self.0.place(bounds);
        let second = self.1.place(bounds);
        first.union(second)
    }

    fn event(&mut self, ctx: &mut EventCtx, event: Event) -> (msg: Option<A::Msg>) {
        let first = self.0.event(ctx, event);
        if first.is_some() {
            first
        } else {
            self.1.event(ctx, event)
        }
    }

    fn paint(&mut self, out: &mut DisplayList) {
        self.0.paint(out);
        self.1.paint(out);
        assert(out@ =~= old(out)@ + old(self).painted());
    }

    fn bounds(&self, sink: &mut Vec<Rect>) {
        assert(sink@ =~= old(sink)@ + self.areas());
    }

    proof fn lemma_place_again(&self, bounds: Rect) {
        self.0.lemma_place_again(bounds);
        self.1.lemma_place_again(bounds);
    }
}

/// Three components side by side in the same bounds. An event goes to each
/// in turn until one has an outcome.
impl<A: Component, B: Component<Msg = A::Msg>, C: Component<Msg = A::Msg>> Component for (
    A,
    B,
    C,
) {
    type Msg = A::Msg;

    open spec fn inv(&self) -> bool {
        self.0.inv() && self.1.inv() && self.2.inv()
    }

    open spec fn fits(&self, bounds: Rect) -> bool {
        self.0.fits(bounds) && self.1.fits(bounds) && self.2.fits(bounds)
    }

    open spec fn placed(&self, bounds: Rect) -> Self {
        (self.0.placed(bounds), self.1.placed(bounds), self.2.placed(bounds))
    }

    open spec fn extent(&self, bounds: Rect) -> Rect {
        self.0.extent(bounds).spec_union(self.1.extent(bounds)).spec_union(
            self.2.extent(bounds),
        )
    }

    open spec fn dispatched(&self, ctx: EventCtxView, event: Event) -> (
        Self,
        EventCtxView,
        Option<A::Msg>,
    ) {
        let (first, ctx1, msg1) = self.0.dispatched(ctx, event);
        if msg1 is Some {
            ((first, self.1, self.2), ctx1, msg1)
        } else {
            let (second, ctx2, msg2) = self.1.dispatched(ctx1, event);
            if msg2 is Some {
                ((first, second, self.2), ctx2, msg2)
            } else {
                let (third, ctx3, msg3) = self.2.dispatched(ctx2, event);
                ((first, second, third), ctx3, msg3)
            }
        }
    }

    open spec fn painted(&self) -> Seq<DrawOpView> {
        self.0.painted() + self.1.painted() + self.2.painted()
    }

    open spec fn areas(&self) -> Seq<Rect> {
        Seq::empty()
    }

    fn can_place(&self, bounds: Rect) -> (ok: bool) {
        self.0.can_place(bounds) && self.1.can_place(bounds) && self.2.can_place(bounds)
    }

    fn place(&mut self, bounds: Rect) -> (occupied: Rect) {
        let first = self.0.place(bounds);
        let second = self.1.place(bounds);
        let third = self.2.place(bounds);
        first.union(second).union(third)
    }

    fn event(&mut self, ctx: &mut EventCtx, event: Event) -> (msg: Option<A::Msg>) {
        let first = self.0.event(ctx, event);
        if first.is_some() {
            return first;
        }
        let second = self.1.event(ctx, event);
        if second.is_some() {
            return second;
        }
        self.2.event(ctx, event)
    }

    fn paint(&mut self, out: &mut DisplayList) {
        self.0.paint(out);
        self.1.paint(out);
        self.2.paint(out);
        assert(out@ =~= old(out)@ + old(self).painted());
    }

    fn bounds(&self, sink: &mut Vec<Rect>) {
        assert(sink@ =~= old(sink)@ + self.areas());
    }

    proof fn lemma_place_again(&self, bounds: Rect) {
        self.0.lemma_place_again(bounds);
        self.1.lemma_place_again(bounds);
        self.2.lemma_place_again(bounds);
    }
}

} // verus!
