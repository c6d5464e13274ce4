//! A textual outline of a component tree, for looking at layouts while
//! developing them.
//!
//! A component is written as `<Name field:value field:value >`, a text as
//! itself.
use vstd::prelude::*;
use crate::button::{Button, ButtonContent, FloatingButton};
use crate::component::Component;
use crate::display::Label;
use crate::msg_map::MsgMap;
use crate::placed::{FixedHeightBar, Floating, GridPlaced, VSplit};

verus! {

/// The text that opens the outline of a component called `name`.
pub open spec fn opening(name: Seq<char>) -> Seq<char> {
    seq!['<'] + name + seq![' ']
}

/// The text of a field called `name` whose value is written as `value`.
pub open spec fn field_text(name: Seq<char>, value: Seq<char>) -> Seq<char> {
    name + seq![':'] + value + seq![' ']
}

/// The text that closes the outline of a component.
pub open spec fn closing() -> Seq<char> {
    seq!['>']
}

/// The outline of a component called `name` whose only field `field` is
/// written as `value`.
pub open spec fn wrapper_text(name: Seq<char>, field: Seq<char>, value: Seq<char>) -> Seq<char> {
    opening(name) + field_text(field, value) + closing()
}

/// Collects the outline.
pub struct Tracer {
    pub out: String,
}

impl View for Tracer {
    type V = Seq<char>;

    open spec fn view(&self) -> Seq<char> {
        self.out@
    }
}

/// Something that can write its outline.
pub trait Trace {
    /// The outline.
    spec fn traced(&self) -> Seq<char>;

    /// Appends the outline to what `t` has collected.
    fn trace(&self, t: &mut Tracer)
        ensures
            final(t)@ == old(t)@ + self.traced(),
    ;
}

impl Tracer {
    pub fn new() -> (t: Self)
        ensures
            t@ == Seq::<char>::empty(),
    {
        Tracer { out: String::new() }
    }

    /// What was collected.
    pub fn as_str(&self) -> (s: &str)
        ensures
            s@ == self@,
    {
        self.out.as_str()
    }

    /// Appends a text as it is.
    pub fn string(&mut self, s: &str)
        ensures
            final(self)@ == old(self)@ + s@,
    {
        self.out.append(s);
    }

    /// Appends a bare word.
    pub fn symbol(&mut self, name: &str)
        ensures
            final(self)@ == old(self)@ + name@,
    {
        self.out.append(name);
    }

    /// Opens the outline of a component called `name`.
    pub fn open(&mut self, name: &str)
        ensures
            final(self)@ == old(self)@ + opening(name@),
    {
        proof {
            reveal_strlit("<");
            reveal_strlit(" ");
        }
        self.out.append("<");
        self.out.append(name);
        self.out.append(" ");
        assert("<"@ =~= seq!['<']);
        assert(" "@ =~= seq![' ']);
        assert(self@ =~= old(self)@ + opening(name@));
    }

    /// Appends a field called `name` with the outline of `value`.
    pub fn field<V: Trace>(&mut self, name: &str, value: &V)
        ensures
            final(self)@ == old(self)@ + field_text(name@, value.traced()),
    {
        proof {
            reveal_strlit(":");
            reveal_strlit(" ");
        }
        self.out.append(name);
        self.out.append(":");
        value.trace(self);
        self.out.append(" ");
        assert(":"@ =~= seq![':']);
        assert(" "@ =~= seq![' ']);
        assert(self@ =~= old(self)@ + field_text(name@, value.traced()));
    }

    /// Closes the outline of a component.
    pub fn close(&mut self)
        ensures
            final(self)@ == old(self)@ + closing(),
    {
        proof {
            reveal_strlit(">");
        }
        self.out.append(">");
        assert(">"@ =~= seq!['>']);
    }
}

impl<'a> Trace for &'a str {
    open spec fn traced(&self) -> Seq<char> {
        (*self)@
    }

    fn trace(&self, t: &mut Tracer) {
        t.string(*self);
    }
}

impl Trace for String {
    open spec fn traced(&self) -> Seq<char> {
        self@
    }

    fn trace(&self, t: &mut Tracer) {
        t.string(self.as_str());
    }
}

/// A button with a text shows the text, a button with an icon the word
/// `icon`, any other button nothing but its name.
impl<T: Label> Trace for Button<T> {
    open spec fn traced(&self) -> Seq<char> {
        opening("Button"@) + (match self.content {
            ButtonContent::Text(text) => field_text("text"@, text.text()),
            ButtonContent::Icon(_) => "icon"@,
            ButtonContent::IconBlend(_, _, _) => "icon"@,
            _ => Seq::empty(),
        }) + closing()
    }

    fn trace(&self, t: &mut Tracer) {
        t.open("Button");
        match &self.content {
            ButtonContent::Empty => {},
            ButtonContent::Text(text) => {
                let shown = text.as_str();
                t.field("text", &shown);
            },
            ButtonContent::Icon(_) => t.symbol("icon"),
            ButtonContent::IconAndText(_) => {},
            ButtonContent::IconBlend(_, _, _) => t.symbol("icon"),
        }
        t.close();
        assert(t@ =~= old(t)@ + self.traced());
    }
}

impl<T: Component + Trace> Trace for GridPlaced<T> {
    open spec fn traced(&self) -> Seq<char> {
        wrapper_text("GridPlaced"@, "inner"@, self.inner.traced())
    }

    fn trace(&self, t: &mut Tracer) {
        t.open("GridPlaced");
        t.field("inner", &self.inner);
        t.close();
        assert(t@ =~= old(t)@ + self.traced());
    }
}

impl<T: Component + Trace> Trace for FixedHeightBar<T> {
    open spec fn traced(&self) -> Seq<char> {
        wrapper_text("FixedHeightBar"@, "inner"@, self.inner.traced())
    }

    fn trace(&self, t: &mut Tracer) {
        t.open("FixedHeightBar");
        t.field("inner", &self.inner);
        t.close();
        assert(t@ =~= old(t)@ + self.traced());
    }
}

impl<T: Component + Trace> Trace for Floating<T> {
    open spec fn traced(&self) -> Seq<char> {
        wrapper_text("Floating"@, "inner"@, self.inner.traced())
    }

    fn trace(&self, t: &mut Tracer) {
        t.open("Floating");
        t.field("inner", &self.inner);
        t.close();
        assert(t@ =~= old(t)@ + self.traced());
    }
}

impl<T: Component + Trace> Trace for FloatingButton<T> {
    open spec fn traced(&self) -> Seq<char> {
        wrapper_text("FloatingButton"@, "inner"@, self.inner.traced())
    }

    fn trace(&self, t: &mut Tracer) {
        t.open("FloatingButton");
        t.field("inner", self.inner());
        t.close();
        assert(t@ =~= old(t)@ + self.traced());
    }
}

impl<T: Component + Trace, U: Component + Trace> Trace for VSplit<T, U> {
    open spec fn traced(&self) -> Seq<char> {
        opening("VSplit"@) + field_text("first"@, self.first.traced()) + field_text(
            "second"@,
            self.second.traced(),
        ) + closing()
    }

    fn trace(&self, t: &mut Tracer) {
        t.open("VSplit");
        t.field("first", &self.first);
        t.field("second", &self.second);
        t.close();
        assert(t@ =~= old(t)@ + self.traced());
    }
}

/// A translation leaves no trace: the outline is that of the component
/// inside.
impl<T: Trace, F> Trace for MsgMap<T, F> {
    open spec fn traced(&self) -> Seq<char> {
        self.inner.traced()
    }

    fn trace(&self, t: &mut Tracer) {
        self.inner.trace(t)
    }
}

impl<A: Trace, B: Trace> Trace for (A, B) {
    open spec fn traced(&self) -> Seq<char> {
        opening("Tuple"@) + field_text("0"@, self.0.traced()) + field_text(
            "1"@,
            self.1.traced(),
        ) + closing()
    }

    fn trace(&self, t: &mut Tracer) {
        t.open("Tuple");
        t.field("0", &self.0);
        t.field("1", &self.1);
        t.close();
        assert(t@ =~= old(t)@ + self.traced());
    }
}

impl<A: Trace, B: Trace, C: Trace> Trace for (A, B, C) {
    open spec fn traced(&self) -> Seq<char> {
        opening("Tuple"@) + field_text("0"@, self.0.traced()) + field_text(
            "1"@,
            self.1.traced(),
        ) + field_text("2"@, self.2.traced()) + closing()
    }

    fn trace(&self, t: &mut Tracer) {
        t.open("Tuple");
        t.field("0", &self.0);
        t.field("1", &self.1);
        t.field("2", &self.2);
        t.close();
        assert(t@ =~= old(t)@ + self.traced());
    }
}

/// The outline of `value` as a string.
pub fn trace_to_string<V: Trace>(value: &V) -> (s: String)
    ensures
        s@ == value.traced(),
{
    let mut t = Tracer::new();
    value.trace(&mut t);
    assert(t@ =~= value.traced());
    t.out
}

} // verus!
