use touch_ui::button::{Button, FloatingButton};
use touch_ui::component::Component;
use touch_ui::display::Icon;
use touch_ui::geometry::{Offset, Point, Rect, TOP_LEFT};
use touch_ui::placed::{Floating, VSplit};
use touch_ui::theme;
use touch_ui::trace::{trace_to_string, Trace, Tracer};

/// The screen of 240 by 240 pixels without its borders.
fn screen() -> Rect {
    Rect::new(Point::new(10, 13), Point::new(230, 226))
}

fn trace(val: &impl Trace) -> String {
    let mut t = Tracer::new();
    val.trace(&mut t);
    t.as_str().to_string()
}

#[test]
fn trace_example_layout() {
    let buttons = Button::cancel_confirm(Button::with_text("Left"), Button::with_text("Right"), 1);
    let mut layout = buttons;
    layout.place(screen());
    let expected = "<Dialog content:<Text content:Testing text layout, with\nsome text, and some more\ntext. And parameters! > controls:<FixedHeightBar inner:<Tuple 0:<GridPlaced inner:<Button text:Left > > 1:<GridPlaced inner:<Button text:Right > > > > >";
    // A dialog writes its text and then its controls. The controls are the
    // bar built here; the text above them is broken into lines by the
    // screen's text engine.
    let head = "<Dialog content:<Text content:";
    let joint = " > controls:";
    let at = expected.find(joint).unwrap();
    assert_eq!(trace(&layout), expected[at + joint.len()..expected.len() - 2]);
    let text = "Testing text layout, with some text, and some more text. And {param}"
        .replace(&format!("{{{}}}", "param"), "parameters!");
    assert_eq!(expected[head.len()..at].replace('\n', " "), text);
}

#[test]
fn trace_of_a_bar_does_not_depend_on_placement() {
    let mut bar = Button::cancel_confirm(Button::with_text("Left"), Button::with_text("Right"), 1);
    let before = trace(&bar);
    bar.place(screen());
    assert_eq!(trace(&bar), before);
    assert_eq!(
        before,
        "<FixedHeightBar inner:<Tuple 0:<GridPlaced inner:<Button text:Left > > 1:<GridPlaced inner:<Button text:Right > > > >"
    );
}

#[test]
fn trace_of_buttons_by_content() {
    assert_eq!(trace(&Button::with_text("OK")), "<Button text:OK >");
    assert_eq!(trace(&Button::<&'static str>::with_icon(Icon::new(7))), "<Button icon>");
    assert_eq!(
        trace(&Button::<&'static str>::with_icon_blend(Icon::new(1), Icon::new(2), Offset::zero())),
        "<Button icon>"
    );
    assert_eq!(trace(&Button::<&'static str>::empty()), "<Button >");
    assert_eq!(trace(&Button::with_text(String::from("Yes"))), "<Button text:Yes >");
}

#[test]
fn trace_of_split_names_both_children() {
    let split = VSplit::new(38, 6, Button::with_text("A"), Button::with_text("B"));
    assert_eq!(trace(&split), "<VSplit first:<Button text:A > second:<Button text:B > >");
}

#[test]
fn trace_of_square_bar_skips_the_translations() {
    let bar = Button::cancel_confirm_square(Button::with_text("A"), Button::with_text("B"));
    assert_eq!(
        trace(&bar),
        "<FixedHeightBar inner:<VSplit first:<Button text:A > second:<Button text:B > > >"
    );
}

#[test]
fn trace_of_three_buttons() {
    let bar = Button::abort_info_enter();
    assert_eq!(
        trace(&bar),
        "<FixedHeightBar inner:<Tuple 0:<GridPlaced inner:<Button text:ABORT > > 1:<GridPlaced inner:<Button text:INFO > > 2:<GridPlaced inner:<Button text:ENTER > > > >"
    );
}

#[test]
fn trace_of_floating_components() {
    let floating = Floating::new(Offset::uniform(10), Offset::zero(), TOP_LEFT, Button::with_text("x"));
    assert_eq!(trace(&floating), "<Floating inner:<Button text:x > >");
    let corner = FloatingButton::top_right_corner(Icon::new(theme::ICON_INFO_CIRCLE), Button::with_text("y"));
    assert_eq!(trace(&corner), "<FloatingButton inner:<Button text:y > >");
}

#[test]
fn trace_to_string_is_the_whole_outline() {
    let button = Button::with_text("Go");
    assert_eq!(trace_to_string(&button), "<Button text:Go >");
}

#[test]
fn tracer_writes_fields_in_order() {
    let mut t = Tracer::new();
    t.open("Thing");
    t.field("a", &"1");
    t.symbol("flag");
    t.string(" ");
    t.field("b", &"2");
    t.close();
    assert_eq!(t.as_str(), "<Thing a:1 flag b:2 >");
}
