use touch_ui::button::{
    Button, ButtonStyle, IconText, IconTextLayout, BASELINE_OFFSET,
};
use touch_ui::component::{Component, Event, EventCtx, TouchEvent};
use touch_ui::display::{text_baseline, DisplayList, DrawOp, Font, Icon};
use touch_ui::geometry::{Alignment, Offset, Point, Rect};
use touch_ui::theme;

fn rect(x0: i16, y0: i16, x1: i16, y1: i16) -> Rect {
    Rect::new(Point::new(x0, y0), Point::new(x1, y1))
}

fn area() -> Rect {
    rect(0, 202, 117, 240)
}

fn paint<C: Component>(c: &mut C) -> Vec<DrawOp> {
    let mut list = DisplayList::new();
    c.paint(&mut list);
    list.ops
}

fn background(style: &ButtonStyle) -> DrawOp {
    DrawOp::RectFillRounded {
        area: area(),
        fg: style.button_color,
        bg: style.background_color,
        radius: style.border_radius,
    }
}

#[test]
fn text_button_paints_background_then_text() {
    let mut button = Button::with_text("OK");
    button.place(area());
    let style = theme::button_default().normal;
    assert_eq!(
        paint(&mut button),
        vec![
            background(&style),
            DrawOp::Text {
                area: area(),
                baseline_offset: -3,
                text: String::from("OK"),
                font: Font::Bold,
                fg: theme::fg(),
                bg: theme::grey_dark(),
            },
        ]
    );
}

#[test]
fn pressed_button_paints_in_the_active_style() {
    let mut button = Button::with_text("OK");
    button.place(area());
    let mut ctx = EventCtx::new();
    button.event(&mut ctx, Event::Touch(TouchEvent::TouchStart(Point::new(5, 210))));
    let ops = paint(&mut button);
    assert_eq!(ops[0], background(&theme::button_default().active));
    button.disable(&mut ctx);
    let ops = paint(&mut button);
    assert_eq!(ops[0], background(&theme::button_default().disabled));
    assert_eq!(
        ops[1],
        DrawOp::Text {
            area: area(),
            baseline_offset: BASELINE_OFFSET,
            text: String::from("OK"),
            font: Font::Bold,
            fg: theme::grey_light(),
            bg: theme::grey_dark(),
        }
    );
}

#[test]
fn empty_button_paints_its_background_only() {
    let mut button = Button::<&'static str>::empty();
    button.place(area());
    assert_eq!(paint(&mut button), vec![background(&theme::button_default().normal)]);
}

#[test]
fn icon_button_centres_the_icon() {
    let mut button = Button::<&'static str>::with_icon(Icon::new(9));
    button.place(area());
    let style = theme::button_default().normal;
    assert_eq!(
        paint(&mut button),
        vec![
            background(&style),
            DrawOp::Icon {
                icon: Icon::new(9),
                at: Point::new(58, 221),
                horizontal: Alignment::Center,
                vertical: Alignment::Center,
                fg: style.text_color,
                bg: style.button_color,
            },
        ]
    );
}

#[test]
fn icon_blend_button_has_no_background() {
    let mut button = Button::<&'static str>::with_icon_blend(Icon::new(1), Icon::new(2), Offset::new(3, 4));
    button.place(area());
    let style = theme::button_default().normal;
    assert_eq!(
        paint(&mut button),
        vec![DrawOp::IconOverIcon {
            clip: Some(area()),
            under: Icon::new(1),
            under_offset: Offset::zero(),
            under_color: style.button_color,
            over: Icon::new(2),
            over_offset: Offset::new(3, 4),
            over_color: style.text_color,
            background: style.background_color,
        }]
    );
}

#[test]
fn icon_and_text_button_asks_for_both() {
    let mut button = Button::<&'static str>::with_icon_and_text(IconText::new("Hold", Icon::new(3)));
    button.place(area());
    let style = theme::button_default().normal;
    assert_eq!(
        paint(&mut button),
        vec![
            background(&style),
            DrawOp::IconText {
                area: area(),
                baseline_offset: -3,
                text: String::from("Hold"),
                icon: Icon::new(3),
                font: style.font,
                fg: style.text_color,
                bg: style.button_color,
            },
        ]
    );
}

#[test]
fn icon_and_text_is_painted_in_the_style_of_the_state() {
    let mut button = Button::<&'static str>::with_icon_and_text(IconText::new("Hold", Icon::new(3)));
    button.place(area());
    let mut list = DisplayList::new();
    button.paint_content(&theme::button_cancel().active, &mut list);
    let style = theme::button_default().normal;
    assert_eq!(
        list.ops,
        vec![DrawOp::IconText {
            area: area(),
            baseline_offset: -3,
            text: String::from("Hold"),
            icon: Icon::new(3),
            font: style.font,
            fg: style.text_color,
            bg: style.button_color,
        }]
    );
}

#[test]
fn a_border_is_painted_below_the_inside() {
    let mut styles = theme::button_default();
    styles.normal.border_width = 2;
    styles.normal.border_color = theme::red();
    let mut button = Button::with_text("OK").styled(styles);
    button.place(area());
    let ops = paint(&mut button);
    assert_eq!(ops.len(), 3);
    assert_eq!(
        ops[0],
        DrawOp::RectFillRounded { area: area(), fg: theme::red(), bg: theme::bg(), radius: 2 }
    );
    assert_eq!(
        ops[1],
        DrawOp::RectFillRounded {
            area: rect(2, 204, 115, 238),
            fg: theme::grey_dark(),
            bg: theme::red(),
            radius: 2,
        }
    );
}

#[test]
fn paint_background_and_content_in_a_given_style() {
    let mut button = Button::with_text("OK");
    button.place(area());
    let style = theme::button_confirm().active;
    let mut list = DisplayList::new();
    button.paint_background(&style, &mut list);
    assert_eq!(list.len(), 1);
    button.paint_content(&style, &mut list);
    assert_eq!(list.len(), 2);
    assert_eq!(list.ops[0], background(&style));
    assert_eq!(
        list.ops[1],
        DrawOp::Text {
            area: area(),
            baseline_offset: -3,
            text: String::from("OK"),
            font: Font::Bold,
            fg: theme::fg(),
            bg: theme::green_dark(),
        }
    );
}

#[test]
fn a_bar_paints_its_buttons_from_left_to_right() {
    let mut bar = Button::cancel_confirm(Button::with_text("Cancel"), Button::with_text("OK"), 1);
    bar.place(rect(0, 0, 240, 240));
    let ops = paint(&mut bar);
    assert_eq!(ops.len(), 4);
    assert_eq!(ops[0], background(&theme::button_default().normal));
    assert!(matches!(&ops[1], DrawOp::Text { text, .. } if text == "Cancel"));
    assert!(matches!(&ops[2], DrawOp::RectFillRounded { area, .. } if *area == rect(123, 202, 240, 240)));
    assert!(matches!(&ops[3], DrawOp::Text { text, .. } if text == "OK"));
}

#[test]
fn a_split_paints_left_first() {
    let mut bar = Button::cancel_confirm_square(Button::with_text("x"), Button::with_text("OK"));
    bar.place(rect(0, 0, 240, 240));
    let ops = paint(&mut bar);
    assert_eq!(ops.len(), 4);
    assert!(matches!(&ops[1], DrawOp::Text { text, .. } if text == "x"));
    assert!(matches!(&ops[3], DrawOp::Text { text, .. } if text == "OK"));
}

#[test]
fn painting_appends_and_changes_nothing() {
    let mut button = Button::with_text("OK");
    button.place(area());
    let mut list = DisplayList::new();
    button.paint(&mut list);
    button.paint(&mut list);
    assert_eq!(list.len(), 4);
    assert_eq!(list.ops[0], list.ops[2]);
    assert_eq!(list.ops[1], list.ops[3]);
    assert_eq!(button.area(), area());
}

#[test]
fn text_baseline_centres_the_text() {
    // Centre (58, 221); half of -40 is -20, half of 17 is 8, and 3 up.
    assert_eq!(text_baseline(area(), Offset::new(40, 17), -3), Some(Point::new(38, 226)));
    // Halves are rounded towards zero: -41 / 2 = -20.
    assert_eq!(text_baseline(area(), Offset::new(41, 16), 0), Some(Point::new(38, 229)));
    assert_eq!(text_baseline(rect(0, 0, 0, 0), Offset::new(0, 0), 0), Some(Point::new(0, 0)));
}

#[test]
fn text_baseline_off_the_plane_is_none() {
    let far = rect(i16::MAX, i16::MAX, i16::MAX, i16::MAX);
    assert_eq!(text_baseline(far, Offset::new(0, 10), 0), None);
    assert_eq!(text_baseline(far, Offset::new(0, 0), 1), Some(Point::new(32766, 32767)));
    assert_eq!(text_baseline(far, Offset::new(0, 0), 2), None);
    assert_eq!(text_baseline(far, Offset::new(0, 0), 0), Some(Point::new(32766, 32766)));
    let near = rect(i16::MIN, 0, i16::MIN, 0);
    assert_eq!(text_baseline(near, Offset::new(10, 0), 0), None);
}

#[test]
fn icon_text_layout_with_room_for_both() {
    // 117 wide; a text of 60 needs 46 + 6 + 60 = 112 < 117.
    assert_eq!(
        IconText::layout(area(), Offset::new(60, 17), -3),
        Some(IconTextLayout { text: Some(Point::new(46, 226)), icon: Some(Point::new(25, 221)) })
    );
    // Exactly 46 + 6 + 65 = 117 is not enough for both.
    assert_eq!(
        IconText::layout(area(), Offset::new(65, 17), -3),
        Some(IconTextLayout { text: Some(Point::new(26, 226)), icon: None })
    );
    assert_eq!(
        IconText::layout(area(), Offset::new(64, 17), -3),
        Some(IconTextLayout { text: Some(Point::new(46, 226)), icon: Some(Point::new(25, 221)) })
    );
}

#[test]
fn icon_text_layout_with_room_for_the_text_only() {
    // A text of 100 needs 106 < 117 alone.
    assert_eq!(
        IconText::layout(area(), Offset::new(100, 17), -3),
        Some(IconTextLayout { text: Some(Point::new(8, 226)), icon: None })
    );
    assert_eq!(
        IconText::layout(area(), Offset::new(110, 17), -3),
        Some(IconTextLayout { text: Some(Point::new(3, 226)), icon: None })
    );
}

#[test]
fn icon_text_layout_falls_back_to_the_icon() {
    // 111 + 6 = 117 is not less than the width.
    assert_eq!(
        IconText::layout(area(), Offset::new(111, 17), -3),
        Some(IconTextLayout { text: None, icon: Some(Point::new(58, 221)) })
    );
    assert_eq!(
        IconText::layout(Rect::zero(), Offset::new(0, 0), 0),
        Some(IconTextLayout { text: None, icon: Some(Point::zero()) })
    );
}

#[test]
fn icon_text_layout_off_the_plane_is_none() {
    let far = rect(32700, 32700, 32767, 32767);
    assert_eq!(IconText::layout(far, Offset::new(10, 200), 0), None);
    assert_eq!(IconText::layout(rect(32730, 0, 32767, 10), Offset::new(-100, 0), 0), None);
}

#[test]
fn icon_text_paint_asks_for_the_pair() {
    let pair = IconText::new("Hold", Icon::new(3));
    let style = theme::button_cancel().normal;
    let mut list = DisplayList::new();
    pair.paint(area(), &style, 5, &mut list);
    assert_eq!(
        list.ops,
        vec![DrawOp::IconText {
            area: area(),
            baseline_offset: 5,
            text: String::from("Hold"),
            icon: Icon::new(3),
            font: Font::Bold,
            fg: theme::fg(),
            bg: theme::red(),
        }]
    );
}
