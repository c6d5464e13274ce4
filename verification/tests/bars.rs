use touch_ui::button::{
    Button, ButtonContent, ButtonMsg, CancelConfirmMsg, CancelInfoConfirmMsg, FloatingButton,
    FloatingButtonMsg, SelectWordMsg, State,
};
use touch_ui::component::{Component, Event, EventCtx, TouchEvent};
use touch_ui::display::Icon;
use touch_ui::geometry::{Grid, GridCellSpan, Point, Rect};
use touch_ui::theme;

fn rect(x0: i16, y0: i16, x1: i16, y1: i16) -> Rect {
    Rect::new(Point::new(x0, y0), Point::new(x1, y1))
}

fn screen() -> Rect {
    rect(0, 0, 240, 240)
}

fn start(p: Point) -> Event {
    Event::Touch(TouchEvent::TouchStart(p))
}

fn end(p: Point) -> Event {
    Event::Touch(TouchEvent::TouchEnd(p))
}

fn click<C: Component>(c: &mut C, p: Point) -> Option<C::Msg> {
    let mut ctx = EventCtx::new();
    let first = c.event(&mut ctx, start(p));
    assert!(first.is_none());
    c.event(&mut ctx, end(p))
}

#[test]
fn cancel_confirm_bar_end_to_end() {
    let mut bar = Button::cancel_confirm(Button::with_text("Cancel"), Button::with_text("OK"), 1);
    assert!(bar.can_place(screen()));
    bar.place(screen());
    let cancel = bar.inner.0.inner.inner.area();
    let ok = bar.inner.1.inner.inner.area();
    assert_eq!(cancel, rect(0, 202, 117, 240));
    assert_eq!(ok, rect(123, 202, 240, 240));
    assert_eq!(ok.center(), Point::new(181, 221));
    assert_eq!(click(&mut bar, ok.center()), Some(CancelConfirmMsg::Confirmed));
    assert_eq!(click(&mut bar, cancel.center()), Some(CancelConfirmMsg::Cancelled));
}

#[test]
fn cancel_confirm_bar_between_and_above_the_buttons() {
    let mut bar = Button::cancel_confirm(Button::with_text("Cancel"), Button::with_text("OK"), 1);
    bar.place(screen());
    assert_eq!(click(&mut bar, Point::new(120, 220)), None);
    assert_eq!(click(&mut bar, Point::new(60, 100)), None);
    // Pressing one button and lifting on the other is no click.
    let mut ctx = EventCtx::new();
    assert_eq!(bar.event(&mut ctx, start(Point::new(60, 220))), None);
    assert_eq!(bar.inner.0.inner.inner.state, State::Pressed);
    assert_eq!(bar.event(&mut ctx, end(Point::new(180, 220))), None);
    assert_eq!(bar.inner.0.inner.inner.state, State::Initial);
}

#[test]
fn cancel_confirm_with_a_wider_right_button() {
    let mut bar = Button::cancel_confirm(Button::with_text("No"), Button::with_text("Yes"), 2);
    assert_eq!(bar.height, theme::BUTTON_HEIGHT);
    assert_eq!(
        bar.inner.0.inner.grid,
        Grid { rows: 1, cols: 3, spacing: theme::BUTTON_SPACING, area: Rect::zero() }
    );
    assert_eq!(bar.inner.0.inner.cells, GridCellSpan { from: (0, 0), to: (0, 0) });
    assert_eq!(bar.inner.1.inner.cells, GridCellSpan { from: (0, 1), to: (0, 2) });
    bar.place(screen());
    // (240 - 12) / 3 = 76 for each column.
    assert_eq!(bar.inner.0.inner.inner.area(), rect(0, 202, 76, 240));
    assert_eq!(bar.inner.1.inner.inner.area(), rect(82, 202, 240, 240));
}

#[test]
fn cancel_confirm_without_columns_for_the_right_button_cannot_be_placed() {
    let bar = Button::cancel_confirm(Button::with_text("No"), Button::with_text("Yes"), 0);
    assert!(!bar.can_place(screen()));
}

#[test]
fn cancel_confirm_text_with_both_texts() {
    let mut bar = Button::cancel_confirm_text(Some("BACK"), "NEXT");
    assert_eq!(*bar.inner.0.inner.inner.content(), ButtonContent::Text("BACK"));
    assert_eq!(*bar.inner.1.inner.inner.content(), ButtonContent::Text("NEXT"));
    assert_eq!(bar.inner.0.inner.inner.styles, theme::button_default());
    assert_eq!(bar.inner.1.inner.inner.styles, theme::button_confirm());
    assert_eq!(bar.inner.0.inner.grid.cols, 2);
    bar.place(screen());
    assert_eq!(bar.inner.1.inner.inner.area(), rect(123, 202, 240, 240));
}

#[test]
fn cancel_confirm_text_without_a_text_to_cancel() {
    let mut bar = Button::cancel_confirm_text(None, "CONFIRM");
    assert_eq!(
        *bar.inner.0.inner.inner.content(),
        ButtonContent::Icon(Icon::new(theme::ICON_CANCEL))
    );
    assert_eq!(bar.inner.0.inner.grid.cols, 3);
    assert_eq!(bar.inner.1.inner.cells, GridCellSpan { from: (0, 1), to: (0, 2) });
    bar.place(screen());
    assert_eq!(click(&mut bar, Point::new(10, 210)), Some(CancelConfirmMsg::Cancelled));
    assert_eq!(click(&mut bar, Point::new(100, 210)), Some(CancelConfirmMsg::Confirmed));
}

#[test]
fn cancel_confirm_square_clicks() {
    let mut bar = Button::cancel_confirm_square(Button::with_text("x"), Button::with_text("OK"));
    bar.place(screen());
    assert_eq!(bar.inner.first.inner.area(), rect(0, 202, 38, 240));
    assert_eq!(bar.inner.second.inner.area(), rect(44, 202, 240, 240));
    // A click inside the left button is for the left button alone.
    let mut ctx = EventCtx::new();
    assert_eq!(bar.event(&mut ctx, start(Point::new(19, 221))), None);
    assert_eq!(bar.inner.second.inner.state, State::Initial);
    assert_eq!(bar.event(&mut ctx, end(Point::new(19, 221))), Some(CancelConfirmMsg::Cancelled));
    assert_eq!(bar.inner.second.inner.state, State::Initial);
    assert_eq!(click(&mut bar, Point::new(142, 221)), Some(CancelConfirmMsg::Confirmed));
    assert_eq!(click(&mut bar, Point::new(40, 221)), None);
}

#[test]
fn cancel_info_confirm_layout_and_clicks() {
    let mut bar = Button::cancel_info_confirm("CONFIRM", "INFO");
    assert_eq!(bar.height, 82);
    bar.place(screen());
    // Two rows of 38 with 6 between, three columns of 76 with 6 between.
    assert_eq!(bar.inner.0.inner.inner.area(), rect(0, 202, 76, 240));
    assert_eq!(bar.inner.1.inner.inner.area(), rect(0, 158, 240, 196));
    assert_eq!(bar.inner.2.inner.inner.area(), rect(82, 202, 240, 240));
    assert_eq!(*bar.inner.1.inner.inner.content(), ButtonContent::Text("INFO"));
    assert_eq!(*bar.inner.2.inner.inner.content(), ButtonContent::Text("CONFIRM"));
    assert_eq!(bar.inner.2.inner.inner.styles, theme::button_confirm());
    assert_eq!(click(&mut bar, Point::new(10, 210)), Some(CancelInfoConfirmMsg::Cancelled));
    assert_eq!(click(&mut bar, Point::new(200, 170)), Some(CancelInfoConfirmMsg::Info));
    assert_eq!(click(&mut bar, Point::new(200, 210)), Some(CancelInfoConfirmMsg::Confirmed));
    assert_eq!(click(&mut bar, Point::new(200, 198)), None);
}

#[test]
fn abort_info_enter_layout_and_clicks() {
    let mut bar = Button::abort_info_enter();
    assert_eq!(bar.height, 38);
    assert_eq!(bar.inner.0.inner.inner.styles, theme::button_cancel());
    assert_eq!(bar.inner.1.inner.inner.styles, theme::button_default());
    assert_eq!(bar.inner.2.inner.inner.styles, theme::button_confirm());
    bar.place(screen());
    assert_eq!(bar.inner.0.inner.inner.area(), rect(0, 202, 76, 240));
    assert_eq!(bar.inner.1.inner.inner.area(), rect(82, 202, 158, 240));
    assert_eq!(bar.inner.2.inner.inner.area(), rect(164, 202, 240, 240));
    assert_eq!(click(&mut bar, Point::new(10, 210)), Some(CancelInfoConfirmMsg::Cancelled));
    assert_eq!(click(&mut bar, Point::new(100, 210)), Some(CancelInfoConfirmMsg::Info));
    assert_eq!(click(&mut bar, Point::new(200, 210)), Some(CancelInfoConfirmMsg::Confirmed));
}

#[test]
fn select_word_reports_the_row() {
    let mut bar = Button::select_word(["one", "two", "three"]);
    assert_eq!(bar.height, 126);
    bar.place(screen());
    assert_eq!(bar.inner.0.inner.inner.area(), rect(0, 114, 240, 152));
    assert_eq!(bar.inner.1.inner.inner.area(), rect(0, 158, 240, 196));
    assert_eq!(bar.inner.2.inner.inner.area(), rect(0, 202, 240, 240));
    assert_eq!(*bar.inner.0.inner.inner.content(), ButtonContent::Text("one"));
    assert_eq!(*bar.inner.2.inner.inner.content(), ButtonContent::Text("three"));
    assert_eq!(click(&mut bar, Point::new(100, 120)), Some(SelectWordMsg::Selected(0)));
    assert_eq!(click(&mut bar, Point::new(100, 160)), Some(SelectWordMsg::Selected(1)));
    assert_eq!(click(&mut bar, Point::new(100, 239)), Some(SelectWordMsg::Selected(2)));
}

#[test]
fn floating_button_sits_in_the_top_right_corner() {
    let mut page = FloatingButton::top_right_corner(Icon::new(theme::ICON_INFO_CIRCLE), Button::with_text("page"));
    assert!(page.can_place(screen()));
    assert_eq!(page.place(screen()), screen());
    assert_eq!(page.button.inner.area(), rect(200, 8, 232, 40));
    assert_eq!(page.inner().area(), screen());
    assert_eq!(
        *page.button.inner.content(),
        ButtonContent::Icon(Icon::new(theme::ICON_INFO_CIRCLE))
    );
    let mut sink = Vec::new();
    page.bounds(&mut sink);
    assert_eq!(sink, vec![screen()]);
}

#[test]
fn floating_button_click_wins_over_the_content() {
    let mut page = FloatingButton::top_right_corner(Icon::new(1), Button::with_text("page"));
    page.place(screen());
    let mut ctx = EventCtx::new();
    // The press on the corner button is its own affair, so the event goes
    // on to the content, which is pressed as well.
    assert_eq!(
        page.event(&mut ctx, start(Point::new(210, 20))),
        Some(FloatingButtonMsg::Content(ButtonMsg::Pressed))
    );
    assert_eq!(page.button.inner.state, State::Pressed);
    assert_eq!(page.inner.state, State::Pressed);
    assert_eq!(page.event(&mut ctx, end(Point::new(210, 20))), Some(FloatingButtonMsg::ButtonClicked));
    // The content did not see the end of the touch.
    assert_eq!(page.inner.state, State::Pressed);
}

#[test]
fn floating_button_passes_other_touches_to_the_content() {
    let mut page = FloatingButton::top_right_corner(Icon::new(1), Button::with_text("page"));
    page.place(screen());
    let mut ctx = EventCtx::new();
    assert_eq!(
        page.event(&mut ctx, start(Point::new(100, 100))),
        Some(FloatingButtonMsg::Content(ButtonMsg::Pressed))
    );
    assert_eq!(page.button.inner.state, State::Initial);
    assert_eq!(
        page.event(&mut ctx, end(Point::new(100, 100))),
        Some(FloatingButtonMsg::Content(ButtonMsg::Clicked))
    );
}
