use touch_ui::button::{Button, ButtonMsg, OnClick, State};
use touch_ui::component::{Component, Event, EventCtx, TouchEvent};
use touch_ui::geometry::{
    Alignment, Grid, GridCellSpan, Offset, Point, Rect, BOTTOM_LEFT, BOTTOM_RIGHT, CENTER,
    TOP_LEFT, TOP_RIGHT,
};
use touch_ui::msg_map::{ByFn, MsgMap};
use touch_ui::placed::{FixedHeightBar, Floating, GridPlaced, VSplit};

fn rect(x0: i16, y0: i16, x1: i16, y1: i16) -> Rect {
    Rect::new(Point::new(x0, y0), Point::new(x1, y1))
}

fn screen() -> Rect {
    rect(0, 0, 240, 240)
}

fn start(x: i16, y: i16) -> Event {
    Event::Touch(TouchEvent::TouchStart(Point::new(x, y)))
}

fn moved(x: i16, y: i16) -> Event {
    Event::Touch(TouchEvent::TouchMove(Point::new(x, y)))
}

fn end(x: i16, y: i16) -> Event {
    Event::Touch(TouchEvent::TouchEnd(Point::new(x, y)))
}

#[test]
fn grid_placed_starts_without_a_grid() {
    let placed = GridPlaced::new(Button::with_text("a"));
    assert_eq!(placed.grid, Grid { rows: 0, cols: 0, spacing: 0, area: Rect::zero() });
    assert_eq!(placed.cells, GridCellSpan { from: (0, 0), to: (0, 0) });
    assert!(!placed.can_place(screen()));
}

#[test]
fn grid_placed_builders() {
    let placed = GridPlaced::new(Button::with_text("a"))
        .with_grid(2, 3)
        .with_spacing(6)
        .with_row_col(1, 2);
    assert_eq!(placed.grid, Grid { rows: 2, cols: 3, spacing: 6, area: Rect::zero() });
    assert_eq!(placed.cells, GridCellSpan { from: (1, 2), to: (1, 2) });
    let placed = placed.with_from_to((0, 1), (1, 2));
    assert_eq!(placed.cells, GridCellSpan { from: (0, 1), to: (1, 2) });
}

#[test]
fn grid_placed_puts_the_component_into_its_cells() {
    let mut placed = GridPlaced::new(Button::with_text("a"))
        .with_grid(2, 3)
        .with_spacing(5)
        .with_from_to((1, 1), (1, 2));
    let bounds = rect(10, 10, 110, 92);
    assert!(placed.can_place(bounds));
    assert_eq!(placed.place(bounds), rect(45, 53, 110, 91));
    assert_eq!(placed.inner.area(), rect(45, 53, 110, 91));
    assert_eq!(placed.grid.area, bounds);
}

#[test]
fn grid_placed_refuses_cells_outside_the_grid() {
    let placed = GridPlaced::new(Button::with_text("a")).with_grid(1, 2).with_row_col(0, 2);
    assert!(!placed.can_place(screen()));
    let placed = GridPlaced::new(Button::with_text("a")).with_grid(1, 2).with_row_col(1, 0);
    assert!(!placed.can_place(screen()));
    let placed = GridPlaced::new(Button::with_text("a")).with_grid(1, 2).with_spacing(-1);
    assert!(!placed.can_place(screen()));
    let placed = GridPlaced::new(Button::with_text("a")).with_grid(1, 3).with_spacing(6);
    assert!(!placed.can_place(rect(0, 0, 11, 10)));
    assert!(placed.can_place(rect(0, 0, 12, 10)));
}

#[test]
fn grid_placed_passes_events_on() {
    let mut placed = GridPlaced::new(Button::with_text("a")).with_grid(1, 2).with_row_col(0, 1);
    placed.place(screen());
    let mut ctx = EventCtx::new();
    assert_eq!(placed.event(&mut ctx, start(10, 10)), None);
    assert_eq!(placed.event(&mut ctx, start(130, 10)), Some(ButtonMsg::Pressed));
    assert_eq!(placed.event(&mut ctx, end(130, 10)), Some(ButtonMsg::Clicked));
}

#[test]
fn fixed_height_bar_takes_the_bottom_strip() {
    let mut bar = FixedHeightBar::bottom(Button::with_text("a"), 38);
    assert_eq!(bar.height, 38);
    assert_eq!(bar.place(screen()), rect(0, 202, 240, 240));
    assert_eq!(bar.inner.area(), rect(0, 202, 240, 240));
}

#[test]
fn fixed_height_bar_higher_than_the_bounds_takes_them_all() {
    let mut bar = FixedHeightBar::bottom(Button::with_text("a"), 300);
    assert_eq!(bar.place(screen()), screen());
    let mut bar = FixedHeightBar::bottom(Button::with_text("a"), -5);
    assert_eq!(bar.place(screen()), rect(0, 240, 240, 240));
}

#[test]
fn floating_in_each_corner() {
    let size = Offset::new(32, 20);
    let border = Offset::new(8, 4);
    let mut f = Floating::new(size, border, TOP_LEFT, Button::with_text("a"));
    assert_eq!(f.place(screen()), rect(8, 4, 40, 24));
    let mut f = Floating::new(size, border, TOP_RIGHT, Button::with_text("a"));
    assert_eq!(f.place(screen()), rect(200, 4, 232, 24));
    let mut f = Floating::new(size, border, BOTTOM_LEFT, Button::with_text("a"));
    assert_eq!(f.place(screen()), rect(8, 216, 40, 236));
    let mut f = Floating::new(size, border, BOTTOM_RIGHT, Button::with_text("a"));
    assert_eq!(f.place(screen()), rect(200, 216, 232, 236));
    assert_eq!(f.inner.area(), rect(200, 216, 232, 236));
}

#[test]
fn floating_top_right_is_a_square() {
    let mut f = Floating::top_right(32, 8, Button::with_text("a"));
    assert_eq!(f.size, Offset::uniform(32));
    assert_eq!(f.border, Offset::uniform(8));
    assert_eq!(f.align, TOP_RIGHT);
    assert!(f.can_place(screen()));
    assert_eq!(f.place(screen()), rect(200, 8, 232, 40));
}

#[test]
fn floating_in_the_centre_cannot_be_placed() {
    let f = Floating::new(Offset::uniform(10), Offset::zero(), CENTER, Button::with_text("a"));
    assert!(!f.can_place(screen()));
    let f = Floating::new(
        Offset::uniform(10),
        Offset::zero(),
        (Alignment::Start, Alignment::Center),
        Button::with_text("a"),
    );
    assert!(!f.can_place(screen()));
    let f = Floating::new(
        Offset::uniform(10),
        Offset::zero(),
        (Alignment::Center, Alignment::End),
        Button::with_text("a"),
    );
    assert!(!f.can_place(screen()));
}

#[test]
fn floating_off_the_plane_cannot_be_placed() {
    let f = Floating::new(Offset::uniform(10), Offset::uniform(100), TOP_LEFT, Button::with_text("a"));
    assert!(!f.can_place(rect(32700, 0, 32767, 50)));
    assert!(f.can_place(rect(32600, 0, 32650, 50)));
    let f = Floating::new(Offset::uniform(10), Offset::uniform(i16::MIN), BOTTOM_RIGHT, Button::with_text("a"));
    assert!(!f.can_place(screen()));
}

#[test]
fn vsplit_places_left_and_right() {
    let mut split = VSplit::new(38, 6, Button::with_text("a"), Button::with_text("b"));
    assert!(split.can_place(rect(0, 202, 240, 240)));
    assert_eq!(split.place(rect(0, 202, 240, 240)), rect(0, 202, 240, 240));
    assert_eq!(split.first.area(), rect(0, 202, 38, 240));
    assert_eq!(split.second.area(), rect(44, 202, 240, 240));
}

#[test]
fn vsplit_off_the_plane_cannot_be_placed() {
    let split = VSplit::new(10, 100, Button::with_text("a"), Button::with_text("b"));
    assert!(!split.can_place(rect(32700, 0, 32767, 10)));
}

#[test]
fn vsplit_asks_the_left_child_first() {
    // Both buttons are given areas that overlap, so both could answer.
    let left = MsgMap::new(Button::with_text("a").with_expanded_touch_area(touch_ui::geometry::Insets::uniform(300)), OnClick { out: 1u8 });
    let right = MsgMap::new(Button::with_text("b").with_expanded_touch_area(touch_ui::geometry::Insets::uniform(300)), OnClick { out: 2u8 });
    let mut split = VSplit::new(38, 6, left, right);
    split.place(screen());
    let mut ctx = EventCtx::new();
    assert_eq!(split.event(&mut ctx, start(100, 100)), None);
    assert_eq!(split.first.inner.state, State::Pressed);
    assert_eq!(split.second.inner.state, State::Pressed);
    assert_eq!(split.event(&mut ctx, end(100, 100)), Some(1));
    assert_eq!(split.first.inner.state, State::Initial);
    // The right child never saw the end of the touch.
    assert_eq!(split.second.inner.state, State::Pressed);
}

#[test]
fn vsplit_reaches_the_right_child_when_the_left_is_silent() {
    let mut split = VSplit::new(38, 6, Button::with_text("a"), Button::with_text("b"));
    split.place(screen());
    let mut ctx = EventCtx::new();
    assert_eq!(split.event(&mut ctx, start(100, 100)), Some(ButtonMsg::Pressed));
    assert_eq!(split.first.state, State::Initial);
    assert_eq!(split.second.state, State::Pressed);
    assert_eq!(split.event(&mut ctx, start(10, 100)), Some(ButtonMsg::Pressed));
    assert_eq!(split.first.state, State::Pressed);
}

#[test]
fn tuple_places_all_in_the_same_bounds_and_reports_their_union() {
    let a = GridPlaced::new(Button::with_text("a")).with_grid(1, 3).with_row_col(0, 0);
    let b = GridPlaced::new(Button::with_text("b")).with_grid(1, 3).with_row_col(0, 1);
    let mut pair = (a, b);
    assert!(pair.can_place(screen()));
    assert_eq!(pair.place(screen()), rect(0, 0, 160, 240));
    let c = GridPlaced::new(Button::with_text("c")).with_grid(2, 3).with_row_col(1, 2);
    let mut triple = (pair.0, pair.1, c);
    assert_eq!(triple.place(screen()), rect(0, 0, 240, 240));
    assert_eq!(triple.2.inner.area(), rect(160, 120, 240, 240));
}

#[test]
fn tuple_stops_at_the_first_outcome() {
    let mut triple = (
        GridPlaced::new(Button::with_text("a")).with_grid(1, 3).with_row_col(0, 0),
        GridPlaced::new(Button::with_text("b")).with_grid(1, 3).with_row_col(0, 1),
        GridPlaced::new(Button::with_text("c")).with_grid(1, 3).with_row_col(0, 2),
    );
    triple.place(screen());
    let mut ctx = EventCtx::new();
    assert_eq!(triple.event(&mut ctx, start(100, 10)), Some(ButtonMsg::Pressed));
    assert_eq!(triple.0.inner.state, State::Initial);
    assert_eq!(triple.1.inner.state, State::Pressed);
    assert_eq!(triple.2.inner.state, State::Initial);
    assert_eq!(triple.event(&mut ctx, start(200, 10)), Some(ButtonMsg::Pressed));
    assert_eq!(triple.2.inner.state, State::Pressed);
    assert_eq!(triple.event(&mut ctx, moved(10, 10)), Some(ButtonMsg::Released));
    assert_eq!(triple.1.inner.state, State::Released);
    // The third button is still pressed: the second one answered first.
    assert_eq!(triple.2.inner.state, State::Pressed);
}

#[test]
fn combinators_report_no_bounds_of_their_own() {
    let mut bar = FixedHeightBar::bottom(Button::with_text("a"), 38);
    bar.place(screen());
    let mut sink = vec![screen()];
    bar.bounds(&mut sink);
    assert_eq!(sink, vec![screen()]);
}

#[test]
fn map_translates_only_what_the_function_keeps() {
    let mut map = MsgMap::new(Button::with_text("OK"), OnClick { out: "done" });
    map.place(rect(0, 0, 100, 40));
    let mut ctx = EventCtx::new();
    assert_eq!(map.event(&mut ctx, start(10, 10)), None);
    assert_eq!(map.inner.state, State::Pressed);
    assert!(ctx.is_paint_requested());
    assert_eq!(map.event(&mut ctx, moved(200, 200)), None);
    assert_eq!(map.inner.state, State::Released);
    assert_eq!(map.event(&mut ctx, end(200, 200)), None);
    assert_eq!(map.event(&mut ctx, start(10, 10)), None);
    assert_eq!(map.event(&mut ctx, moved(20, 20)), None);
    assert_eq!(map.event(&mut ctx, end(10, 10)), Some("done"));
    assert_eq!(map.inner.state, State::Initial);
}

#[test]
fn map_by_closure() {
    let double = |msg: ButtonMsg| match msg {
        ButtonMsg::Pressed => Some(1u8),
        ButtonMsg::Clicked => Some(2u8),
        _ => None,
    };
    let mut map = MsgMap::new(Button::with_text("OK"), ByFn(double));
    assert_eq!(map.place(rect(0, 0, 100, 40)), rect(0, 0, 100, 40));
    let mut ctx = EventCtx::new();
    assert_eq!(map.event(&mut ctx, start(10, 10)), Some(1));
    assert_eq!(map.event(&mut ctx, moved(200, 10)), None);
    assert_eq!(map.event(&mut ctx, start(10, 10)), Some(1));
    assert_eq!(map.event(&mut ctx, end(10, 10)), Some(2));
}

#[test]
fn placing_twice_gives_the_same_layout() {
    let mut once = Button::cancel_info_confirm("Yes", "More");
    let mut twice = Button::cancel_info_confirm("Yes", "More");
    let first = once.place(screen());
    twice.place(screen());
    let second = twice.place(screen());
    assert_eq!(first, second);
    assert_eq!(once.inner.0.inner.inner.area(), twice.inner.0.inner.inner.area());
    assert_eq!(once.inner.1.inner.inner.area(), twice.inner.1.inner.inner.area());
    assert_eq!(once.inner.2.inner.inner.area(), twice.inner.2.inner.inner.area());
    assert_eq!(once.inner.0.inner.grid, twice.inner.0.inner.grid);
}

#[test]
fn placing_elsewhere_forgets_the_old_place() {
    let mut moved_once = Button::cancel_confirm(Button::with_text("a"), Button::with_text("b"), 1);
    let mut fresh = Button::cancel_confirm(Button::with_text("a"), Button::with_text("b"), 1);
    moved_once.place(rect(0, 0, 100, 100));
    moved_once.place(screen());
    fresh.place(screen());
    assert_eq!(moved_once.inner.0.inner.inner.area(), fresh.inner.0.inner.inner.area());
    assert_eq!(moved_once.inner.1.inner.inner.area(), fresh.inner.1.inner.inner.area());
}
