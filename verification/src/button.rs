//! The button: a rectangle that reacts to touch, with a text or an icon on
//! it, and the ready-made groups of buttons built from it.
//!
//! A button is in one of four states. Touch events and its own timer move
//! it between the three enabled ones; only `enable` and `disable` lead out
//! of and into the fourth.
use vstd::prelude::*;
use crate::component::{
    Component,
    Duration,
    Event,
    EventCtx,
    EventCtxView,
    TimerToken,
    TouchEvent,
};
use crate::display::{
    baseline_start,
    same_text,
    Color,
    DisplayList,
    DrawOp,
    DrawOpView,
    Font,
    Icon,
    Label,
};
use crate::geometry::{
    in_i16,
    Alignment,
    Grid,
    GridCellSpan,
    Insets,
    Offset,
    Point,
    Rect,
    TOP_RIGHT,
};
use crate::msg_map::{MsgMap, Translation};
use crate::placed::{FixedHeightBar, Floating, GridPlaced, VSplit};
use crate::theme;

verus! {

/// How far the baseline of a button's text lies below the place that would
/// centre the text: negative, so the text sits a little higher.
pub const BASELINE_OFFSET: i16 = -3;

/// What a button reports.
#[derive(Clone, Copy, Debug, PartialEq, Eq, Structural)]
pub enum ButtonMsg {
    /// A touch has started on the button.
    Pressed,
    /// The finger has left the button without being lifted.
    Released,
    /// The finger was lifted on the button.
    Clicked,
    /// The button was held for the time of a long press.
    LongPressed,
}

/// The state of a button.
#[derive(Clone, Copy, Debug, PartialEq, Eq, Structural)]
pub enum State {
    /// At rest.
    Initial,
    /// Touched, the finger on the button.
    Pressed,
    /// Touched, the finger moved off the button.
    Released,
    /// Deaf to touch.
    Disabled,
}

/// How a button looks in one state.
#[derive(Clone, Copy, Debug, PartialEq, Eq, Structural)]
pub struct ButtonStyle {
    pub font: Font,
    pub text_color: Color,
    pub button_color: Color,
    pub background_color: Color,
    pub border_color: Color,
    pub border_radius: u8,
    pub border_width: i16,
}

/// How a button looks at rest, while pressed and while disabled.
#[derive(Clone, Copy, Debug, PartialEq, Eq, Structural)]
pub struct ButtonStyleSheet {
    pub normal: ButtonStyle,
    pub active: ButtonStyle,
    pub disabled: ButtonStyle,
}

/// Whether a button with this style can be painted in `area`: the inside of
/// its border, if it has one, is a rectangle on the `i16` plane.
pub open spec fn border_fits(area: Rect, style: ButtonStyle) -> bool {
    style.border_width > 0 ==> area.can_inset(
        Insets {
            top: style.border_width,
            right: style.border_width,
            bottom: style.border_width,
            left: style.border_width,
        },
    )
}

/// Whether a button with these styles can be painted in `area` in every
/// state.
pub open spec fn borders_fit(area: Rect, styles: ButtonStyleSheet) -> bool {
    &&& border_fits(area, styles.normal)
    &&& border_fits(area, styles.active)
    &&& border_fits(area, styles.disabled)
}

fn check_border(area: Rect, style: &ButtonStyle) -> (ok: bool)
    ensures
        ok == border_fits(area, *style),
{
    if style.border_width > 0 {
        let width: i32 = style.border_width as i32;
        area.x0 as i32 + width <= 32767 && area.y0 as i32 + width <= 32767 && area.x1 as i32
            - width >= -32768 && area.y1 as i32 - width >= -32768
    } else {
        true
    }
}

/// Whether a button with these styles can be painted in `area` in every
/// state.
pub fn check_borders(area: Rect, styles: &ButtonStyleSheet) -> (ok: bool)
    ensures
        ok == borders_fit(area, *styles),
{
    check_border(area, &styles.normal) && check_border(area, &styles.active) && check_border(
        area,
        &styles.disabled,
    )
}

/// An icon with a text beside it.
#[derive(Clone, Copy, Debug, PartialEq, Eq)]
pub struct IconText {
    pub text: &'static str,
    pub icon: Icon,
}

/// Where the parts of an icon with text go. A part that is `None` is not
/// shown.
#[derive(Clone, Copy, Debug, PartialEq, Eq)]
pub struct IconTextLayout {
    /// The start of the text's baseline.
    pub text: Option<Point>,
    /// The centre of the icon.
    pub icon: Option<Point>,
}

/// The width kept for the icon at the left of the area.
pub const ICON_SPACE: i16 = 46;

/// The margin of the icon within its space.
pub const ICON_MARGIN: i16 = 4;

/// The room that a text needs beyond its own width.
pub const TEXT_MARGIN: i16 = 6;

/// A position with integer coordinates, or nothing.
pub type Spot = Option<(int, int)>;

impl IconText {
    pub fn new(text: &'static str, icon: Icon) -> (r: Self)
        ensures
            r.text == text,
            r.icon == icon,
    {
        IconText { text, icon }
    }

    /// Whether `area` has room for the icon and, beside it, a text of the
    /// measured `width`.
    pub open spec fn both_fit(area: Rect, width: int) -> bool {
        area.spec_width() > ICON_SPACE + TEXT_MARGIN + width
    }

    /// Whether `area` has room for a text of the measured `width` alone.
    pub open spec fn text_fits(area: Rect, width: int) -> bool {
        area.spec_width() > width + TEXT_MARGIN
    }

    /// Where the text goes, if it is shown. Beside the icon it starts right
    /// of the icon's space; alone it is centred. In either case its
    /// baseline is that of a centred text.
    pub open spec fn text_spot(area: Rect, size: Offset, baseline_offset: i16) -> Spot {
        let centred = baseline_start(area, size, baseline_offset);
        if Self::both_fit(area, size.x as int) {
            Some((area.x0 + ICON_SPACE, centred.1))
        } else if Self::text_fits(area, size.x as int) {
            Some(centred)
        } else {
            None
        }
    }

    /// Where the centre of the icon goes, if it is shown. Beside the text
    /// it sits in the middle of its space at the left; where not even the
    /// text fits, it takes the centre of the area.
    pub open spec fn icon_spot(area: Rect, size: Offset) -> Spot {
        if Self::both_fit(area, size.x as int) {
            Some((area.x0 + (ICON_SPACE + ICON_MARGIN) / 2, area.spec_center().y as int))
        } else if Self::text_fits(area, size.x as int) {
            None
        } else {
            Some((area.spec_center().x as int, area.spec_center().y as int))
        }
    }

    /// Whether a position, if there is one, is a `Point`.
    pub open spec fn spot_fits(spot: Spot) -> bool {
        spot matches Some((x, y)) ==> in_i16(x) && in_i16(y)
    }

    /// Whether `point` is the position `spot`.
    pub open spec fn is_spot(point: Option<Point>, spot: Spot) -> bool {
        match (point, spot) {
            (Some(p), Some((x, y))) => p.x == x && p.y == y,
            (None, None) => true,
            _ => false,
        }
    }

    fn to_point(x: i32, y: i32) -> (p: Option<Point>)
        ensures
            match p {
                Some(p) => p.x == x && p.y == y,
                None => !(in_i16(x as int) && in_i16(y as int)),
            },
    {
        if -32768 <= x && x <= 32767 && -32768 <= y && y <= 32767 {
            Some(Point { x: x as i16, y: y as i16 })
        } else {
            None
        }
    }

    /// Places the icon and the text in `area`, given the measured `size` of
    /// the text: both side by side where both fit, else the text alone
    /// where it fits, else the icon alone. Returns `None` where a part that
    /// is shown would lie off the `i16` plane.
    pub fn layout(area: Rect, size: Offset, baseline_offset: i16) -> (r: Option<IconTextLayout>)
        ensures
            match r {
                Some(places) => {
                    &&& Self::is_spot(places.text, Self::text_spot(area, size, baseline_offset))
                    &&& Self::is_spot(places.icon, Self::icon_spot(area, size))
                },
                None => !Self::spot_fits(Self::text_spot(area, size, baseline_offset))
                    || !Self::spot_fits(Self::icon_spot(area, size)),
            },
    {
        let width: i32 = size.x as i32;
        let room: i32 = area.x1 as i32 - area.x0 as i32;
        let center = area.center();
        let baseline: i32 = center.y as i32 + (size.y as i32) / 2 + baseline_offset as i32;
        if room > ICON_SPACE as i32 + TEXT_MARGIN as i32 + width {
            let text = Self::to_point(area.x0 as i32 + ICON_SPACE as i32, baseline);
            let icon = Self::to_point(
                area.x0 as i32 + (ICON_SPACE as i32 + ICON_MARGIN as i32) / 2,
                center.y as i32,
            );
            if text.is_some() && icon.is_some() {
                Some(IconTextLayout { text, icon })
            } else {
                None
            }
        } else if room > width + TEXT_MARGIN as i32 {
            let text = Self::to_point(center.x as i32 + (-width) / 2, baseline);
            if text.is_some() {
                Some(IconTextLayout { text, icon: None })
            } else {
                None
            }
        } else {
            Some(IconTextLayout { text: None, icon: Some(center) })
        }
    }

    /// What `paint` appends for this icon and text.
    pub open spec fn painted(&self, area: Rect, style: ButtonStyle, baseline_offset: i16)
        -> DrawOpView {
        DrawOpView::IconText {
            area,
            baseline_offset,
            text: self.text@,
            icon: self.icon,
            font: style.font,
            fg: style.text_color,
            bg: style.button_color,
        }
    }

    /// Asks for the icon and the text to be shown in `area`. Where they go
    /// is settled by `layout` once the text is measured.
    pub fn paint(&self, area: Rect, style: &ButtonStyle, baseline_offset: i16, out: &mut DisplayList)
        ensures
            final(out)@ == old(out)@.push(self.painted(area, *style, baseline_offset)),
    {
        out.push(
            DrawOp::IconText {
                area,
                baseline_offset,
                text: self.text.to_owned(),
                icon: self.icon,
                font: style.font,
                fg: style.text_color,
                bg: style.button_color,
            },
        );
    }
}

/// What is shown on a button.
#[derive(Debug, PartialEq, Eq)]
pub enum ButtonContent<T> {
    Empty,
    Text(T),
    Icon(Icon),
    IconAndText(IconText),
    /// Two icons, the second over the first and moved by the offset. A
    /// button with this content has no background.
    IconBlend(Icon, Icon, Offset),
}

/// The content of a button as a value of specifications: a text is the
/// sequence of its characters.
pub enum ButtonContentView {
    Empty,
    Text(Seq<char>),
    Icon(Icon),
    IconAndText(Seq<char>, Icon),
    IconBlend(Icon, Icon, Offset),
}

impl<T: Label> View for ButtonContent<T> {
    type V = ButtonContentView;

    open spec fn view(&self) -> ButtonContentView {
        match *self {
            ButtonContent::Empty => ButtonContentView::Empty,
            ButtonContent::Text(text) => ButtonContentView::Text(text.text()),
            ButtonContent::Icon(icon) => ButtonContentView::Icon(icon),
            ButtonContent::IconAndText(child) => ButtonContentView::IconAndText(
                child.text@,
                child.icon,
            ),
            ButtonContent::IconBlend(under, over, offset) => ButtonContentView::IconBlend(
                under,
                over,
                offset,
            ),
        }
    }
}

impl<T: Label> ButtonContent<T> {
    /// Whether two contents show the same.
    pub fn shows_same(&self, other: &ButtonContent<T>) -> (same: bool)
        ensures
            same == (self@ == other@),
    {
        match (self, other) {
            (ButtonContent::Empty, ButtonContent::Empty) => true,
            (ButtonContent::Text(a), ButtonContent::Text(b)) => same_text(a, b),
            (ButtonContent::Icon(a), ButtonContent::Icon(b)) => a.id == b.id,
            (ButtonContent::IconAndText(a), ButtonContent::IconAndText(b)) => {
                same_text(&a.text, &b.text) && a.icon.id == b.icon.id
            },
            (ButtonContent::IconBlend(a0, a1, a2), ButtonContent::IconBlend(b0, b1, b2)) => {
                a0.id == b0.id && a1.id == b1.id && a2.x == b2.x && a2.y == b2.y
            },
            _ => false,
        }
    }
}

/// A rectangle that reacts to touch.
pub struct Button<T> {
    /// Where the button was placed.
    pub area: Rect,
    /// By how much the area that reacts to touch exceeds the placed area.
    pub touch_expand: Option<Insets>,
    pub content: ButtonContent<T>,
    pub styles: ButtonStyleSheet,
    pub state: State,
    /// How long the button has to be held for a long press, if it reports
    /// long presses.
    pub long_press: Option<Duration>,
    /// The timer of the long press that may be under way.
    pub long_timer: Option<TimerToken>,
}

impl<T> Button<T> {
    /// An enabled button at rest, not yet placed, in the default style.
    pub open spec fn spec_new(content: ButtonContent<T>) -> Self {
        Button {
            content,
            area: Rect::spec_zero(),
            touch_expand: None,
            styles: theme::spec_button_default(),
            state: State::Initial,
            long_press: None,
            long_timer: None,
        }
    }

    pub fn new(content: ButtonContent<T>) -> (button: Self)
        ensures
            button == Self::spec_new(content),
    {
        Button {
            content,
            area: Rect::zero(),
            touch_expand: None,
            styles: theme::button_default(),
            state: State::Initial,
            long_press: None,
            long_timer: None,
        }
    }

    pub fn with_text(text: T) -> (button: Self)
        ensures
            button == Self::spec_new(ButtonContent::Text(text)),
    {
        Self::new(ButtonContent::Text(text))
    }

    pub fn with_icon(icon: Icon) -> (button: Self)
        ensures
            button == Self::spec_new(ButtonContent::Icon(icon)),
    {
        Self::new(ButtonContent::Icon(icon))
    }

    pub fn with_icon_and_text(content: IconText) -> (button: Self)
        ensures
            button == Self::spec_new(ButtonContent::IconAndText(content)),
    {
        Self::new(ButtonContent::IconAndText(content))
    }

    /// A button that shows `fg` over `bg`, `fg` moved by `fg_offset`.
    pub fn with_icon_blend(bg: Icon, fg: Icon, fg_offset: Offset) -> (button: Self)
        ensures
            button == Self::spec_new(ButtonContent::IconBlend(bg, fg, fg_offset)),
    {
        Self::new(ButtonContent::IconBlend(bg, fg, fg_offset))
    }

    pub fn empty() -> (button: Self)
        ensures
            button == Self::spec_new(ButtonContent::Empty),
    {
        Self::new(ButtonContent::Empty)
    }

    /// The button in other styles. Their borders have to fit the button's
    /// area; in a button that was not placed yet, every border does.
    pub fn styled(self, styles: ButtonStyleSheet) -> (button: Self)
        requires
            borders_fit(self.area, styles),
        ensures
            button == (Button { styles, ..self }),
    {
        let mut button = self;
        button.styles = styles;
        button
    }

    /// The button reacting to touch in its area and `expand` beyond it.
    pub fn with_expanded_touch_area(self, expand: Insets) -> (button: Self)
        ensures
            button == (Button { touch_expand: Some(expand), ..self }),
    {
        let mut button = self;
        button.touch_expand = Some(expand);
        button
    }

    /// The button reporting a long press when held for `duration`.
    pub fn with_long_press(self, duration: Duration) -> (button: Self)
        ensures
            button == (Button { long_press: Some(duration), ..self }),
    {
        let mut button = self;
        button.long_press = Some(duration);
        button
    }

    /// The button disabled from the start unless `enabled`.
    pub fn initially_enabled(self, enabled: bool) -> (button: Self)
        ensures
            button == (Button {
                state: if enabled {
                    self.state
                } else {
                    State::Disabled
                },
                ..self
            }),
    {
        let mut button = self;
        if !enabled {
            button.state = State::Disabled;
        }
        button
    }

    /// Moves the button to `state` and asks for a repaint if that is a
    /// change.
    fn set(&mut self, ctx: &mut EventCtx, state: State)
        ensures
            *final(self) == (Button { state, ..*old(self) }),
            final(ctx)@ == old(ctx)@.paint_if(old(self).state != state),
    {
        if self.state != state {
            self.state = state;
            ctx.request_paint();
        }
    }

    /// Puts the button at rest, whatever state it was in. A repaint is
    /// asked for if the state changes.
    pub fn enable(&mut self, ctx: &mut EventCtx)
        ensures
            *final(self) == (Button { state: State::Initial, ..*old(self) }),
            final(ctx)@ == old(ctx)@.paint_if(old(self).state != State::Initial),
    {
        self.set(ctx, State::Initial)
    }

    /// Makes the button deaf to touch. A repaint is asked for if the state
    /// changes.
    pub fn disable(&mut self, ctx: &mut EventCtx)
        ensures
            *final(self) == (Button { state: State::Disabled, ..*old(self) }),
            final(ctx)@ == old(ctx)@.paint_if(old(self).state != State::Disabled),
    {
        self.set(ctx, State::Disabled)
    }

    /// `enable` if `enabled`, else `disable`.
    pub fn enable_if(&mut self, ctx: &mut EventCtx, enabled: bool)
        ensures
            *final(self) == (Button {
                state: if enabled {
                    State::Initial
                } else {
                    State::Disabled
                },
                ..*old(self)
            }),
            final(ctx)@ == old(ctx)@.paint_if(
                old(self).state != (if enabled {
                    State::Initial
                } else {
                    State::Disabled
                }),
            ),
    {
        if enabled {
            self.enable(ctx);
        } else {
            self.disable(ctx);
        }
    }

    pub fn is_enabled(&self) -> (enabled: bool)
        ensures
            enabled == (self.state != State::Disabled),
    {
        match self.state {
            State::Initial | State::Pressed | State::Released => true,
            State::Disabled => false,
        }
    }

    pub fn is_disabled(&self) -> (disabled: bool)
        ensures
            disabled == (self.state == State::Disabled),
    {
        match self.state {
            State::Disabled => true,
            _ => false,
        }
    }

    pub fn content(&self) -> (content: &ButtonContent<T>)
        ensures
            *content == self.content,
    {
        &self.content
    }

    /// Replaces the styles, and asks for a repaint if they differ from the
    /// present ones.
    pub fn set_stylesheet(&mut self, ctx: &mut EventCtx, styles: ButtonStyleSheet)
        requires
            borders_fit(old(self).area, styles),
        ensures
            *final(self) == (Button { styles, ..*old(self) }),
            final(ctx)@ == old(ctx)@.paint_if(old(self).styles != styles),
    {
        if self.styles != styles {
            self.styles = styles;
            ctx.request_paint();
        }
    }

    /// The style in the present state: the active one while pressed, the
    /// disabled one while disabled, the normal one at rest and while
    /// released.
    pub open spec fn spec_style(&self) -> ButtonStyle {
        match self.state {
            State::Initial | State::Released => self.styles.normal,
            State::Pressed => self.styles.active,
            State::Disabled => self.styles.disabled,
        }
    }

    pub fn style(&self) -> (style: &ButtonStyle)
        ensures
            *style == self.spec_style(),
    {
        match self.state {
            State::Initial | State::Released => &self.styles.normal,
            State::Pressed => &self.styles.active,
            State::Disabled => &self.styles.disabled,
        }
    }

    pub fn area(&self) -> (area: Rect)
        ensures
            area == self.area,
    {
        self.area
    }

    /// Whether `pos` lies in the area that reacts to touch: the placed area,
    /// each edge moved outwards by the configured expansion.
    pub open spec fn touched(&self, pos: Point) -> bool {
        match self.touch_expand {
            Some(expand) => {
                &&& self.area.x0 - expand.left <= pos.x < self.area.x1 + expand.right
                &&& self.area.y0 - expand.top <= pos.y < self.area.y1 + expand.bottom
            },
            None => self.area.spec_contains(pos),
        }
    }

    /// Whether `pos` lies in the area that reacts to touch.
    pub fn is_touched(&self, pos: Point) -> (hit: bool)
        ensures
            hit == self.touched(pos),
    {
        match self.touch_expand {
            Some(expand) => {
                let x: i32 = pos.x as i32;
                let y: i32 = pos.y as i32;
                self.area.x0 as i32 - expand.left as i32 <= x && x < self.area.x1 as i32
                    + expand.right as i32 && self.area.y0 as i32 - expand.top as i32 <= y && y
                    < self.area.y1 as i32 + expand.bottom as i32
            },
            None => self.area.contains(pos),
        }
    }

    /// The state after `event`.
    ///
    /// A touch that starts on an enabled button presses it. A pressed
    /// button is released when the finger moves off it. Lifting the finger
    /// puts a pressed or released button at rest, and so does the button's
    /// own timer while it is pressed. Nothing else changes the state.
    pub open spec fn next_state(&self, event: Event) -> State {
        match event {
            Event::Touch(TouchEvent::TouchStart(pos)) => {
                if self.state != State::Disabled && self.touched(pos) {
                    State::Pressed
                } else {
                    self.state
                }
            },
            Event::Touch(TouchEvent::TouchMove(pos)) => {
                if self.state == State::Pressed && !self.touched(pos) {
                    State::Released
                } else {
                    self.state
                }
            },
            Event::Touch(TouchEvent::TouchEnd(_)) => {
                if self.state == State::Pressed || self.state == State::Released {
                    State::Initial
                } else {
                    self.state
                }
            },
            Event::Timer(token) => {
                if self.state == State::Pressed && self.long_timer == Some(token) {
                    State::Initial
                } else {
                    self.state
                }
            },
        }
    }

    /// What the button reports for `event`.
    ///
    /// `Pressed` for a touch that starts on an enabled button, `Released`
    /// when the finger moves off a pressed button, `Clicked` when it is
    /// lifted on a pressed button, `LongPressed` when the button's own
    /// timer fires while it is pressed, and nothing otherwise.
    pub open spec fn outcome(&self, event: Event) -> Option<ButtonMsg> {
        match event {
            Event::Touch(TouchEvent::TouchStart(pos)) => {
                if self.state != State::Disabled && self.touched(pos) {
                    Some(ButtonMsg::Pressed)
                } else {
                    None
                }
            },
            Event::Touch(TouchEvent::TouchMove(pos)) => {
                if self.state == State::Pressed && !self.touched(pos) {
                    Some(ButtonMsg::Released)
                } else {
                    None
                }
            },
            Event::Touch(TouchEvent::TouchEnd(pos)) => {
                if self.state == State::Pressed && self.touched(pos) {
                    Some(ButtonMsg::Clicked)
                } else {
                    None
                }
            },
            Event::Timer(token) => {
                if self.state == State::Pressed && self.long_timer == Some(token) {
                    Some(ButtonMsg::LongPressed)
                } else {
                    None
                }
            },
        }
    }

    /// The duration of the timer that `event` makes the button ask for: a
    /// touch that starts on an enabled button with a long press asks for
    /// one.
    pub open spec fn timer_wanted(&self, event: Event) -> Option<Duration> {
        match event {
            Event::Touch(TouchEvent::TouchStart(pos)) => {
                if self.state != State::Disabled && self.touched(pos) {
                    self.long_press
                } else {
                    None
                }
            },
            _ => None,
        }
    }

    /// The timer that the button waits for after `event`, where `upcoming`
    /// is the token that a timer asked for now would get.
    ///
    /// A new timer replaces the old one. The timer is forgotten when it
    /// fires, and when the finger is lifted off the button or after the
    /// button was released.
    pub open spec fn next_timer(&self, upcoming: TimerToken, event: Event) -> Option<TimerToken> {
        match event {
            Event::Touch(TouchEvent::TouchStart(_)) => {
                if self.timer_wanted(event) is Some {
                    Some(upcoming)
                } else {
                    self.long_timer
                }
            },
            Event::Touch(TouchEvent::TouchMove(_)) => self.long_timer,
            Event::Touch(TouchEvent::TouchEnd(pos)) => {
                if self.state == State::Released || (self.state == State::Pressed
                    && !self.touched(pos)) {
                    None
                } else {
                    self.long_timer
                }
            },
            Event::Timer(token) => {
                if self.long_timer == Some(token) {
                    None
                } else {
                    self.long_timer
                }
            },
        }
    }

    /// The button and the context after `event`, and what the button
    /// reports. A repaint is asked for exactly if the state changes.
    pub open spec fn reacted(&self, ctx: EventCtxView, event: Event) -> (
        Self,
        EventCtxView,
        Option<ButtonMsg>,
    ) {
        let painted = ctx.paint_if(self.next_state(event) != self.state);
        (
            Button {
                state: self.next_state(event),
                long_timer: self.next_timer(ctx.upcoming(), event),
                ..*self
            },
            match self.timer_wanted(event) {
                Some(duration) => painted.with_timer(duration),
                None => painted,
            },
            self.outcome(event),
        )
    }

    /// Whether the button waits for the timer with `token`.
    fn awaits(&self, token: TimerToken) -> (yes: bool)
        ensures
            yes == (self.long_timer == Some(token)),
    {
        match self.long_timer {
            Some(own) => own.0 == token.0,
            None => false,
        }
    }

    /// Hands one event to the button.
    pub fn react(&mut self, ctx: &mut EventCtx, event: Event) -> (msg: Option<ButtonMsg>)
        ensures
            (*final(self), final(ctx)@, msg) == old(self).reacted(old(ctx)@, event),
    {
        match event {
            Event::Touch(TouchEvent::TouchStart(pos)) => {
                match self.state {
                    State::Disabled => {},
                    _ => {
                        if self.is_touched(pos) {
                            self.set(ctx, State::Pressed);
                            match self.long_press {
                                Some(duration) => {
                                    self.long_timer = Some(ctx.request_timer(duration));
                                },
                                None => {},
                            }
                            return Some(ButtonMsg::Pressed);
                        }
                    },
                }
            },
            Event::Touch(TouchEvent::TouchMove(pos)) => {
                match self.state {
                    State::Pressed => {
                        if !self.is_touched(pos) {
                            self.set(ctx, State::Released);
                            return Some(ButtonMsg::Released);
                        }
                    },
                    _ => {},
                }
            },
            Event::Touch(TouchEvent::TouchEnd(pos)) => {
                match self.state {
                    State::Initial | State::Disabled => {},
                    State::Pressed => {
                        if self.is_touched(pos) {
                            self.set(ctx, State::Initial);
                            return Some(ButtonMsg::Clicked);
                        } else {
                            self.set(ctx, State::Initial);
                            self.long_timer = None;
                        }
                    },
                    State::Released => {
                        self.set(ctx, State::Initial);
                        self.long_timer = None;
                    },
                }
            },
            Event::Timer(token) => {
                if self.awaits(token) {
                    self.long_timer = None;
                    match self.state {
                        State::Pressed => {
                            self.set(ctx, State::Initial);
                            return Some(ButtonMsg::LongPressed);
                        },
                        _ => {},
                    }
                }
            },
        }
        None
    }
}

impl<T: Label> Button<T> {
    /// Replaces the content, and asks for a repaint, if the new content
    /// shows something else than the present one. Otherwise nothing
    /// changes.
    pub fn set_content(&mut self, ctx: &mut EventCtx, content: ButtonContent<T>)
        ensures
            old(self).content@ != content@ ==> *final(self) == (Button { content, ..*old(self) })
                && final(ctx)@ == old(ctx)@.with_paint(),
            old(self).content@ == content@ ==> *final(self) == *old(self) && final(ctx)@ == old(
                ctx,
            )@,
    {
        if !self.content.shows_same(&content) {
            self.content = content;
            ctx.request_paint();
        }
    }

    /// What `paint_background` draws: nothing under two blended icons;
    /// else the button's rectangle, and where the style has a border, the
    /// border first and the inside of it on top.
    pub open spec fn background(&self, style: ButtonStyle) -> Seq<DrawOpView> {
        if self.content is IconBlend {
            Seq::empty()
        } else if style.border_width > 0 {
            seq![
                DrawOpView::RectFillRounded {
                    area: self.area,
                    fg: style.border_color,
                    bg: style.background_color,
                    radius: style.border_radius,
                },
                DrawOpView::RectFillRounded {
                    area: self.area.spec_inset(
                        Insets {
                            top: style.border_width,
                            right: style.border_width,
                            bottom: style.border_width,
                            left: style.border_width,
                        },
                    ),
                    fg: style.button_color,
                    bg: style.border_color,
                    radius: style.border_radius,
                },
            ]
        } else {
            seq![
                DrawOpView::RectFillRounded {
                    area: self.area,
                    fg: style.button_color,
                    bg: style.background_color,
                    radius: style.border_radius,
                },
            ]
        }
    }

    /// What `paint_content` draws: nothing on an empty button; a text in
    /// the middle of the button; an icon centred on the button's centre; an
    /// icon with text, always in the style of the button's present state;
    /// or two icons, one over the other, clipped to the button.
    pub open spec fn foreground(&self, style: ButtonStyle) -> Seq<DrawOpView> {
        match self.content {
            ButtonContent::Empty => Seq::empty(),
            ButtonContent::Text(text) => seq![
                DrawOpView::Text {
                    area: self.area,
                    baseline_offset: BASELINE_OFFSET,
                    text: text.text(),
                    font: style.font,
                    fg: style.text_color,
                    bg: style.button_color,
                },
            ],
            ButtonContent::Icon(icon) => seq![
                DrawOpView::Icon {
                    icon,
                    at: self.area.spec_center(),
                    horizontal: Alignment::Center,
                    vertical: Alignment::Center,
                    fg: style.text_color,
                    bg: style.button_color,
                },
            ],
            ButtonContent::IconAndText(child) => seq![
                child.painted(self.area, self.spec_style(), BASELINE_OFFSET),
            ],
            ButtonContent::IconBlend(under, over, offset) => seq![
                DrawOpView::IconOverIcon {
                    clip: Some(self.area),
                    under,
                    under_offset: Offset { x: 0, y: 0 },
                    under_color: style.button_color,
                    over,
                    over_offset: offset,
                    over_color: style.text_color,
                    background: style.background_color,
                },
            ],
        }
    }

    /// Appends the button's background in `style`.
    pub fn paint_background(&self, style: &ButtonStyle, out: &mut DisplayList)
        requires
            border_fits(self.area, *style),
        ensures
            final(out)@ == old(out)@ + self.background(*style),
    {
        match &self.content {
            ButtonContent::IconBlend(_, _, _) => {},
            _ => {
                if style.border_width > 0 {
                    out.push(
                        DrawOp::RectFillRounded {
                            area: self.area,
                            fg: style.border_color,
                            bg: style.background_color,
                            radius: style.border_radius,
                        },
                    );
                    out.push(
                        DrawOp::RectFillRounded {
                            area: self.area.inset(Insets::uniform(style.border_width)),
                            fg: style.button_color,
                            bg: style.border_color,
                            radius: style.border_radius,
                        },
                    );
                } else {
                    out.push(
                        DrawOp::RectFillRounded {
                            area: self.area,
                            fg: style.button_color,
                            bg: style.background_color,
                            radius: style.border_radius,
                        },
                    );
                }
            },
        }
        assert(out@ =~= old(out)@ + self.background(*style));
    }

    /// Appends the button's content in `style`.
    pub fn paint_content(&self, style: &ButtonStyle, out: &mut DisplayList)
        ensures
            final(out)@ == old(out)@ + self.foreground(*style),
    {
        match &self.content {
            ButtonContent::Empty => {},
            ButtonContent::Text(text) => {
                out.push(
                    DrawOp::Text {
                        area: self.area,
                        baseline_offset: BASELINE_OFFSET,
                        text: text.as_str().to_owned(),
                        font: style.font,
                        fg: style.text_color,
                        bg: style.button_color,
                    },
                );
            },
            ButtonContent::Icon(icon) => {
                out.push(
                    DrawOp::Icon {
                        icon: *icon,
                        at: self.area.center(),
                        horizontal: Alignment::Center,
                        vertical: Alignment::Center,
                        fg: style.text_color,
                        bg: style.button_color,
                    },
                );
            },
            ButtonContent::IconAndText(child) => {
                child.paint(self.area, self.style(), BASELINE_OFFSET, out);
            },
            ButtonContent::IconBlend(under, over, offset) => {
                out.push(
                    DrawOp::IconOverIcon {
                        clip: Some(self.area),
                        under: *under,
                        under_offset: Offset::zero(),
                        under_color: style.button_color,
                        over: *over,
                        over_offset: *offset,
                        over_color: style.text_color,
                        background: style.background_color,
                    },
                );
            },
        }
        assert(out@ =~= old(out)@ + self.foreground(*style));
    }
}

impl<T: Label> Component for Button<T> {
    type Msg = ButtonMsg;

    open spec fn inv(&self) -> bool {
        borders_fit(self.area, self.styles)
    }

    open spec fn fits(&self, bounds: Rect) -> bool {
        borders_fit(bounds, self.styles)
    }

    open spec fn placed(&self, bounds: Rect) -> Self {
        Button { area: bounds, ..*self }
    }

    open spec fn extent(&self, bounds: Rect) -> Rect {
        bounds
    }

    open spec fn dispatched(&self, ctx: EventCtxView, event: Event) -> (
        Self,
        EventCtxView,
        Option<ButtonMsg>,
    ) {
        self.reacted(ctx, event)
    }

    open spec fn painted(&self) -> Seq<DrawOpView> {
        self.background(self.spec_style()) + self.foreground(self.spec_style())
    }

    open spec fn areas(&self) -> Seq<Rect> {
        seq![self.area]
    }

    fn can_place(&self, bounds: Rect) -> (ok: bool) {
        check_borders(bounds, &self.styles)
    }

    fn place(&mut self, bounds: Rect) -> (occupied: Rect) {
        self.area = bounds;
        self.area
    }

    fn event(&mut self, ctx: &mut EventCtx, event: Event) -> (msg: Option<ButtonMsg>) {
        self.react(ctx, event)
    }

    fn paint(&mut self, out: &mut DisplayList) {
        let style = *self.style();
        self.paint_background(&style, out);
        self.paint_content(&style, out);
        assert(out@ =~= old(out)@ + old(self).painted());
    }

    fn bounds(&self, sink: &mut Vec<Rect>) {
        sink.push(self.area);
        assert(sink@ =~= old(sink)@ + self.areas());
    }

    proof fn lemma_place_again(&self, bounds: Rect) {
    }
}

/// Turns a click into `out` and drops everything else that a button
/// reports.
#[derive(Debug, PartialEq, Eq)]
pub struct OnClick<M> {
    pub out: M,
}

impl<M: Copy> Translation<ButtonMsg> for OnClick<M> {
    type Out = M;

    open spec fn valid(&self) -> bool {
        true
    }

    open spec fn apply(&self, msg: ButtonMsg) -> Option<M> {
        if msg == ButtonMsg::Clicked {
            Some(self.out)
        } else {
            None
        }
    }

    fn translate(&self, msg: ButtonMsg) -> (out: Option<M>) {
        match msg {
            ButtonMsg::Clicked => Some(self.out),
            _ => None,
        }
    }
}

/// What a pair of buttons to cancel and to confirm reports.
#[derive(Clone, Copy, Debug, PartialEq, Eq, Structural)]
pub enum CancelConfirmMsg {
    Cancelled,
    Confirmed,
}

/// What buttons to cancel, to ask for information and to confirm report.
#[derive(Clone, Copy, Debug, PartialEq, Eq, Structural)]
pub enum CancelInfoConfirmMsg {
    Cancelled,
    Info,
    Confirmed,
}

/// What a choice among words reports: the number of the word.
#[derive(Clone, Copy, Debug, PartialEq, Eq, Structural)]
pub enum SelectWordMsg {
    Selected(usize),
}

/// A button in cells of a grid whose click means `M`.
pub type GridButton<T, M> = MsgMap<GridPlaced<Button<T>>, OnClick<M>>;

/// A bar with a button to cancel and a button to confirm.
pub type CancelConfirm<T> = FixedHeightBar<
    (GridButton<T, CancelConfirmMsg>, GridButton<T, CancelConfirmMsg>),
>;

/// A bar with two buttons, the left one a square.
pub type CancelConfirmSquare<T> = FixedHeightBar<
    VSplit<
        MsgMap<Button<T>, OnClick<CancelConfirmMsg>>,
        MsgMap<Button<T>, OnClick<CancelConfirmMsg>>,
    >,
>;

/// A bar with buttons to cancel, to ask for information and to confirm.
pub type CancelInfoConfirm<T> = FixedHeightBar<
    (
        GridButton<T, CancelInfoConfirmMsg>,
        GridButton<T, CancelInfoConfirmMsg>,
        GridButton<T, CancelInfoConfirmMsg>,
    ),
>;

/// A bar with three words to choose from, one above the other.
pub type SelectWord<T> = FixedHeightBar<
    (GridButton<T, SelectWordMsg>, GridButton<T, SelectWordMsg>, GridButton<T, SelectWordMsg>),
>;

/// `button` in the cells `from` to `to` of a grid of `rows` by `cols` with
/// the spacing of buttons, its click meaning `out`.
pub open spec fn spec_grid_button<T, M>(
    button: Button<T>,
    rows: usize,
    cols: usize,
    from: (usize, usize),
    to: (usize, usize),
    out: M,
) -> GridButton<T, M> {
    MsgMap {
        inner: GridPlaced {
            inner: button,
            grid: Grid { rows, cols, spacing: theme::BUTTON_SPACING, area: Rect::spec_zero() },
            cells: GridCellSpan { from, to },
        },
        func: OnClick { out },
    }
}

/// `button` in the cells `from` to `to` of a grid of `rows` by `cols` with
/// the spacing of buttons, its click meaning `out`.
pub fn grid_button<T, M>(
    button: Button<T>,
    rows: usize,
    cols: usize,
    from: (usize, usize),
    to: (usize, usize),
    out: M,
) -> (r: GridButton<T, M>)
    ensures
        r == spec_grid_button(button, rows, cols, from, to, out),
{
    MsgMap::new(
        GridPlaced::new(button).with_grid(rows, cols).with_spacing(
            theme::BUTTON_SPACING,
        ).with_from_to(from, to),
        OnClick { out },
    )
}

impl<T> Button<T> {
    /// The bar that `cancel_confirm` builds.
    pub open spec fn spec_cancel_confirm(
        left: Button<T>,
        right: Button<T>,
        right_size_factor: usize,
    ) -> CancelConfirm<T> {
        let columns = (1 + right_size_factor) as usize;
        FixedHeightBar {
            inner: (
                spec_grid_button(left, 1, columns, (0, 0), (0, 0), CancelConfirmMsg::Cancelled),
                spec_grid_button(
                    right,
                    1,
                    columns,
                    (0, 1),
                    (0, right_size_factor),
                    CancelConfirmMsg::Confirmed,
                ),
            ),
            height: theme::BUTTON_HEIGHT,
        }
    }

    /// A bar, one button high, with `left` in the first column and `right`
    /// in the `right_size_factor` columns after it. A click on `left` means
    /// `Cancelled`, a click on `right` means `Confirmed`.
    pub fn cancel_confirm(left: Button<T>, right: Button<T>, right_size_factor: usize) -> (bar:
        CancelConfirm<T>)
        requires
            right_size_factor < usize::MAX,
        ensures
            bar == Self::spec_cancel_confirm(left, right, right_size_factor),
    {
        let columns = 1 + right_size_factor;
        theme::button_bar(
            (
                grid_button(left, 1, columns, (0, 0), (0, 0), CancelConfirmMsg::Cancelled),
                grid_button(
                    right,
                    1,
                    columns,
                    (0, 1),
                    (0, right_size_factor),
                    CancelConfirmMsg::Confirmed,
                ),
            ),
        )
    }

    /// A bar to cancel and confirm by text. With a text to cancel, both
    /// buttons are of equal width. Without it, the left button shows the
    /// icon for cancelling and the right one is twice as wide. The right
    /// button is in the style of confirmation.
    pub fn cancel_confirm_text(left: Option<T>, right: T) -> (bar: CancelConfirm<T>)
        ensures
            bar == Self::spec_cancel_confirm(
                match left {
                    Some(verb) => Button::spec_new(ButtonContent::Text(verb)),
                    None => Button::spec_new(
                        ButtonContent::Icon(Icon { id: theme::ICON_CANCEL }),
                    ),
                },
                Button {
                    styles: theme::spec_button_confirm(),
                    ..Button::spec_new(ButtonContent::Text(right))
                },
                if left is Some {
                    1
                } else {
                    2
                },
            ),
    {
        let (left, right_size_factor): (Button<T>, usize) = match left {
            Some(verb) => (Button::with_text(verb), 1),
            None => (Button::with_icon(Icon::new(theme::ICON_CANCEL)), 2),
        };
        let right = Button::with_text(right).styled(theme::button_confirm());
        Self::cancel_confirm(left, right, right_size_factor)
    }

    /// The bar that `cancel_confirm_square` builds.
    pub open spec fn spec_cancel_confirm_square(left: Button<T>, right: Button<T>)
        -> CancelConfirmSquare<T> {
        FixedHeightBar {
            inner: VSplit {
                first: MsgMap { inner: left, func: OnClick { out: CancelConfirmMsg::Cancelled } },
                second: MsgMap {
                    inner: right,
                    func: OnClick { out: CancelConfirmMsg::Confirmed },
                },
                width: theme::BUTTON_HEIGHT,
                spacing: theme::BUTTON_SPACING,
            },
            height: theme::BUTTON_HEIGHT,
        }
    }

    /// A bar, one button high, with `left` as a square and `right` in the
    /// rest of the width. A click on `left` means `Cancelled`, a click on
    /// `right` means `Confirmed`.
    pub fn cancel_confirm_square(left: Button<T>, right: Button<T>) -> (bar: CancelConfirmSquare<
        T,
    >)
        ensures
            bar == Self::spec_cancel_confirm_square(left, right),
    {
        theme::button_bar(
            VSplit::new(
                theme::BUTTON_HEIGHT,
                theme::BUTTON_SPACING,
                MsgMap::new(left, OnClick { out: CancelConfirmMsg::Cancelled }),
                MsgMap::new(right, OnClick { out: CancelConfirmMsg::Confirmed }),
            ),
        )
    }

    /// The bar that `cancel_info_confirm` builds.
    pub open spec fn spec_cancel_info_confirm(confirm: T, info: T) -> CancelInfoConfirm<T> {
        FixedHeightBar {
            inner: (
                spec_grid_button(
                    Button::spec_new(ButtonContent::Icon(Icon { id: theme::ICON_CANCEL })),
                    2,
                    3,
                    (1, 0),
                    (1, 0),
                    CancelInfoConfirmMsg::Cancelled,
                ),
                spec_grid_button(
                    Button::spec_new(ButtonContent::Text(info)),
                    2,
                    3,
                    (0, 0),
                    (0, 2),
                    CancelInfoConfirmMsg::Info,
                ),
                spec_grid_button(
                    Button {
                        styles: theme::spec_button_confirm(),
                        ..Button::spec_new(ButtonContent::Text(confirm))
                    },
                    2,
                    3,
                    (1, 1),
                    (1, 2),
                    CancelInfoConfirmMsg::Confirmed,
                ),
            ),
            height: theme::spec_button_rows(2) as i16,
        }
    }

    /// A bar, two buttons high: `info` across the top row, and below it
    /// the icon for cancelling in the first column and `confirm`, in the
    /// style of confirmation, in the other two.
    pub fn cancel_info_confirm(confirm: T, info: T) -> (bar: CancelInfoConfirm<T>)
        ensures
            bar == Self::spec_cancel_info_confirm(confirm, info),
    {
        let right = Button::with_text(confirm).styled(theme::button_confirm());
        let top = Button::with_text(info);
        let left = Button::with_icon(Icon::new(theme::ICON_CANCEL));
        theme::button_bar_rows(
            2,
            (
                grid_button(left, 2, 3, (1, 0), (1, 0), CancelInfoConfirmMsg::Cancelled),
                grid_button(top, 2, 3, (0, 0), (0, 2), CancelInfoConfirmMsg::Info),
                grid_button(right, 2, 3, (1, 1), (1, 2), CancelInfoConfirmMsg::Confirmed),
            ),
        )
    }

    /// The bar that `select_word` builds.
    pub open spec fn spec_select_word(words: [T; 3]) -> SelectWord<T> {
        FixedHeightBar {
            inner: (
                spec_grid_button(
                    Button::spec_new(ButtonContent::Text(words[0])),
                    3,
                    1,
                    (0, 0),
                    (0, 0),
                    SelectWordMsg::Selected(0),
                ),
                spec_grid_button(
                    Button::spec_new(ButtonContent::Text(words[1])),
                    3,
                    1,
                    (1, 0),
                    (1, 0),
                    SelectWordMsg::Selected(1),
                ),
                spec_grid_button(
                    Button::spec_new(ButtonContent::Text(words[2])),
                    3,
                    1,
                    (2, 0),
                    (2, 0),
                    SelectWordMsg::Selected(2),
                ),
            ),
            height: theme::spec_button_rows(3) as i16,
        }
    }

    /// A bar, three buttons high, with one word on each button. A click on
    /// a word means that its number, from zero at the top, was selected.
    pub fn select_word(words: [T; 3]) -> (bar: SelectWord<T>) where T: Copy
        ensures
            bar == Self::spec_select_word(words),
    {
        let top = words[0];
        let middle = words[1];
        let bottom = words[2];
        theme::button_bar_rows(
            3,
            (
                grid_button(
                    Button::with_text(top),
                    3,
                    1,
                    (0, 0),
                    (0, 0),
                    SelectWordMsg::Selected(0),
                ),
                grid_button(
                    Button::with_text(middle),
                    3,
                    1,
                    (1, 0),
                    (1, 0),
                    SelectWordMsg::Selected(1),
                ),
                grid_button(
                    Button::with_text(bottom),
                    3,
                    1,
                    (2, 0),
                    (2, 0),
                    SelectWordMsg::Selected(2),
                ),
            ),
        )
    }
}

impl Button<&'static str> {
    /// The bar that `abort_info_enter` builds.
    pub open spec fn spec_abort_info_enter() -> CancelInfoConfirm<&'static str> {
        FixedHeightBar {
            inner: (
                spec_grid_button(
                    Button {
                        styles: theme::spec_button_cancel(),
                        ..Button::spec_new(ButtonContent::Text("ABORT"))
                    },
                    1,
                    3,
                    (0, 0),
                    (0, 0),
                    CancelInfoConfirmMsg::Cancelled,
                ),
                spec_grid_button(
                    Button::spec_new(ButtonContent::Text("INFO")),
                    1,
                    3,
                    (0, 1),
                    (0, 1),
                    CancelInfoConfirmMsg::Info,
                ),
                spec_grid_button(
                    Button {
                        styles: theme::spec_button_confirm(),
                        ..Button::spec_new(ButtonContent::Text("ENTER"))
                    },
                    1,
                    3,
                    (0, 2),
                    (0, 2),
                    CancelInfoConfirmMsg::Confirmed,
                ),
            ),
            height: theme::BUTTON_HEIGHT,
        }
    }

    /// A bar, one button high, with three buttons of equal width: "ABORT"
    /// in the style of cancelling, "INFO", and "ENTER" in the style of
    /// confirmation.
    pub fn abort_info_enter() -> (bar: CancelInfoConfirm<&'static str>)
        ensures
            bar == Self::spec_abort_info_enter(),
    {
        let left = Button::with_text("ABORT").styled(theme::button_cancel());
        let middle = Button::with_text("INFO");
        let right = Button::with_text("ENTER").styled(theme::button_confirm());
        theme::button_bar(
            (
                grid_button(left, 1, 3, (0, 0), (0, 0), CancelInfoConfirmMsg::Cancelled),
                grid_button(middle, 1, 3, (0, 1), (0, 1), CancelInfoConfirmMsg::Info),
                grid_button(right, 1, 3, (0, 2), (0, 2), CancelInfoConfirmMsg::Confirmed),
            ),
        )
    }
}

/// What a component with a button in its corner reports.
#[derive(Debug, PartialEq, Eq)]
pub enum FloatingButtonMsg<T> {
    /// The button in the corner was clicked.
    ButtonClicked,
    /// The component below the button reports this.
    Content(T),
}

/// A component with a small icon button over its top right corner.
pub struct FloatingButton<T> {
    pub inner: T,
    pub button: Floating<Button<&'static str>>,
}

impl<T: Component> FloatingButton<T> {
    pub fn top_right_corner(icon: Icon, inner: T) -> (r: Self)
        ensures
            r == (FloatingButton {
                inner,
                button: Floating {
                    inner: Button::spec_new(ButtonContent::Icon(icon)),
                    size: Offset { x: theme::CORNER_BUTTON_SIDE, y: theme::CORNER_BUTTON_SIDE },
                    border: Offset {
                        x: theme::CORNER_BUTTON_SPACING,
                        y: theme::CORNER_BUTTON_SPACING,
                    },
                    align: TOP_RIGHT,
                },
            }),
    {
        FloatingButton {
            inner,
            button: Floating::top_right(
                theme::CORNER_BUTTON_SIDE,
                theme::CORNER_BUTTON_SPACING,
                Button::with_icon(icon),
            ),
        }
    }

    pub fn inner(&self) -> (inner: &T)
        ensures
            *inner == self.inner,
    {
        &self.inner
    }
}

/// Both the button and the component below it are placed in the bounds.
/// An event goes to the button first; unless that makes a click, it goes on
/// to the component below, so a touch on the button reaches both.
impl<T: Component> Component for FloatingButton<T> {
    type Msg = FloatingButtonMsg<T::Msg>;

    open spec fn inv(&self) -> bool {
        self.button.inv() && self.inner.inv()
    }

    open spec fn fits(&self, bounds: Rect) -> bool {
        self.button.fits(bounds) && self.inner.fits(bounds)
    }

    open spec fn placed(&self, bounds: Rect) -> Self {
        FloatingButton { inner: self.inner.placed(bounds), button: self.button.placed(bounds) }
    }

    open spec fn extent(&self, bounds: Rect) -> Rect {
        self.inner.extent(bounds)
    }

    open spec fn dispatched(&self, ctx: EventCtxView, event: Event) -> (
        Self,
        EventCtxView,
        Option<FloatingButtonMsg<T::Msg>>,
    ) {
        let (button, ctx1, msg1) = self.button.dispatched(ctx, event);
        if msg1 == Some(ButtonMsg::Clicked) {
            (
                FloatingButton { inner: self.inner, button },
                ctx1,
                Some(FloatingButtonMsg::ButtonClicked),
            )
        } else {
            let (inner, ctx2, msg2) = self.inner.dispatched(ctx1, event);
            (
                FloatingButton { inner, button },
                ctx2,
                match msg2 {
                    Some(msg) => Some(FloatingButtonMsg::Content(msg)),
                    None => None,
                },
            )
        }
    }

    open spec fn painted(&self) -> Seq<DrawOpView> {
        self.inner.painted() + self.button.painted()
    }

    open spec fn areas(&self) -> Seq<Rect> {
        self.inner.areas() + self.button.areas()
    }

    fn can_place(&self, bounds: Rect) -> (ok: bool) {
        self.button.can_place(bounds) && self.inner.can_place(bounds)
    }

    fn place(&mut self, bounds: Rect) -> (occupied: Rect) {
        self.button.place(bounds);
        self.inner.place(bounds)
    }

    fn event(&mut self, ctx: &mut EventCtx, event: Event) -> (msg: Option<
        FloatingButtonMsg<T::Msg>,
    >) {
        match self.button.event(ctx, event) {
            Some(ButtonMsg::Clicked) => {
                return Some(FloatingButtonMsg::ButtonClicked);
            },
            _ => {},
        }
        match self.inner.event(ctx, event) {
            Some(msg) => Some(FloatingButtonMsg::Content(msg)),
            None => None,
        }
    }

    fn paint(&mut self, out: &mut DisplayList) {
        self.inner.paint(out);
        self.button.paint(out);
        assert(out@ =~= old(out)@ + old(self).painted());
    }

    fn bounds(&self, sink: &mut Vec<Rect>) {
        self.inner.bounds(sink);
        self.button.bounds(sink);
        assert(sink@ =~= old(sink)@ + self.areas());
    }

    proof fn lemma_place_again(&self, bounds: Rect) {
        self.button.lemma_place_again(bounds);
        self.inner.lemma_place_again(bounds);
    }
}

/// A full click: a touch that starts on a button at rest presses it and is
/// reported as `Pressed`; lifting the finger at the same place puts the
/// button at rest again and is reported as `Clicked`. Both steps ask for a
/// repaint.
pub proof fn lemma_click_cycle<T>(button: Button<T>, ctx: EventCtxView, pos: Point)
    requires
        button.state == State::Initial,
        button.touched(pos),
    ensures
        ({
            let (pressed, ctx1, msg1) = button.reacted(
                ctx,
                Event::Touch(TouchEvent::TouchStart(pos)),
            );
            let (rest, ctx2, msg2) = pressed.reacted(ctx1, Event::Touch(TouchEvent::TouchEnd(pos)));
            &&& pressed.state == State::Pressed
            &&& msg1 == Some(ButtonMsg::Pressed)
            &&& ctx1.paint_requested
            &&& rest.state == State::Initial
            &&& msg2 == Some(ButtonMsg::Clicked)
            &&& ctx2.paint_requested
        }),
{
}

/// A disabled button is deaf: no event changes its state, has an outcome,
/// or asks anything of the context. Touch leaves the button as it is
/// altogether.
pub proof fn lemma_disabled_is_deaf<T>(button: Button<T>, ctx: EventCtxView, event: Event)
    requires
        button.state == State::Disabled,
    ensures
        button.reacted(ctx, event).0.state == State::Disabled,
        button.reacted(ctx, event).1 == ctx,
        button.reacted(ctx, event).2 is None,
        event is Touch ==> button.reacted(ctx, event).0 == button,
{
}

/// No event disables a button: only `disable` does.
pub proof fn lemma_events_never_disable<T>(button: Button<T>, ctx: EventCtxView, event: Event)
    requires
        button.state != State::Disabled,
    ensures
        button.reacted(ctx, event).0.state != State::Disabled,
{
}

/// A button asks for a repaint exactly when an event changes its state, and
/// whenever it reports something but a repeated press.
pub proof fn lemma_repaint_on_change<T>(button: Button<T>, ctx: EventCtxView, event: Event)
    requires
        !ctx.paint_requested,
    ensures
        button.reacted(ctx, event).1.paint_requested == (button.reacted(ctx, event).0.state
            != button.state),
        button.reacted(ctx, event).2 is Some && !(button.state == State::Pressed
            && button.reacted(ctx, event).2 == Some(ButtonMsg::Pressed)) ==> button.reacted(
            ctx,
            event,
        ).1.paint_requested,
{
}

/// A long press is reported once. A touch that starts on an enabled button
/// with a long press asks for one timer of the configured duration. When
/// that timer fires while the button is still pressed, the button goes to
/// rest and reports `LongPressed`. The same timer firing again finds
/// nothing to do.
pub proof fn lemma_long_press_once<T>(
    button: Button<T>,
    ctx: EventCtxView,
    pos: Point,
    duration: Duration,
)
    requires
        button.state != State::Disabled,
        button.touched(pos),
        button.long_press == Some(duration),
    ensures
        ({
            let token = ctx.upcoming();
            let (pressed, ctx1, msg1) = button.reacted(
                ctx,
                Event::Touch(TouchEvent::TouchStart(pos)),
            );
            let (held, ctx2, msg2) = pressed.reacted(ctx1, Event::Timer(token));
            let (after, ctx3, msg3) = held.reacted(ctx2, Event::Timer(token));
            &&& msg1 == Some(ButtonMsg::Pressed)
            &&& pressed.state == State::Pressed
            &&& pressed.long_timer == Some(token)
            &&& ctx1.timers == ctx.timers.push((token, duration))
            &&& msg2 == Some(ButtonMsg::LongPressed)
            &&& held.state == State::Initial
            &&& held.long_timer is None
            &&& ctx2.timers == ctx1.timers
            &&& msg3 is None
            &&& after == held
            &&& ctx3 == ctx2
        }),
{
}

/// A timer that is not the one the button waits for is ignored: the button
/// and the context stay as they are and nothing is reported.
pub proof fn lemma_foreign_timer_ignored<T>(
    button: Button<T>,
    ctx: EventCtxView,
    token: TimerToken,
)
    requires
        button.long_timer != Some(token),
    ensures
        button.reacted(ctx, Event::Timer(token)) == (button, ctx, None::<ButtonMsg>),
{
}

/// A translation that drops `Pressed` and `Released` keeps the start and
/// the movement of a touch to itself: neither has an outcome, while the
/// button inside reacts as it would alone. Lifting the finger on the
/// pressed button has the outcome that the translation makes of `Clicked`.
pub proof fn lemma_map_passes_clicks_only<T: Label, F: Translation<ButtonMsg>>(
    map: MsgMap<Button<T>, F>,
    ctx: EventCtxView,
    pos: Point,
)
    requires
        map.func.apply(ButtonMsg::Pressed) is None,
        map.func.apply(ButtonMsg::Released) is None,
    ensures
        map.dispatched(ctx, Event::Touch(TouchEvent::TouchStart(pos))).2 is None,
        map.dispatched(ctx, Event::Touch(TouchEvent::TouchMove(pos))).2 is None,
        map.dispatched(ctx, Event::Touch(TouchEvent::TouchStart(pos))).0.inner
            == map.inner.reacted(ctx, Event::Touch(TouchEvent::TouchStart(pos))).0,
        map.dispatched(ctx, Event::Touch(TouchEvent::TouchMove(pos))).0.inner
            == map.inner.reacted(ctx, Event::Touch(TouchEvent::TouchMove(pos))).0,
        map.inner.state == State::Pressed && map.inner.touched(pos) ==> map.dispatched(
            ctx,
            Event::Touch(TouchEvent::TouchEnd(pos)),
        ).2 == map.func.apply(ButtonMsg::Clicked),
        !(map.inner.state == State::Pressed && map.inner.touched(pos)) ==> map.dispatched(
            ctx,
            Event::Touch(TouchEvent::TouchEnd(pos)),
        ).2 is None,
{
}

/// In a split of two buttons whose clicks mean different things, lifting
/// the finger on the pressed first button has the first meaning and leaves
/// the second button untouched. Lifting it on the pressed second button,
/// off the first, has the second meaning.
pub proof fn lemma_split_click_goes_to_one<T: Label, M: Copy>(
    split: VSplit<MsgMap<Button<T>, OnClick<M>>, MsgMap<Button<T>, OnClick<M>>>,
    ctx: EventCtxView,
    pos: Point,
)
    ensures
        ({
            let (after, _, msg) = split.dispatched(ctx, Event::Touch(TouchEvent::TouchEnd(pos)));
            &&& split.first.inner.state == State::Pressed && split.first.inner.touched(pos)
                ==> msg == Some(split.first.func.out) && after.second == split.second
            &&& !split.first.inner.touched(pos) && split.second.inner.state == State::Pressed
                && split.second.inner.touched(pos) ==> msg == Some(split.second.func.out)
        }),
{
}

} // verus!
