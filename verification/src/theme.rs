//! The look of the controls: sizes, colours and button styles.
use vstd::prelude::*;
use crate::button::{ButtonStyle, ButtonStyleSheet};
use crate::display::{Color, Font};
use crate::placed::FixedHeightBar;

verus! {

/// The colour of text and symbols: white.
pub open spec fn spec_fg() -> Color {
    Color { r: 0xFF, g: 0xFF, b: 0xFF }
}

#[verifier::when_used_as_spec(spec_fg)]
pub fn fg() -> (c: Color)
    ensures
        c == spec_fg(),
{
    Color { r: 0xFF, g: 0xFF, b: 0xFF }
}

/// The colour of the screen behind everything: black.
pub open spec fn spec_bg() -> Color {
    Color { r: 0x00, g: 0x00, b: 0x00 }
}

#[verifier::when_used_as_spec(spec_bg)]
pub fn bg() -> (c: Color)
    ensures
        c == spec_bg(),
{
    Color { r: 0x00, g: 0x00, b: 0x00 }
}

pub open spec fn spec_red() -> Color {
    Color { r: 0xCD, g: 0x49, b: 0x49 }
}

#[verifier::when_used_as_spec(spec_red)]
pub fn red() -> (c: Color)
    ensures
        c == spec_red(),
{
    Color { r: 0xCD, g: 0x49, b: 0x49 }
}

pub open spec fn spec_red_dark() -> Color {
    Color { r: 0xA6, g: 0x2D, b: 0x2D }
}

#[verifier::when_used_as_spec(spec_red_dark)]
pub fn red_dark() -> (c: Color)
    ensures
        c == spec_red_dark(),
{
    Color { r: 0xA6, g: 0x2D, b: 0x2D }
}

pub open spec fn spec_green() -> Color {
    Color { r: 0x39, g: 0xA8, b: 0x14 }
}

#[verifier::when_used_as_spec(spec_green)]
pub fn green() -> (c: Color)
    ensures
        c == spec_green(),
{
    Color { r: 0x39, g: 0xA8, b: 0x14 }
}

pub open spec fn spec_green_dark() -> Color {
    Color { r: 0x10, g: 0xAB, b: 0x57 }
}

#[verifier::when_used_as_spec(spec_green_dark)]
pub fn green_dark() -> (c: Color)
    ensures
        c == spec_green_dark(),
{
    Color { r: 0x10, g: 0xAB, b: 0x57 }
}

pub open spec fn spec_grey_light() -> Color {
    Color { r: 0xA8, g: 0xA8, b: 0xA8 }
}

#[verifier::when_used_as_spec(spec_grey_light)]
pub fn grey_light() -> (c: Color)
    ensures
        c == spec_grey_light(),
{
    Color { r: 0xA8, g: 0xA8, b: 0xA8 }
}

pub open spec fn spec_grey_medium() -> Color {
    Color { r: 0x64, g: 0x64, b: 0x64 }
}

#[verifier::when_used_as_spec(spec_grey_medium)]
pub fn grey_medium() -> (c: Color)
    ensures
        c == spec_grey_medium(),
{
    Color { r: 0x64, g: 0x64, b: 0x64 }
}

pub open spec fn spec_grey_dark() -> Color {
    Color { r: 0x33, g: 0x33, b: 0x33 }
}

#[verifier::when_used_as_spec(spec_grey_dark)]
pub fn grey_dark() -> (c: Color)
    ensures
        c == spec_grey_dark(),
{
    Color { r: 0x33, g: 0x33, b: 0x33 }
}

/// The radius of the corners of buttons.
pub const RADIUS: u8 = 2;

/// The height of a button in a bar.
pub const BUTTON_HEIGHT: i16 = 38;

/// The space between neighbouring buttons.
pub const BUTTON_SPACING: i16 = 6;

/// The side of the square button in a corner of the screen.
pub const CORNER_BUTTON_SIDE: i16 = 32;

/// The distance of the corner button from the edges of the screen.
pub const CORNER_BUTTON_SPACING: i16 = 8;

/// The number of the icon that means "cancel".
pub const ICON_CANCEL: u16 = 1;

/// The number of the icon that means "confirm".
pub const ICON_CONFIRM: u16 = 2;

/// The number of the icon that means "more information".
pub const ICON_INFO_CIRCLE: u16 = 3;

/// A style without a border, in the bold font on the screen's background.
pub open spec fn spec_flat(text_color: Color, button_color: Color) -> ButtonStyle {
    ButtonStyle {
        font: Font::Bold,
        text_color,
        button_color,
        background_color: bg(),
        border_color: bg(),
        border_radius: RADIUS,
        border_width: 0,
    }
}

#[verifier::when_used_as_spec(spec_flat)]
pub fn flat(text_color: Color, button_color: Color) -> (style: ButtonStyle)
    ensures
        style == spec_flat(text_color, button_color),
{
    ButtonStyle {
        font: Font::Bold,
        text_color,
        button_color,
        background_color: bg(),
        border_color: bg(),
        border_radius: RADIUS,
        border_width: 0,
    }
}

/// The styles of an ordinary button: dark grey, lighter while pressed.
pub open spec fn spec_button_default() -> ButtonStyleSheet {
    ButtonStyleSheet {
        normal: spec_flat(fg(), grey_dark()),
        active: spec_flat(fg(), grey_medium()),
        disabled: spec_flat(grey_light(), grey_dark()),
    }
}

#[verifier::when_used_as_spec(spec_button_default)]
pub fn button_default() -> (styles: ButtonStyleSheet)
    ensures
        styles == spec_button_default(),
{
    ButtonStyleSheet {
        normal: flat(fg(), grey_dark()),
        active: flat(fg(), grey_medium()),
        disabled: flat(grey_light(), grey_dark()),
    }
}

/// The styles of a button that confirms: green.
pub open spec fn spec_button_confirm() -> ButtonStyleSheet {
    ButtonStyleSheet {
        normal: spec_flat(fg(), green()),
        active: spec_flat(fg(), green_dark()),
        disabled: spec_flat(fg(), green_dark()),
    }
}

#[verifier::when_used_as_spec(spec_button_confirm)]
pub fn button_confirm() -> (styles: ButtonStyleSheet)
    ensures
        styles == spec_button_confirm(),
{
    ButtonStyleSheet {
        normal: flat(fg(), green()),
        active: flat(fg(), green_dark()),
        disabled: flat(fg(), green_dark()),
    }
}

/// The styles of a button that cancels: red.
pub open spec fn spec_button_cancel() -> ButtonStyleSheet {
    ButtonStyleSheet {
        normal: spec_flat(fg(), red()),
        active: spec_flat(fg(), red_dark()),
        disabled: spec_flat(grey_light(), red()),
    }
}

#[verifier::when_used_as_spec(spec_button_cancel)]
pub fn button_cancel() -> (styles: ButtonStyleSheet)
    ensures
        styles == spec_button_cancel(),
{
    ButtonStyleSheet {
        normal: flat(fg(), red()),
        active: flat(fg(), red_dark()),
        disabled: flat(grey_light(), red()),
    }
}

/// The height of `count` rows of buttons with the spacing between them.
pub open spec fn spec_button_rows(count: int) -> int {
    BUTTON_HEIGHT * count + BUTTON_SPACING * (if count > 0 {
        count - 1
    } else {
        0
    })
}

/// The height of `count` rows of buttons with the spacing between them.
pub fn button_rows(count: usize) -> (height: i16)
    requires
        spec_button_rows(count as int) <= i16::MAX,
    ensures
        height == spec_button_rows(count as int),
{
    let rows: i16 = count as i16;
    let gaps: i16 = if rows > 0 {
        rows - 1
    } else {
        0
    };
    BUTTON_HEIGHT * rows + BUTTON_SPACING * gaps
}

/// A bar at the bottom of the screen, one button high.
pub fn button_bar<T>(inner: T) -> (bar: FixedHeightBar<T>)
    ensures
        bar == (FixedHeightBar { inner, height: BUTTON_HEIGHT }),
{
    FixedHeightBar::bottom(inner, BUTTON_HEIGHT)
}

/// A bar at the bottom of the screen, `rows` buttons high.
pub fn button_bar_rows<T>(rows: usize, inner: T) -> (bar: FixedHeightBar<T>)
    requires
        spec_button_rows(rows as int) <= i16::MAX,
    ensures
        bar == (FixedHeightBar { inner, height: spec_button_rows(rows as int) as i16 }),
{
    FixedHeightBar::bottom(inner, button_rows(rows))
}

} // verus!
