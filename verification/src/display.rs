//! What a component hands to the drawing surface: colours, fonts, icons and a
//! list of drawing operations.
//!
//! Painting never touches the screen. A component appends operations to a
//! [`DisplayList`], and whoever owns the screen carries them out in order.
//! Text is measured by the screen's owner, so an operation that shows text
//! names the area the text belongs to, and [`text_baseline`] and
//! [`crate::button::IconText::layout`] turn a measured size into positions.
use vstd::prelude::*;
use crate::geometry::{half, in_i16, Alignment, Offset, Point, Rect};

verus! {

/// A colour by its red, green and blue parts.
#[derive(Clone, Copy, Debug, PartialEq, Eq, Structural)]
pub struct Color {
    pub r: u8,
    pub g: u8,
    pub b: u8,
}

impl Color {
    pub fn rgb(r: u8, g: u8, b: u8) -> (c: Self)
        ensures
            c == (Color { r, g, b }),
    {
        Color { r, g, b }
    }
}

/// One of the typefaces of the screen.
#[derive(Clone, Copy, Debug, PartialEq, Eq, Structural)]
pub enum Font {
    Normal,
    Demibold,
    Bold,
    Mono,
}

/// A picture of one colour, known to the drawing surface by its number.
#[derive(Clone, Copy, Debug, PartialEq, Eq, Structural)]
pub struct Icon {
    pub id: u16,
}

impl Icon {
    pub fn new(id: u16) -> (icon: Self)
        ensures
            icon == (Icon { id }),
    {
        Icon { id }
    }
}

/// Something that can be shown as a line of text.
pub trait Label {
    /// The characters to show.
    spec fn text(&self) -> Seq<char>;

    fn as_str(&self) -> (s: &str)
        ensures
            s@ == self.text(),
    ;
}

impl<'a> Label for &'a str {
    open spec fn text(&self) -> Seq<char> {
        (*self)@
    }

    fn as_str(&self) -> (s: &str) {
        *self
    }
}

impl Label for String {
    open spec fn text(&self) -> Seq<char> {
        self@
    }

    fn as_str(&self) -> (s: &str) {
        self.as_str()
    }
}

/// Whether two labels show the same characters.
pub fn same_text<A: Label, B: Label>(a: &A, b: &B) -> (same: bool)
    ensures
        same == (a.text() == b.text()),
{
    let left = a.as_str().to_owned();
    let right = b.as_str().to_owned();
    left == right
}

/// One request to the drawing surface.
#[derive(Debug, PartialEq, Eq)]
pub enum DrawOp {
    /// Fill `area` with `fg`, its corners rounded by `radius` and filled
    /// with `bg`.
    RectFillRounded { area: Rect, fg: Color, bg: Color, radius: u8 },
    /// Show `text` in the middle of `area`, its baseline moved down by
    /// `baseline_offset`: it starts at `text_baseline` of its measured size.
    Text { area: Rect, baseline_offset: i16, text: String, font: Font, fg: Color, bg: Color },
    /// Show `icon` so that the point of it that `horizontal` and `vertical`
    /// name lies at `at`.
    Icon { icon: Icon, at: Point, horizontal: Alignment, vertical: Alignment, fg: Color, bg: Color },
    /// Show `icon` and `text` side by side in `area`, or the one of them
    /// that fits: `IconText::layout` places them by the text's measured
    /// size.
    IconText {
        area: Rect,
        baseline_offset: i16,
        text: String,
        icon: Icon,
        font: Font,
        fg: Color,
        bg: Color,
    },
    /// Show `over` on top of `under`, each moved by its offset, clipped to
    /// `clip` where one is given, on `background`.
    IconOverIcon {
        clip: Option<Rect>,
        under: Icon,
        under_offset: Offset,
        under_color: Color,
        over: Icon,
        over_offset: Offset,
        over_color: Color,
        background: Color,
    },
}

/// A drawing operation as a value of specifications: text is a sequence of
/// characters.
pub enum DrawOpView {
    RectFillRounded { area: Rect, fg: Color, bg: Color, radius: u8 },
    Text { area: Rect, baseline_offset: i16, text: Seq<char>, font: Font, fg: Color, bg: Color },
    Icon { icon: Icon, at: Point, horizontal: Alignment, vertical: Alignment, fg: Color, bg: Color },
    IconText {
        area: Rect,
        baseline_offset: i16,
        text: Seq<char>,
        icon: Icon,
        font: Font,
        fg: Color,
        bg: Color,
    },
    IconOverIcon {
        clip: Option<Rect>,
        under: Icon,
        under_offset: Offset,
        under_color: Color,
        over: Icon,
        over_offset: Offset,
        over_color: Color,
        background: Color,
    },
}

impl View for DrawOp {
    type V = DrawOpView;

    open spec fn view(&self) -> DrawOpView {
        match *self {
            DrawOp::RectFillRounded { area, fg, bg, radius } => DrawOpView::RectFillRounded {
                area,
                fg,
                bg,
                radius,
            },
            DrawOp::Text { area, baseline_offset, text, font, fg, bg } => DrawOpView::Text {
                area,
                baseline_offset,
                text: text@,
                font,
                fg,
                bg,
            },
            DrawOp::Icon { icon, at, horizontal, vertical, fg, bg } => DrawOpView::Icon {
                icon,
                at,
                horizontal,
                vertical,
                fg,
                bg,
            },
            DrawOp::IconText {
                area,
                baseline_offset,
                text,
                icon,
                font,
                fg,
                bg,
            } => DrawOpView::IconText { area, baseline_offset, text: text@, icon, font, fg, bg },
            DrawOp::IconOverIcon {
                clip,
                under,
                under_offset,
                under_color,
                over,
                over_offset,
                over_color,
                background,
            } => DrawOpView::IconOverIcon {
                clip,
                under,
                under_offset,
                under_color,
                over,
                over_offset,
                over_color,
                background,
            },
        }
    }
}

/// Drawing operations in the order in which they are to be carried out.
pub struct DisplayList {
    pub ops: Vec<DrawOp>,
}

impl View for DisplayList {
    type V = Seq<DrawOpView>;

    open spec fn view(&self) -> Seq<DrawOpView> {
        Seq::new(self.ops@.len(), |i: int| self.ops@[i]@)
    }
}

impl DisplayList {
    /// An empty list.
    pub fn new() -> (list: Self)
        ensures
            list@ == Seq::<DrawOpView>::empty(),
    {
        DisplayList { ops: Vec::new() }
    }

    /// Appends one operation.
    pub fn push(&mut self, op: DrawOp)
        ensures
            final(self)@ == old(self)@.push(op@),
    {
        self.ops.push(op);
        assert(self@ =~= old(self)@.push(op@));
    }

    pub fn len(&self) -> (n: usize)
        ensures
            n == self@.len(),
    {
        self.ops.len()
    }
}

/// Where the baseline of a line of text starts so that the text, of the
/// measured size `size`, sits in the middle of `area`: left of the centre by
/// half its width, below it by half its height, and `baseline_offset` further
/// down. The coordinates as integers.
pub open spec fn baseline_start(area: Rect, size: Offset, baseline_offset: i16) -> (int, int) {
    (
        area.spec_center().x + half(-(size.x as int)),
        area.spec_center().y + half(size.y as int) + baseline_offset,
    )
}

/// The start of the baseline of text centred in `area`, or `None` where it
/// would lie off the `i16` plane.
pub fn text_baseline(area: Rect, size: Offset, baseline_offset: i16) -> (start: Option<Point>)
    ensures
        ({
            let (x, y) = baseline_start(area, size, baseline_offset);
            match start {
                Some(p) => p.x == x && p.y == y,
                None => !(in_i16(x) && in_i16(y)),
            }
        }),
{
    let center = area.center();
    let x: i32 = center.x as i32 + (-(size.x as i32)) / 2;
    let y: i32 = center.y as i32 + (size.y as i32) / 2 + baseline_offset as i32;
    if -32768 <= x && x <= 32767 && -32768 <= y && y <= 32767 {
        Some(Point { x: x as i16, y: y as i16 })
    } else {
        None
    }
}

} // verus!
