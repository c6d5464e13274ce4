//! Screen geometry: points, offsets, rectangles, insets and a grid of cells.
//!
//! Coordinates are `i16` pixels, `x` growing to the right and `y` downwards.
//! A rectangle covers the half-open ranges `x0..x1` and `y0..y1`. Contracts
//! are stated over mathematical integers; an operation whose result could
//! leave the `i16` range says so in its `requires`.
use vstd::prelude::*;

verus! {

/// `x` limited to the range `lo..=hi`; where the range is empty, `lo` wins
/// for values below it and `hi` for all others.
pub open spec fn clamp(x: int, lo: int, hi: int) -> int {
    if x < lo {
        lo
    } else if x > hi {
        hi
    } else {
        x
    }
}

/// Half of `v`, rounded towards zero.
pub open spec fn half(v: int) -> int {
    if v >= 0 {
        v / 2
    } else {
        -((-v) / 2)
    }
}

/// Whether `v` is a value of `i16`.
pub open spec fn in_i16(v: int) -> bool {
    i16::MIN <= v <= i16::MAX
}

/// A displacement on the screen.
#[derive(Clone, Copy, Debug, PartialEq, Eq, Structural)]
pub struct Offset {
    pub x: i16,
    pub y: i16,
}

impl Offset {
    pub fn new(x: i16, y: i16) -> (r: Self)
        ensures
            r == (Offset { x, y }),
    {
        Offset { x, y }
    }

    /// The same displacement on both axes.
    pub fn uniform(a: i16) -> (r: Self)
        ensures
            r == (Offset { x: a, y: a }),
    {
        Offset { x: a, y: a }
    }

    pub fn zero() -> (r: Self)
        ensures
            r == (Offset { x: 0, y: 0 }),
    {
        Offset { x: 0, y: 0 }
    }

    /// A horizontal displacement.
    pub fn x(x: i16) -> (r: Self)
        ensures
            r == (Offset { x, y: 0 }),
    {
        Offset { x, y: 0 }
    }

    /// A vertical displacement.
    pub fn y(y: i16) -> (r: Self)
        ensures
            r == (Offset { x: 0, y }),
    {
        Offset { x: 0, y }
    }
}

/// A position on the screen.
#[derive(Clone, Copy, Debug, PartialEq, Eq, Structural)]
pub struct Point {
    pub x: i16,
    pub y: i16,
}

impl Point {
    pub fn new(x: i16, y: i16) -> (r: Self)
        ensures
            r == (Point { x, y }),
    {
        Point { x, y }
    }

    pub fn zero() -> (r: Self)
        ensures
            r == (Point { x: 0, y: 0 }),
    {
        Point { x: 0, y: 0 }
    }

    /// The point halfway between `self` and `rhs`: on each axis the sum of
    /// the two halves, each rounded towards zero.
    pub open spec fn spec_center(self, rhs: Point) -> Point {
        Point {
            x: (half(self.x as int) + half(rhs.x as int)) as i16,
            y: (half(self.y as int) + half(rhs.y as int)) as i16,
        }
    }

    #[verifier::when_used_as_spec(spec_center)]
    pub fn center(self, rhs: Point) -> (r: Point)
        ensures
            r == self.spec_center(rhs),
            r.x == half(self.x as int) + half(rhs.x as int),
            r.y == half(self.y as int) + half(rhs.y as int),
    {
        Point { x: self.x / 2 + rhs.x / 2, y: self.y / 2 + rhs.y / 2 }
    }

    /// Whether moving this point by `offset` stays on the `i16` plane.
    pub open spec fn can_shift(self, offset: Offset) -> bool {
        in_i16(self.x + offset.x) && in_i16(self.y + offset.y)
    }

    /// This point moved by `offset`.
    pub open spec fn spec_shift(self, offset: Offset) -> Point {
        Point { x: (self.x + offset.x) as i16, y: (self.y + offset.y) as i16 }
    }

    #[verifier::when_used_as_spec(spec_shift)]
    pub fn shift(self, offset: Offset) -> (r: Point)
        requires
            self.can_shift(offset),
        ensures
            r == self.spec_shift(offset),
            r.x == self.x + offset.x,
            r.y == self.y + offset.y,
    {
        Point { x: self.x + offset.x, y: self.y + offset.y }
    }
}

/// Distances to keep from the four edges of a rectangle.
#[derive(Clone, Copy, Debug, PartialEq, Eq, Structural)]
pub struct Insets {
    pub top: i16,
    pub right: i16,
    pub bottom: i16,
    pub left: i16,
}

impl Insets {
    pub fn new(top: i16, right: i16, bottom: i16, left: i16) -> (r: Self)
        ensures
            r == (Insets { top, right, bottom, left }),
    {
        Insets { top, right, bottom, left }
    }

    /// The same distance from every edge.
    pub fn uniform(d: i16) -> (r: Self)
        ensures
            r == (Insets { top: d, right: d, bottom: d, left: d }),
    {
        Insets { top: d, right: d, bottom: d, left: d }
    }

    pub fn top(d: i16) -> (r: Self)
        ensures
            r == (Insets { top: d, right: 0, bottom: 0, left: 0 }),
    {
        Insets { top: d, right: 0, bottom: 0, left: 0 }
    }

    pub fn right(d: i16) -> (r: Self)
        ensures
            r == (Insets { top: 0, right: d, bottom: 0, left: 0 }),
    {
        Insets { top: 0, right: d, bottom: 0, left: 0 }
    }

    pub fn bottom(d: i16) -> (r: Self)
        ensures
            r == (Insets { top: 0, right: 0, bottom: d, left: 0 }),
    {
        Insets { top: 0, right: 0, bottom: d, left: 0 }
    }

    pub fn left(d: i16) -> (r: Self)
        ensures
            r == (Insets { top: 0, right: 0, bottom: 0, left: d }),
    {
        Insets { top: 0, right: 0, bottom: 0, left: d }
    }
}

/// Where something sits along one axis of its container.
#[derive(Clone, Copy, Debug, PartialEq, Eq, Structural)]
pub enum Alignment {
    Start,
    Center,
    End,
}

/// Horizontal alignment first, vertical second.
pub type Alignment2D = (Alignment, Alignment);

pub const TOP_LEFT: Alignment2D = (Alignment::Start, Alignment::Start);

pub const TOP_RIGHT: Alignment2D = (Alignment::End, Alignment::Start);

pub const CENTER: Alignment2D = (Alignment::Center, Alignment::Center);

pub const BOTTOM_LEFT: Alignment2D = (Alignment::Start, Alignment::End);

pub const BOTTOM_RIGHT: Alignment2D = (Alignment::End, Alignment::End);

/// An axis-aligned rectangle covering `x0..x1` by `y0..y1`.
#[derive(Clone, Copy, Debug, PartialEq, Eq, Structural)]
pub struct Rect {
    pub x0: i16,
    pub y0: i16,
    pub x1: i16,
    pub y1: i16,
}

impl Rect {
    pub fn new(p0: Point, p1: Point) -> (r: Self)
        ensures
            r == (Rect { x0: p0.x, y0: p0.y, x1: p1.x, y1: p1.y }),
    {
        Rect { x0: p0.x, y0: p0.y, x1: p1.x, y1: p1.y }
    }

    pub open spec fn spec_zero() -> Rect {
        Rect { x0: 0, y0: 0, x1: 0, y1: 0 }
    }

    #[verifier::when_used_as_spec(spec_zero)]
    pub fn zero() -> (r: Self)
        ensures
            r == Rect::spec_zero(),
    {
        Rect { x0: 0, y0: 0, x1: 0, y1: 0 }
    }

    pub fn from_top_left_and_size(p0: Point, size: Offset) -> (r: Self)
        requires
            p0.can_shift(size),
        ensures
            r == (Rect { x0: p0.x, y0: p0.y, x1: (p0.x + size.x) as i16, y1: (p0.y + size.y) as i16 }),
    {
        Rect { x0: p0.x, y0: p0.y, x1: p0.x + size.x, y1: p0.y + size.y }
    }

    /// The horizontal extent, negative where the edges are swapped.
    pub open spec fn spec_width(&self) -> int {
        self.x1 - self.x0
    }

    /// The vertical extent, negative where the edges are swapped.
    pub open spec fn spec_height(&self) -> int {
        self.y1 - self.y0
    }

    pub fn width(&self) -> (w: i16)
        requires
            in_i16(self.spec_width()),
        ensures
            w == self.spec_width(),
    {
        self.x1 - self.x0
    }

    pub fn height(&self) -> (h: i16)
        requires
            in_i16(self.spec_height()),
        ensures
            h == self.spec_height(),
    {
        self.y1 - self.y0
    }

    pub open spec fn spec_top_left(&self) -> Point {
        Point { x: self.x0, y: self.y0 }
    }

    #[verifier::when_used_as_spec(spec_top_left)]
    pub fn top_left(&self) -> (p: Point)
        ensures
            p == self.spec_top_left(),
    {
        Point { x: self.x0, y: self.y0 }
    }

    pub open spec fn spec_bottom_right(&self) -> Point {
        Point { x: self.x1, y: self.y1 }
    }

    #[verifier::when_used_as_spec(spec_bottom_right)]
    pub fn bottom_right(&self) -> (p: Point)
        ensures
            p == self.spec_bottom_right(),
    {
        Point { x: self.x1, y: self.y1 }
    }

    /// The point halfway between the top left and the bottom right corner.
    pub open spec fn spec_center(&self) -> Point {
        self.spec_top_left().spec_center(self.spec_bottom_right())
    }

    #[verifier::when_used_as_spec(spec_center)]
    pub fn center(&self) -> (p: Point)
        ensures
            p == self.spec_center(),
            p.x == half(self.x0 as int) + half(self.x1 as int),
            p.y == half(self.y0 as int) + half(self.y1 as int),
    {
        self.top_left().center(self.bottom_right())
    }

    /// Whether the point lies inside: the left and top edges belong to the
    /// rectangle, the right and bottom edges do not.
    pub open spec fn spec_contains(&self, point: Point) -> bool {
        &&& self.x0 <= point.x < self.x1
        &&& self.y0 <= point.y < self.y1
    }

    #[verifier::when_used_as_spec(spec_contains)]
    pub fn contains(&self, point: Point) -> (r: bool)
        ensures
            r == self.spec_contains(point),
    {
        point.x >= self.x0 && point.x < self.x1 && point.y >= self.y0 && point.y < self.y1
    }

    /// Whether no edge of `inner` lies outside this rectangle.
    pub open spec fn encloses(&self, inner: Rect) -> bool {
        &&& self.x0 <= inner.x0
        &&& inner.x1 <= self.x1
        &&& self.y0 <= inner.y0
        &&& inner.y1 <= self.y1
    }

    /// The smallest rectangle whose edges lie outside neither of the two.
    pub open spec fn spec_union(&self, other: Rect) -> Rect {
        Rect {
            x0: if self.x0 <= other.x0 { self.x0 } else { other.x0 },
            y0: if self.y0 <= other.y0 { self.y0 } else { other.y0 },
            x1: if self.x1 >= other.x1 { self.x1 } else { other.x1 },
            y1: if self.y1 >= other.y1 { self.y1 } else { other.y1 },
        }
    }

    #[verifier::when_used_as_spec(spec_union)]
    pub fn union(&self, other: Rect) -> (r: Rect)
        ensures
            r == self.spec_union(other),
    {
        Rect {
            x0: if self.x0 <= other.x0 { self.x0 } else { other.x0 },
            y0: if self.y0 <= other.y0 { self.y0 } else { other.y0 },
            x1: if self.x1 >= other.x1 { self.x1 } else { other.x1 },
            y1: if self.y1 >= other.y1 { self.y1 } else { other.y1 },
        }
    }

    /// Whether every edge, moved inwards by `insets`, is still an `i16`.
    pub open spec fn can_inset(&self, insets: Insets) -> bool {
        &&& in_i16(self.x0 + insets.left)
        &&& in_i16(self.y0 + insets.top)
        &&& in_i16(self.x1 - insets.right)
        &&& in_i16(self.y1 - insets.bottom)
    }

    /// This rectangle with every edge moved inwards by `insets`.
    pub open spec fn spec_inset(&self, insets: Insets) -> Rect {
        Rect {
            x0: (self.x0 + insets.left) as i16,
            y0: (self.y0 + insets.top) as i16,
            x1: (self.x1 - insets.right) as i16,
            y1: (self.y1 - insets.bottom) as i16,
        }
    }

    #[verifier::when_used_as_spec(spec_inset)]
    pub fn inset(&self, insets: Insets) -> (r: Rect)
        requires
            self.can_inset(insets),
        ensures
            r == self.spec_inset(insets),
    {
        Rect {
            x0: self.x0 + insets.left,
            y0: self.y0 + insets.top,
            x1: self.x1 - insets.right,
            y1: self.y1 - insets.bottom,
        }
    }

    /// Whether every edge, moved outwards by `insets`, is still an `i16`.
    pub open spec fn can_outset(&self, insets: Insets) -> bool {
        &&& in_i16(self.x0 - insets.left)
        &&& in_i16(self.y0 - insets.top)
        &&& in_i16(self.x1 + insets.right)
        &&& in_i16(self.y1 + insets.bottom)
    }

    /// This rectangle with every edge moved outwards by `insets`.
    pub open spec fn spec_outset(&self, insets: Insets) -> Rect {
        Rect {
            x0: (self.x0 - insets.left) as i16,
            y0: (self.y0 - insets.top) as i16,
            x1: (self.x1 + insets.right) as i16,
            y1: (self.y1 + insets.bottom) as i16,
        }
    }

    #[verifier::when_used_as_spec(spec_outset)]
    pub fn outset(&self, insets: Insets) -> (r: Rect)
        requires
            self.can_outset(insets),
        ensures
            r == self.spec_outset(insets),
    {
        Rect {
            x0: self.x0 - insets.left,
            y0: self.y0 - insets.top,
            x1: self.x1 + insets.right,
            y1: self.y1 + insets.bottom,
        }
    }

    /// Whether the rectangle, moved by `offset`, stays on the `i16` plane.
    pub open spec fn can_translate(&self, offset: Offset) -> bool {
        &&& in_i16(self.x0 + offset.x)
        &&& in_i16(self.x1 + offset.x)
        &&& in_i16(self.y0 + offset.y)
        &&& in_i16(self.y1 + offset.y)
    }

    /// This rectangle moved by `offset`, its size unchanged.
    pub open spec fn spec_translate(&self, offset: Offset) -> Rect {
        Rect {
            x0: (self.x0 + offset.x) as i16,
            y0: (self.y0 + offset.y) as i16,
            x1: (self.x1 + offset.x) as i16,
            y1: (self.y1 + offset.y) as i16,
        }
    }

    #[verifier::when_used_as_spec(spec_translate)]
    pub fn translate(&self, offset: Offset) -> (r: Rect)
        requires
            self.can_translate(offset),
        ensures
            r == self.spec_translate(offset),
    {
        Rect {
            x0: self.x0 + offset.x,
            y0: self.y0 + offset.y,
            x1: self.x1 + offset.x,
            y1: self.y1 + offset.y,
        }
    }

    /// The horizontal line at which `split_top(height)` cuts: `height` below
    /// the top edge, but never outside the rectangle.
    pub open spec fn cut_from_top(&self, height: int) -> int {
        self.y0 + clamp(height, 0, self.spec_height())
    }

    /// The vertical line at which `split_left(width)` cuts: `width` right of
    /// the left edge, but never outside the rectangle.
    pub open spec fn cut_from_left(&self, width: int) -> int {
        self.x0 + clamp(width, 0, self.spec_width())
    }

    /// The parts above and below the horizontal line `y`.
    pub open spec fn cut_at_y(&self, y: int) -> (Rect, Rect) {
        (
            Rect { x0: self.x0, y0: self.y0, x1: self.x1, y1: y as i16 },
            Rect { x0: self.x0, y0: y as i16, x1: self.x1, y1: self.y1 },
        )
    }

    /// The parts left and right of the vertical line `x`.
    pub open spec fn cut_at_x(&self, x: int) -> (Rect, Rect) {
        (
            Rect { x0: self.x0, y0: self.y0, x1: x as i16, y1: self.y1 },
            Rect { x0: x as i16, y0: self.y0, x1: self.x1, y1: self.y1 },
        )
    }

    /// A strip of `height` at the top, and the rest below it.
    pub open spec fn spec_split_top(&self, height: int) -> (Rect, Rect) {
        self.cut_at_y(self.cut_from_top(height))
    }

    /// The rest at the top, and a strip of `height` at the bottom.
    pub open spec fn spec_split_bottom(&self, height: int) -> (Rect, Rect) {
        self.cut_at_y(self.cut_from_top(self.spec_height() - height))
    }

    /// A strip of `width` at the left, and the rest right of it.
    pub open spec fn spec_split_left(&self, width: int) -> (Rect, Rect) {
        self.cut_at_x(self.cut_from_left(width))
    }

    /// The rest at the left, and a strip of `width` at the right.
    pub open spec fn spec_split_right(&self, width: int) -> (Rect, Rect) {
        self.cut_at_x(self.cut_from_left(self.spec_width() - width))
    }

    /// A cut never leaves the rectangle, so it is always an `i16`; in a
    /// rectangle whose edges are in order it lies between them.
    pub proof fn lemma_cuts_stay_inside(&self, amount: int)
        ensures
            in_i16(self.cut_from_top(amount)),
            in_i16(self.cut_from_left(amount)),
            self.y0 <= self.y1 ==> self.y0 <= self.cut_from_top(amount) <= self.y1,
            self.x0 <= self.x1 ==> self.x0 <= self.cut_from_left(amount) <= self.x1,
            self.y0 <= self.y1 && 0 <= amount <= self.spec_height() ==> self.cut_from_top(amount)
                == self.y0 + amount,
            self.x0 <= self.x1 && 0 <= amount <= self.spec_width() ==> self.cut_from_left(amount)
                == self.x0 + amount,
    {
    }

    fn cut_line(start: i16, end: i16, amount: i32) -> (line: i16)
        ensures
            line == start + clamp(amount as int, 0, end - start),
    {
        let extent: i32 = end as i32 - start as i32;
        let taken: i32 = if amount < 0 {
            0
        } else if amount > extent {
            extent
        } else {
            amount
        };
        (start as i32 + taken) as i16
    }

    pub fn split_top(self, height: i16) -> (r: (Rect, Rect))
        ensures
            r == self.spec_split_top(height as int),
    {
        let y = Self::cut_line(self.y0, self.y1, height as i32);
        (
            Rect { x0: self.x0, y0: self.y0, x1: self.x1, y1: y },
            Rect { x0: self.x0, y0: y, x1: self.x1, y1: self.y1 },
        )
    }

    pub fn split_bottom(self, height: i16) -> (r: (Rect, Rect))
        ensures
            r == self.spec_split_bottom(height as int),
    {
        let rest: i32 = self.y1 as i32 - self.y0 as i32 - height as i32;
        let y = Self::cut_line(self.y0, self.y1, rest);
        (
            Rect { x0: self.x0, y0: self.y0, x1: self.x1, y1: y },
            Rect { x0: self.x0, y0: y, x1: self.x1, y1: self.y1 },
        )
    }

    pub fn split_left(self, width: i16) -> (r: (Rect, Rect))
        ensures
            r == self.spec_split_left(width as int),
    {
        let x = Self::cut_line(self.x0, self.x1, width as i32);
        (
            Rect { x0: self.x0, y0: self.y0, x1: x, y1: self.y1 },
            Rect { x0: x, y0: self.y0, x1: self.x1, y1: self.y1 },
        )
    }

    pub fn split_right(self, width: i16) -> (r: (Rect, Rect))
        ensures
            r == self.spec_split_right(width as int),
    {
        let rest: i32 = self.x1 as i32 - self.x0 as i32 - width as i32;
        let x = Self::cut_line(self.x0, self.x1, rest);
        (
            Rect { x0: self.x0, y0: self.y0, x1: x, y1: self.y1 },
            Rect { x0: x, y0: self.y0, x1: self.x1, y1: self.y1 },
        )
    }
}

/// The cells of a grid from one corner cell to the opposite one, each given
/// as `(row, column)`.
#[derive(Clone, Copy, Debug, PartialEq, Eq)]
pub struct GridCellSpan {
    pub from: (usize, usize),
    pub to: (usize, usize),
}

/// An area divided into `rows` by `cols` cells of equal size, with
/// `spacing` pixels between neighbouring cells.
#[derive(Clone, Copy, Debug, PartialEq, Eq, Structural)]
pub struct Grid {
    pub rows: usize,
    pub cols: usize,
    pub spacing: i16,
    pub area: Rect,
}

impl Grid {
    /// A grid without spacing.
    pub fn new(area: Rect, rows: usize, cols: usize) -> (g: Self)
        ensures
            g == (Grid { rows, cols, spacing: 0, area }),
    {
        Grid { rows, cols, spacing: 0, area }
    }

    pub fn with_spacing(self, spacing: i16) -> (g: Self)
        ensures
            g == (Grid { spacing, ..self }),
    {
        Grid { rows: self.rows, cols: self.cols, spacing, area: self.area }
    }

    /// A grid that can be laid out: it has at least one row and one column,
    /// its spacing is not negative, and its area has room for the spacing
    /// between all rows and all columns.
    pub open spec fn valid(&self) -> bool {
        &&& 1 <= self.rows <= i16::MAX
        &&& 1 <= self.cols <= i16::MAX
        &&& self.spacing >= 0
        &&& self.spacing * (self.cols - 1) <= self.area.spec_width()
        &&& self.spacing * (self.rows - 1) <= self.area.spec_height()
    }

    /// Whether the grid has a cell at `(row, col)`.
    pub open spec fn has_cell(&self, row: int, col: int) -> bool {
        0 <= row < self.rows && 0 <= col < self.cols
    }

    /// Whether both corner cells of `span` are cells of the grid.
    pub open spec fn has_span(&self, span: GridCellSpan) -> bool {
        &&& self.has_cell(span.from.0 as int, span.from.1 as int)
        &&& self.has_cell(span.to.0 as int, span.to.1 as int)
    }

    /// The width of every cell: what the spacing leaves of the area's
    /// width, divided evenly, the remainder dropped.
    pub open spec fn cell_width(&self) -> int {
        (self.area.spec_width() - self.spacing * (self.cols - 1)) / (self.cols as int)
    }

    /// The height of every cell.
    pub open spec fn cell_height(&self) -> int {
        (self.area.spec_height() - self.spacing * (self.rows - 1)) / (self.rows as int)
    }

    /// The left edge of column `col`.
    pub open spec fn cell_x(&self, col: int) -> int {
        self.area.x0 + col * (self.cell_width() + self.spacing)
    }

    /// The top edge of row `row`.
    pub open spec fn cell_y(&self, row: int) -> int {
        self.area.y0 + row * (self.cell_height() + self.spacing)
    }

    /// The rectangle of the cell at `(row, col)`.
    pub open spec fn spec_row_col(&self, row: int, col: int) -> Rect {
        Rect {
            x0: self.cell_x(col) as i16,
            y0: self.cell_y(row) as i16,
            x1: (self.cell_x(col) + self.cell_width()) as i16,
            y1: (self.cell_y(row) + self.cell_height()) as i16,
        }
    }

    /// The rectangle that spans the two corner cells of `span`.
    pub open spec fn spec_cells(&self, span: GridCellSpan) -> Rect {
        self.spec_row_col(span.from.0 as int, span.from.1 as int).spec_union(
            self.spec_row_col(span.to.0 as int, span.to.1 as int),
        )
    }

    /// Along one axis of a valid grid, cell `index` of `count` starts and
    /// ends within the `extent` that the cells and their spacing share.
    proof fn lemma_axis_within(extent: int, spacing: int, count: int, index: int)
        requires
            count >= 1,
            spacing >= 0,
            spacing * (count - 1) <= extent,
            0 <= index < count,
        ensures
            ({
                let size = (extent - spacing * (count - 1)) / count;
                &&& 0 <= size
                &&& 0 <= index * (size + spacing)
                &&& index * (size + spacing) + size <= extent
            }),
    {
        let room = extent - spacing * (count - 1);
        let size = room / count;
        assert(0 <= size && size * count <= room) by (nonlinear_arith)
            requires
                room >= 0,
                count >= 1,
                size == room / count,
        ;
        assert(0 <= index * (size + spacing)) by (nonlinear_arith)
            requires
                0 <= index,
                0 <= size,
                0 <= spacing,
        ;
        assert(index * (size + spacing) + size <= size * count + spacing * (count - 1))
            by (nonlinear_arith)
            requires
                0 <= index < count,
                0 <= size,
                0 <= spacing,
        ;
    }

    /// Every cell of a valid grid lies within the grid's area, its edges in
    /// order, so each of its coordinates is the exact value of the formula.
    pub proof fn lemma_cell_within_area(&self, row: int, col: int)
        requires
            self.valid(),
            self.has_cell(row, col),
        ensures
            self.area.encloses(self.spec_row_col(row, col)),
            self.area.x0 <= self.cell_x(col) <= self.cell_x(col) + self.cell_width()
                <= self.area.x1,
            self.area.y0 <= self.cell_y(row) <= self.cell_y(row) + self.cell_height()
                <= self.area.y1,
    {
        Self::lemma_axis_within(
            self.area.spec_width(),
            self.spacing as int,
            self.cols as int,
            col,
        );
        Self::lemma_axis_within(
            self.area.spec_height(),
            self.spacing as int,
            self.rows as int,
            row,
        );
    }

    /// The rectangle that a span of cells of a valid grid resolves to lies
    /// within the grid's area.
    pub proof fn lemma_span_within_area(&self, span: GridCellSpan)
        requires
            self.valid(),
            self.has_span(span),
        ensures
            self.area.encloses(self.spec_cells(span)),
    {
        self.lemma_cell_within_area(span.from.0 as int, span.from.1 as int);
        self.lemma_cell_within_area(span.to.0 as int, span.to.1 as int);
    }

    /// Whether this grid is valid.
    pub fn is_valid(&self) -> (ok: bool)
        ensures
            ok == self.valid(),
    {
        if self.rows < 1 || self.rows > 32767 || self.cols < 1 || self.cols > 32767
            || self.spacing < 0 {
            return false;
        }
        let width: i64 = self.area.x1 as i64 - self.area.x0 as i64;
        let height: i64 = self.area.y1 as i64 - self.area.y0 as i64;
        let spacing: i64 = self.spacing as i64;
        let col_gaps: i64 = self.cols as i64 - 1;
        let row_gaps: i64 = self.rows as i64 - 1;
        assert(0 <= spacing * col_gaps <= 32767 * 32767 && 0 <= spacing * row_gaps <= 32767
            * 32767) by (nonlinear_arith)
            requires
                0 <= spacing <= 32767,
                0 <= col_gaps <= 32767,
                0 <= row_gaps <= 32767,
        ;
        spacing * col_gaps <= width && spacing * row_gaps <= height
    }

    /// Whether `span` names cells of this grid.
    pub fn contains_span(&self, span: GridCellSpan) -> (ok: bool)
        ensures
            ok == self.has_span(span),
    {
        span.from.0 < self.rows && span.from.1 < self.cols && span.to.0 < self.rows && span.to.1
            < self.cols
    }

    fn axis_cell(start: i16, end: i16, spacing: i16, count: usize, index: usize) -> (r: (i16, i16))
        requires
            1 <= count <= i16::MAX,
            spacing >= 0,
            spacing * (count - 1) <= end - start,
            index < count,
        ensures
            ({
                let size = ((end - start) - spacing * (count - 1)) / (count as int);
                &&& r.0 == start + index * (size + spacing)
                &&& r.1 == start + index * (size + spacing) + size
            }),
    {
        let extent: i64 = end as i64 - start as i64;
        let gaps: i64 = count as i64 - 1;
        let step: i64 = spacing as i64;
        let at: i64 = index as i64;
        assert(0 <= step * gaps <= 32767 * 32767) by (nonlinear_arith)
            requires
                0 <= step <= 32767,
                0 <= gaps <= 32767,
        ;
        let size: i64 = (extent - step * gaps) / (count as i64);
        proof {
            Self::lemma_axis_within(extent as int, step as int, count as int, at as int);
        }
        let first: i64 = at * (size + step);
        ((start as i64 + first) as i16, (start as i64 + first + size) as i16)
    }

    /// The rectangle of the cell at `(row, col)`.
    pub fn row_col(&self, row: usize, col: usize) -> (r: Rect)
        requires
            self.valid(),
            self.has_cell(row as int, col as int),
        ensures
            r == self.spec_row_col(row as int, col as int),
            self.area.encloses(r),
    {
        proof {
            self.lemma_cell_within_area(row as int, col as int);
        }
        let (x0, x1) = Self::axis_cell(self.area.x0, self.area.x1, self.spacing, self.cols, col);
        let (y0, y1) = Self::axis_cell(self.area.y0, self.area.y1, self.spacing, self.rows, row);
        Rect { x0, y0, x1, y1 }
    }

    /// The rectangle that spans the two corner cells of `span`.
    pub fn cells(&self, span: GridCellSpan) -> (r: Rect)
        requires
            self.valid(),
            self.has_span(span),
        ensures
            r == self.spec_cells(span),
            self.area.encloses(r),
    {
        let from = self.row_col(span.from.0, span.from.1);
        let to = self.row_col(span.to.0, span.to.1);
        from.union(to)
    }
}

} // verus!
