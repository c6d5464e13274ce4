//! Components that give another component its place: in a cell of a grid,
//! in a bar at the bottom, in a corner, or in one of two columns.
//!
//! None of them draws anything of its own, and each hands events and
//! painting on to what it holds.
use vstd::prelude::*;
use crate::component::{Component, Event, EventCtx, EventCtxView};
use crate::display::{DisplayList, DrawOpView};
use crate::geometry::{
    in_i16,
    Alignment,
    Alignment2D,
    Grid,
    GridCellSpan,
    Insets,
    Offset,
    Rect,
    TOP_RIGHT,
};

verus! {

/// Places a component in a span of cells of a grid laid over the bounds.
pub struct GridPlaced<T> {
    pub inner: T,
    pub grid: Grid,
    pub cells: GridCellSpan,
}

impl<T> GridPlaced<T> {
    /// A grid without rows or columns yet: `with_grid` has to follow before
    /// the component can be placed.
    pub fn new(inner: T) -> (r: Self)
        ensures
            r.inner == inner,
            r.grid == (Grid { rows: 0, cols: 0, spacing: 0, area: Rect::spec_zero() }),
            r.cells == (GridCellSpan { from: (0, 0), to: (0, 0) }),
    {
        GridPlaced {
            inner,
            grid: Grid::new(Rect::zero(), 0, 0),
            cells: GridCellSpan { from: (0, 0), to: (0, 0) },
        }
    }

    pub fn with_grid(self, rows: usize, cols: usize) -> (r: Self)
        ensures
            r == (GridPlaced { grid: Grid { rows, cols, ..self.grid }, ..self }),
    {
        let mut placed = self;
        placed.grid.rows = rows;
        placed.grid.cols = cols;
        placed
    }

    pub fn with_spacing(self, spacing: i16) -> (r: Self)
        ensures
            r == (GridPlaced { grid: Grid { spacing, ..self.grid }, ..self }),
    {
        let mut placed = self;
        placed.grid.spacing = spacing;
        placed
    }

    /// The component takes the single cell at `(row, col)`.
    pub fn with_row_col(self, row: usize, col: usize) -> (r: Self)
        ensures
            r == (GridPlaced {
                cells: GridCellSpan { from: (row, col), to: (row, col) },
                ..self
            }),
    {
        let mut placed = self;
        placed.cells = GridCellSpan { from: (row, col), to: (row, col) };
        placed
    }

    /// The component takes the cells from `from` to `to`, each given as
    /// `(row, column)`, both included.
    pub fn with_from_to(self, from: (usize, usize), to: (usize, usize)) -> (r: Self)
        ensures
            r == (GridPlaced { cells: GridCellSpan { from, to }, ..self }),
    {
        let mut placed = self;
        placed.cells = GridCellSpan { from, to };
        placed
    }

    /// The grid laid over `bounds`.
    pub open spec fn grid_in(&self, bounds: Rect) -> Grid {
        Grid { area: bounds, ..self.grid }
    }

    /// The rectangle of the component's cells when the grid is laid over
    /// `bounds`.
    pub open spec fn cell_in(&self, bounds: Rect) -> Rect {
        self.grid_in(bounds).spec_cells(self.cells)
    }

    /// Whether the grid can be laid over `bounds` and has the component's
    /// cells.
    pub open spec fn grid_fits(&self, bounds: Rect) -> bool {
        self.grid_in(bounds).valid() && self.grid_in(bounds).has_span(self.cells)
    }

    /// Whatever the shape of a grid that fits and whichever of its cells are
    /// taken, the rectangle given to the inner component lies within the
    /// bounds.
    pub proof fn lemma_cell_within_bounds(&self, bounds: Rect)
        requires
            self.grid_fits(bounds),
        ensures
            bounds.encloses(self.cell_in(bounds)),
    {
        self.grid_in(bounds).lemma_span_within_area(self.cells);
    }
}

impl<T: Component> Component for GridPlaced<T> {
    type Msg = T::Msg;

    open spec fn inv(&self) -> bool {
        self.inner.inv()
    }

    open spec fn fits(&self, bounds: Rect) -> bool {
        self.grid_fits(bounds) && self.inner.fits(self.cell_in(bounds))
    }

    open spec fn placed(&self, bounds: Rect) -> Self {
        GridPlaced {
            inner: self.inner.placed(self.cell_in(bounds)),
            grid: self.grid_in(bounds),
            cells: self.cells,
        }
    }

    open spec fn extent(&self, bounds: Rect) -> Rect {
        self.inner.extent(self.cell_in(bounds))
    }

    open spec fn dispatched(&self, ctx: EventCtxView, event: Event) -> (
        Self,
        EventCtxView,
        Option<T::Msg>,
    ) {
        let (inner, after, msg) = self.inner.dispatched(ctx, event);
        (GridPlaced { inner, grid: self.grid, cells: self.cells }, after, msg)
    }

    open spec fn painted(&self) -> Seq<DrawOpView> {
        self.inner.painted()
    }

    open spec fn areas(&self) -> Seq<Rect> {
        Seq::empty()
    }

    fn can_place(&self, bounds: Rect) -> (ok: bool) {
        let grid = Grid {
            rows: self.grid.rows,
            cols: self.grid.cols,
            spacing: self.grid.spacing,
            area: bounds,
        };
        if !grid.is_valid() || !grid.contains_span(self.cells) {
            return false;
        }
        self.inner.can_place(grid.cells(self.cells))
    }

    fn place(&mut self, bounds: Rect) -> (occupied: Rect) {
        self.grid.area = bounds;
        self.inner.place(self.grid.cells(self.cells))
    }

    fn event(&mut self, ctx: &mut EventCtx, event: Event) -> (msg: Option<T::Msg>) {
        self.inner.event(ctx, event)
    }

    fn paint(&mut self, out: &mut DisplayList) {
        self.inner.paint(out)
    }

    fn bounds(&self, sink: &mut Vec<Rect>) {
        assert(sink@ =~= old(sink)@ + self.areas());
    }

    proof fn lemma_place_again(&self, bounds: Rect) {
        self.inner.lemma_place_again(self.cell_in(bounds));
    }
}

/// Places a component in a bar of fixed height at the bottom of the bounds.
/// What lies above the bar is left to others.
pub struct FixedHeightBar<T> {
    pub inner: T,
    pub height: i16,
}

impl<T> FixedHeightBar<T> {
    pub fn bottom(inner: T, height: i16) -> (r: Self)
        ensures
            r == (FixedHeightBar { inner, height }),
    {
        FixedHeightBar { inner, height }
    }

    /// The bar within `bounds`: as wide as the bounds, `height` high where
    /// the bounds are that high, and at their bottom.
    pub open spec fn bar_in(&self, bounds: Rect) -> Rect {
        bounds.spec_split_bottom(self.height as int).1
    }

    /// The bar ends where the bounds end; where the bounds are at least as
    /// high as the bar, the bar has exactly its height.
    pub proof fn lemma_bar_at_bottom(&self, bounds: Rect)
        requires
            bounds.y0 <= bounds.y1,
        ensures
            bounds.encloses(self.bar_in(bounds)),
            self.bar_in(bounds).x0 == bounds.x0,
            self.bar_in(bounds).x1 == bounds.x1,
            self.bar_in(bounds).y1 == bounds.y1,
            0 <= self.height <= bounds.spec_height() ==> self.bar_in(bounds).spec_height()
                == self.height,
    {
        bounds.lemma_cuts_stay_inside(bounds.spec_height() - self.height);
    }
}

impl<T: Component> Component for FixedHeightBar<T> {
    type Msg = T::Msg;

    open spec fn inv(&self) -> bool {
        self.inner.inv()
    }

    open spec fn fits(&self, bounds: Rect) -> bool {
        self.inner.fits(self.bar_in(bounds))
    }

    open spec fn placed(&self, bounds: Rect) -> Self {
        FixedHeightBar { inner: self.inner.placed(self.bar_in(bounds)), height: self.height }
    }

    open spec fn extent(&self, bounds: Rect) -> Rect {
        self.inner.extent(self.bar_in(bounds))
    }

    open spec fn dispatched(&self, ctx: EventCtxView, event: Event) -> (
        Self,
        EventCtxView,
        Option<T::Msg>,
    ) {
        let (inner, after, msg) = self.inner.dispatched(ctx, event);
        (FixedHeightBar { inner, height: self.height }, after, msg)
    }

    open spec fn painted(&self) -> Seq<DrawOpView> {
        self.inner.painted()
    }

    open spec fn areas(&self) -> Seq<Rect> {
        Seq::empty()
    }

    fn can_place(&self, bounds: Rect) -> (ok: bool) {
        let (_, bar) = bounds.split_bottom(self.height);
        self.inner.can_place(bar)
    }

    fn place(&mut self, bounds: Rect) -> (occupied: Rect) {
        let (_, bar) = bounds.split_bottom(self.height);
        self.inner.place(bar)
    }

    fn event(&mut self, ctx: &mut EventCtx, event: Event) -> (msg: Option<T::Msg>) {
        self.inner.event(ctx, event)
    }

    fn paint(&mut self, out: &mut DisplayList) {
        self.inner.paint(out)
    }

    fn bounds(&self, sink: &mut Vec<Rect>) {
        assert(sink@ =~= old(sink)@ + self.areas());
    }

    proof fn lemma_place_again(&self, bounds: Rect) {
        self.inner.lemma_place_again(self.bar_in(bounds));
    }
}

/// Places a component of fixed size in a corner of the bounds, moved
/// inwards from the corner by a border.
pub struct Floating<T> {
    pub inner: T,
    pub size: Offset,
    pub border: Offset,
    pub align: Alignment2D,
}

impl<T> Floating<T> {
    /// `align` names the corner, each axis by `Start` or `End`. A component
    /// aligned to the centre of an axis cannot be placed.
    pub fn new(size: Offset, border: Offset, align: Alignment2D, inner: T) -> (r: Self)
        ensures
            r == (Floating { inner, size, border, align }),
    {
        Floating { inner, size, border, align }
    }

    /// A square of `side` in the top right corner, `border` away from the
    /// top and from the right edge.
    pub fn top_right(side: i16, border: i16, inner: T) -> (r: Self)
        ensures
            r == (Floating {
                inner,
                size: Offset { x: side, y: side },
                border: Offset { x: border, y: border },
                align: TOP_RIGHT,
            }),
    {
        let size = Offset::uniform(side);
        let border = Offset::uniform(border);
        Self::new(size, border, TOP_RIGHT, inner)
    }

    /// Whether the alignment names a corner.
    pub open spec fn cornered(&self) -> bool {
        self.align.0 != Alignment::Center && self.align.1 != Alignment::Center
    }

    /// The rectangle of the component's size in its corner of `bounds`,
    /// before the border is applied.
    pub open spec fn corner_in(&self, bounds: Rect) -> Rect {
        let column = if self.align.0 == Alignment::End {
            bounds.spec_split_right(self.size.x as int).1
        } else {
            bounds.spec_split_left(self.size.x as int).0
        };
        if self.align.1 == Alignment::End {
            column.spec_split_bottom(self.size.y as int).1
        } else {
            column.spec_split_top(self.size.y as int).0
        }
    }

    /// The way from the corner to the component: the border, on each axis
    /// towards the inside of the bounds.
    pub open spec fn shift(&self) -> (int, int) {
        (
            if self.align.0 == Alignment::End {
                -(self.border.x as int)
            } else {
                self.border.x as int
            },
            if self.align.1 == Alignment::End {
                -(self.border.y as int)
            } else {
                self.border.y as int
            },
        )
    }

    /// Whether the shift can be held in an `Offset`.
    pub open spec fn shift_fits(&self) -> bool {
        in_i16(self.shift().0) && in_i16(self.shift().1)
    }

    /// The shift as an `Offset`.
    pub open spec fn shift_offset(&self) -> Offset {
        Offset { x: self.shift().0 as i16, y: self.shift().1 as i16 }
    }

    /// The rectangle given to the inner component when placed in `bounds`.
    pub open spec fn target_in(&self, bounds: Rect) -> Rect {
        self.corner_in(bounds).spec_translate(self.shift_offset())
    }

    /// Whether the corner and the border can be resolved in `bounds`.
    pub open spec fn corner_fits(&self, bounds: Rect) -> bool {
        &&& self.cornered()
        &&& self.shift_fits()
        &&& self.corner_in(bounds).can_translate(self.shift_offset())
    }

    fn corner(&self, bounds: Rect) -> (r: Rect)
        requires
            self.cornered(),
        ensures
            r == self.corner_in(bounds),
    {
        let column = match self.align.0 {
            Alignment::End => bounds.split_right(self.size.x).1,
            _ => bounds.split_left(self.size.x).0,
        };
        match self.align.1 {
            Alignment::End => column.split_bottom(self.size.y).1,
            _ => column.split_top(self.size.y).0,
        }
    }

    fn is_cornered(&self) -> (ok: bool)
        ensures
            ok == self.cornered(),
    {
        let horizontal = match self.align.0 {
            Alignment::Center => false,
            _ => true,
        };
        let vertical = match self.align.1 {
            Alignment::Center => false,
            _ => true,
        };
        horizontal && vertical
    }

    fn target(&self, bounds: Rect) -> (r: Option<Rect>)
        ensures
            match r {
                Some(target) => self.corner_fits(bounds) && target == self.target_in(bounds),
                None => !self.corner_fits(bounds),
            },
    {
        if !self.is_cornered() {
            return None;
        }
        let dx: i32 = match self.align.0 {
            Alignment::End => -(self.border.x as i32),
            _ => self.border.x as i32,
        };
        let dy: i32 = match self.align.1 {
            Alignment::End => -(self.border.y as i32),
            _ => self.border.y as i32,
        };
        if dx > 32767 || dy > 32767 {
            return None;
        }
        let area = self.corner(bounds);
        let x0: i32 = area.x0 as i32 + dx;
        let x1: i32 = area.x1 as i32 + dx;
        let y0: i32 = area.y0 as i32 + dy;
        let y1: i32 = area.y1 as i32 + dy;
        if x0 < -32768 || x0 > 32767 || x1 < -32768 || x1 > 32767 || y0 < -32768 || y0 > 32767
            || y1 < -32768 || y1 > 32767 {
            return None;
        }
        Some(Rect { x0: x0 as i16, y0: y0 as i16, x1: x1 as i16, y1: y1 as i16 })
    }
}

impl<T: Component> Component for Floating<T> {
    type Msg = T::Msg;

    open spec fn inv(&self) -> bool {
        self.inner.inv()
    }

    open spec fn fits(&self, bounds: Rect) -> bool {
        self.corner_fits(bounds) && self.inner.fits(self.target_in(bounds))
    }

    open spec fn placed(&self, bounds: Rect) -> Self {
        Floating {
            inner: self.inner.placed(self.target_in(bounds)),
            size: self.size,
            border: self.border,
            align: self.align,
        }
    }

    open spec fn extent(&self, bounds: Rect) -> Rect {
        self.inner.extent(self.target_in(bounds))
    }

    open spec fn dispatched(&self, ctx: EventCtxView, event: Event) -> (
        Self,
        EventCtxView,
        Option<T::Msg>,
    ) {
        let (inner, after, msg) = self.inner.dispatched(ctx, event);
        (Floating { inner, size: self.size, border: self.border, align: self.align }, after, msg)
    }

    open spec fn painted(&self) -> Seq<DrawOpView> {
        self.inner.painted()
    }

    open spec fn areas(&self) -> Seq<Rect> {
        Seq::empty()
    }

    fn can_place(&self, bounds: Rect) -> (ok: bool) {
        match self.target(bounds) {
            Some(target) => self.inner.can_place(target),
            None => false,
        }
    }

    fn place(&mut self, bounds: Rect) -> (occupied: Rect) {
        let mut border = self.border;
        let area = match self.align.0 {
            Alignment::End => {
                border.x = -border.x;
                bounds.split_right(self.size.x).1
            },
            _ => bounds.split_left(self.size.x).0,
        };
        let area = match self.align.1 {
            Alignment::End => {
                border.y = -border.y;
                area.split_bottom(self.size.y).1
            },
            _ => area.split_top(self.size.y).0,
        };
        self.inner.place(area.translate(border))
    }

    fn event(&mut self, ctx: &mut EventCtx, event: Event) -> (msg: Option<T::Msg>) {
        self.inner.event(ctx, event)
    }

    fn paint(&mut self, out: &mut DisplayList) {
        self.inner.paint(out)
    }

    fn bounds(&self, sink: &mut Vec<Rect>) {
        assert(sink@ =~= old(sink)@ + self.areas());
    }

    proof fn lemma_place_again(&self, bounds: Rect) {
        self.inner.lemma_place_again(self.target_in(bounds));
    }
}

/// Two components in two columns: the first in a column of fixed width at
/// the left, the second in the rest, `spacing` away from the first.
pub struct VSplit<T, U> {
    pub first: T,
    pub second: U,
    pub width: i16,
    pub spacing: i16,
}

impl<T, U> VSplit<T, U> {
    pub fn new(width: i16, spacing: i16, first: T, second: U) -> (r: Self)
        ensures
            r == (VSplit { first, second, width, spacing }),
    {
        VSplit { first, second, width, spacing }
    }

    /// The column of the first component in `bounds`.
    pub open spec fn left_in(&self, bounds: Rect) -> Rect {
        bounds.spec_split_left(self.width as int).0
    }

    /// The column of the second component in `bounds`.
    pub open spec fn right_in(&self, bounds: Rect) -> Rect {
        bounds.spec_split_left(self.width as int).1.spec_inset(
            Insets { top: 0, right: 0, bottom: 0, left: self.spacing },
        )
    }

    /// Whether the left edge of the second column is an `i16`.
    pub open spec fn columns_fit(&self, bounds: Rect) -> bool {
        in_i16(bounds.cut_from_left(self.width as int) + self.spacing)
    }
}

impl<T: Component, U: Component<Msg = T::Msg>> Component for VSplit<T, U> {
    type Msg = T::Msg;

    open spec fn inv(&self) -> bool {
        self.first.inv() && self.second.inv()
    }

    open spec fn fits(&self, bounds: Rect) -> bool {
        &&& self.columns_fit(bounds)
        &&& self.first.fits(self.left_in(bounds))
        &&& self.second.fits(self.right_in(bounds))
    }

    open spec fn placed(&self, bounds: Rect) -> Self {
        VSplit {
            first: self.first.placed(self.left_in(bounds)),
            second: self.second.placed(self.right_in(bounds)),
            width: self.width,
            spacing: self.spacing,
        }
    }

    open spec fn extent(&self, bounds: Rect) -> Rect {
        bounds
    }

    open spec fn dispatched(&self, ctx: EventCtxView, event: Event) -> (
        Self,
        EventCtxView,
        Option<T::Msg>,
    ) {
        let (first, ctx1, msg1) = self.first.dispatched(ctx, event);
        if msg1 is Some {
            (
                VSplit { first, second: self.second, width: self.width, spacing: self.spacing },
                ctx1,
                msg1,
            )
        } else {
            let (second, ctx2, msg2) = self.second.dispatched(ctx1, event);
            (VSplit { first, second, width: self.width, spacing: self.spacing }, ctx2, msg2)
        }
    }

    open spec fn painted(&self) -> Seq<DrawOpView> {
        self.first.painted() + self.second.painted()
    }

    open spec fn areas(&self) -> Seq<Rect> {
        Seq::empty()
    }

    fn can_place(&self, bounds: Rect) -> (ok: bool) {
        let (left, right) = bounds.split_left(self.width);
        proof {
            bounds.lemma_cuts_stay_inside(self.width as int);
        }
        let edge: i32 = right.x0 as i32 + self.spacing as i32;
        if edge < -32768 || edge > 32767 {
            return false;
        }
        let right = right.inset(Insets::left(self.spacing));
        self.first.can_place(left) && self.second.can_place(right)
    }

    fn place(&mut self, bounds: Rect) -> (occupied: Rect) {
        let (left, right) = bounds.split_left(self.width);
        proof {
            bounds.lemma_cuts_stay_inside(self.width as int);
        }
        let right = right.inset(Insets::left(self.spacing));
        self.first.place(left);
        self.second.place(right);
        bounds
    }

    fn event(&mut self, ctx: &mut EventCtx, event: Event) -> (msg: Option<T::Msg>) {
        let first = self.first.event(ctx, event);
        if first.is_some() {
            first
        } else {
            self.second.event(ctx, event)
        }
    }

    fn paint(&mut self, out: &mut DisplayList) {
        self.first.paint(out);
        self.second.paint(out);
        assert(out@ =~= old(out)@ + old(self).painted());
    }

    fn bounds(&self, sink: &mut Vec<Rect>) {
        assert(sink@ =~= old(sink)@ + self.areas());
    }

    proof fn lemma_place_again(&self, bounds: Rect) {
        self.first.lemma_place_again(self.left_in(bounds));
        self.second.lemma_place_again(self.right_in(bounds));
    }
}

/// In a split the first component comes first: where it has an outcome for
/// an event, that is the outcome of the split, and the second component is
/// not touched. Only an event without an outcome there reaches the second.
pub proof fn lemma_vsplit_first_wins<T: Component, U: Component<Msg = T::Msg>>(
    split: VSplit<T, U>,
    ctx: EventCtxView,
    event: Event,
)
    ensures
        ({
            let (first, ctx1, msg1) = split.first.dispatched(ctx, event);
            let (after, ctx2, msg) = split.dispatched(ctx, event);
            &&& after.first == first
            &&& msg1 is Some ==> msg == msg1 && after.second == split.second && ctx2 == ctx1
            &&& msg1 is None ==> (after.second, ctx2, msg) == split.second.dispatched(ctx1, event)
        }),
{
}

} // verus!
