//! A clipped, offset view onto a surface, and what can be drawn through it.
use vstd::prelude::*;

use crate::bounds::{
    add_i32, clamp_i32, clamp_u32, nested_layer, AsciiBounds, HorizontalAlignment, Padding, Value,
    VerticalAlignment,
};
use crate::character::AsciiCharacter;
use crate::position::AsciiPosition;
use crate::surface::{lemma_coords_slot, lemma_slot_coords, lemma_slot_in_range, AsciiSurface};

verus! {

/// What a drawing puts at each cell of a buffer, counted from the buffer's
/// corner; `None` where it draws nothing.
pub type Drawing = spec_fn(int, int) -> Option<AsciiCharacter>;

/// A view onto a surface: drawing at `(x, y)` lands at `(bounds.x + x, bounds.y + y)`
/// on the surface, on the buffer's layer, and is dropped outside `clip_bounds`.
#[derive(Clone, Copy, Debug, PartialEq, Eq)]
pub struct AsciiBuffer {
    pub bounds: AsciiBounds,
    pub clip_bounds: Option<AsciiBounds>,
}

impl AsciiBuffer {
    /// A cell drawn at `(x, y)` reaches the surface: it falls on a cell with
    /// `i32` coordinates, inside the clip rectangle if there is one.
    pub open spec fn admits(self, x: int, y: int) -> bool {
        let ax = self.bounds.x + x;
        let ay = self.bounds.y + y;
        &&& i32::MIN <= ax <= i32::MAX
        &&& i32::MIN <= ay <= i32::MAX
        &&& self.clip_bounds matches Some(clip) ==> clip.contains(ax, ay)
    }

    /// The cells of `surface` once `c` is drawn at `(x, y)` of the buffer.
    pub open spec fn drawn(self, surface: AsciiSurface, x: int, y: int, c: AsciiCharacter) -> Seq<
        AsciiCharacter,
    > {
        if self.admits(x, y) {
            surface.written(self.bounds.x + x, self.bounds.y + y, c.layered(self.bounds.layer))
        } else {
            surface.cells()
        }
    }

    /// The cell in slot `i` of a grid `columns` wide holding `cells`, once
    /// `drawing` is drawn through the buffer.
    pub open spec fn painted_cell(
        self,
        cells: Seq<AsciiCharacter>,
        columns: u32,
        drawing: Drawing,
        i: int,
    ) -> AsciiCharacter {
        let x = i % (columns as int) - self.bounds.x;
        let y = i / (columns as int) - self.bounds.y;
        match drawing(x, y) {
            Some(c) => if self.admits(x, y) {
                c.layered(self.bounds.layer).over(cells[i])
            } else {
                cells[i]
            },
            None => cells[i],
        }
    }

    /// The cells of a grid `columns` wide once `drawing` is drawn through the
    /// buffer, each of its cells at most once.
    pub open spec fn painted_over(
        self,
        cells: Seq<AsciiCharacter>,
        columns: u32,
        drawing: Drawing,
    ) -> Seq<AsciiCharacter> {
        Seq::new(cells.len(), |i: int| self.painted_cell(cells, columns, drawing, i))
    }

    /// The cells of `surface` once `drawing` is drawn through the buffer.
    pub open spec fn painted(self, surface: AsciiSurface, drawing: Drawing) -> Seq<AsciiCharacter> {
        self.painted_over(surface.cells(), surface.columns(), drawing)
    }

    /// Drawing nothing leaves the surface as it was.
    pub proof fn lemma_paint_nothing(self, surface: AsciiSurface, drawing: Drawing)
        requires
            forall|x: int, y: int| #[trigger] drawing(x, y) is None,
        ensures
            self.painted(surface, drawing) == surface.cells(),
    {
        assert(self.painted(surface, drawing) =~= surface.cells());
    }

    /// Two drawings that agree everywhere paint the same.
    pub proof fn lemma_paint_same(self, surface: AsciiSurface, a: Drawing, b: Drawing)
        requires
            forall|x: int, y: int| #[trigger] a(x, y) == b(x, y),
        ensures
            self.painted(surface, a) == self.painted(surface, b),
    {
        assert(self.painted(surface, a) =~= self.painted(surface, b));
    }

    /// Two drawings that agree everywhere paint the same over any cells.
    pub proof fn lemma_paint_over_same(
        self,
        cells: Seq<AsciiCharacter>,
        columns: u32,
        a: Drawing,
        b: Drawing,
    )
        requires
            forall|x: int, y: int| #[trigger] a(x, y) == b(x, y),
        ensures
            self.painted_over(cells, columns, a) == self.painted_over(cells, columns, b),
    {
        assert(self.painted_over(cells, columns, a) =~= self.painted_over(cells, columns, b));
    }

    /// Drawing one more cell, where `before` drew nothing, turns the picture of
    /// `before` into the picture of `after`.
    pub proof fn lemma_paint_step(
        self,
        start: AsciiSurface,
        current: AsciiSurface,
        before: Drawing,
        after: Drawing,
        x: int,
        y: int,
        c: AsciiCharacter,
    )
        requires
            start.wf(),
            current.wf(),
            current.columns() == start.columns(),
            current.rows() == start.rows(),
            current.cells() == self.painted(start, before),
            before(x, y) is None,
            after(x, y) == Some(c),
            forall|a: int, b: int| !(a == x && b == y) ==> #[trigger] after(a, b) == before(a, b),
        ensures
            self.drawn(current, x, y, c) == self.painted(start, after),
    {
        let w = start.columns() as int;
        let ax = self.bounds.x + x;
        let ay = self.bounds.y + y;
        assert forall|i: int| 0 <= i < start.cells().len() implies #[trigger] self.drawn(
            current,
            x,
            y,
            c,
        )[i] == self.painted(start, after)[i] by {
            lemma_coords_slot(start, i);
            let lx = i % w - self.bounds.x;
            let ly = i / w - self.bounds.y;
            assert(current.cells()[i] == self.painted_cell(start.cells(), start.columns(), before, i));
            assert(self.painted(start, after)[i] == self.painted_cell(start.cells(), start.columns(), after, i));
            if lx == x && ly == y {
                assert(current.cells()[i] == start.cells()[i]);
                assert(current.slot(ax, ay) == i);
                assert(current.holds(ax, ay));
                let layered = c.layered(self.bounds.layer);
                if self.admits(x, y) {
                    assert(self.drawn(current, x, y, c) == current.written(ax, ay, layered));
                    assert(current.written(ax, ay, layered)[i] == layered.over(current.cells()[i]));
                    assert(self.painted_cell(start.cells(), start.columns(), after, i) == layered.over(start.cells()[i]));
                } else {
                    assert(self.painted_cell(start.cells(), start.columns(), after, i) == start.cells()[i]);
                }
                assert(self.drawn(current, x, y, c)[i] == self.painted_cell(start.cells(), start.columns(), after, i));
            } else {
                assert(after(lx, ly) == before(lx, ly));
                assert(self.painted_cell(start.cells(), start.columns(), after, i) == current.cells()[i]);
                if self.admits(x, y) {
                    if current.holds(ax, ay) {
                        lemma_slot_coords(start, ax, ay);
                        lemma_slot_in_range(current, ax, ay);
                        assert(i != current.slot(ax, ay));
                    }
                }
                assert(self.drawn(current, x, y, c)[i] == current.cells()[i]);
            }
        }
        if self.admits(x, y) && current.holds(ax, ay) {
            lemma_slot_in_range(current, ax, ay);
        }
        assert(self.drawn(current, x, y, c).len() == start.cells().len());
        assert(self.drawn(current, x, y, c) =~= self.painted(start, after));
    }

    pub fn new(bounds: &AsciiBounds, clip_bounds: Option<AsciiBounds>) -> (r: AsciiBuffer)
        ensures
            r == (AsciiBuffer { bounds: *bounds, clip_bounds }),
    {
        AsciiBuffer { bounds: *bounds, clip_bounds }
    }

    /// The same buffer, cut to its own rectangle.
    pub fn clip(&self) -> (r: AsciiBuffer)
        ensures
            r == (AsciiBuffer { bounds: self.bounds, clip_bounds: Some(self.bounds) }),
    {
        AsciiBuffer { bounds: self.bounds, clip_bounds: Some(self.bounds) }
    }

    /// Draws `character` at `(x, y)` of the buffer, on the buffer's layer.
    pub fn set_character(
        &self,
        surface: &mut AsciiSurface,
        x: i32,
        y: i32,
        character: AsciiCharacter,
    )
        requires
            old(surface).wf(),
        ensures
            final(surface).wf(),
            final(surface).columns() == old(surface).columns(),
            final(surface).rows() == old(surface).rows(),
            final(surface).cells() == self.drawn(*old(surface), x as int, y as int, character),
    {
        self.draw_at(surface, x as i128, y as i128, character);
    }

    pub(crate) fn draw_at(
        &self,
        surface: &mut AsciiSurface,
        x: i128,
        y: i128,
        character: AsciiCharacter,
    )
        requires
            old(surface).wf(),
            -0x1_0000_0000_0000_0000 <= x <= 0x1_0000_0000_0000_0000,
            -0x1_0000_0000_0000_0000 <= y <= 0x1_0000_0000_0000_0000,
        ensures
            final(surface).wf(),
            final(surface).columns() == old(surface).columns(),
            final(surface).rows() == old(surface).rows(),
            final(surface).cells() == self.drawn(*old(surface), x as int, y as int, character),
    {
        let ax: i128 = self.bounds.x as i128 + x;
        let ay: i128 = self.bounds.y as i128 + y;
        if ax < i32::MIN as i128 || ax > i32::MAX as i128 || ay < i32::MIN as i128 || ay
            > i32::MAX as i128 {
            return ;
        }
        if let Some(clip_bounds) = &self.clip_bounds {
            if !clip_bounds.is_within(ax as i32, ay as i32) {
                return ;
            }
        }
        surface.set_character(ax as i32, ay as i32, character.with_layer(self.bounds.layer));
    }

    /// A buffer over the given rectangle of absolute cells, one layer deeper, if
    /// its corner lies within this buffer.
    pub fn sub_buffer(&self, x: i32, y: i32, width: u32, height: u32) -> (r: Option<AsciiBuffer>)
        ensures
            r == if self.bounds.contains(x as int, y as int) {
                Some(
                    AsciiBuffer {
                        bounds: AsciiBounds {
                            x,
                            y,
                            width,
                            height,
                            layer: clamp_u32(self.bounds.layer + 1),
                        },
                        clip_bounds: self.clip_bounds,
                    },
                )
            } else {
                None
            },
    {
        if self.bounds.is_within(x, y) {
            return Some(
                AsciiBuffer {
                    bounds: AsciiBounds::new(x, y, width, height, nested_layer(self.bounds.layer, 0)),
                    clip_bounds: self.clip_bounds,
                },
            );
        }
        None
    }

    /// This buffer with its rectangle replaced by what `position` gives inside it.
    pub open spec fn placed(self, position: AsciiPosition) -> AsciiBuffer {
        AsciiBuffer {
            bounds: position.formatted(self.bounds, AsciiBounds::dims(0, 0)),
            clip_bounds: self.clip_bounds,
        }
    }

    fn with_position(&self, position: AsciiPosition) -> (r: AsciiBuffer)
        requires
            position.supported(),
        ensures
            r == self.placed(position),
    {
        AsciiBuffer { bounds: position.create_bounds(&self.bounds), clip_bounds: self.clip_bounds }
    }

    /// A buffer at `(x, y)` from this one's corner, one layer deeper than this one
    /// by this one's own layer again.
    pub fn relative(&self, x: i32, y: i32, width: Value, height: Value) -> (r: AsciiBuffer)
        ensures
            r == self.placed(AsciiPosition::Relative { x, y, width, height, layer: self.bounds.layer }),
    {
        self.with_position(AsciiPosition::relative(x, y, width, height, self.bounds.layer))
    }

    /// `size` as a length in cells.
    pub open spec fn cells_of(size: u32) -> Value {
        Value::Px(clamp_i32(size as int))
    }

    fn px(size: u32) -> (r: Value)
        ensures
            r == AsciiBuffer::cells_of(size),
    {
        if size > i32::MAX as u32 {
            Value::Px(i32::MAX)
        } else {
            Value::Px(size as i32)
        }
    }

    /// The band `size` cells high along the top of this buffer.
    pub fn top(&self, size: u32) -> (r: AsciiBuffer)
        ensures
            r == self.placed(
                AsciiPosition::Aligned {
                    width: Value::Percent(100),
                    height: AsciiBuffer::cells_of(size),
                    horizontal: HorizontalAlignment::Center,
                    vertical: VerticalAlignment::Top,
                },
            ),
    {
        self.with_position(AsciiPosition::top(AsciiBuffer::px(size)))
    }

    /// The band `size` cells high along the bottom of this buffer.
    pub fn bottom(&self, size: u32) -> (r: AsciiBuffer)
        ensures
            r == self.placed(
                AsciiPosition::Aligned {
                    width: Value::Percent(100),
                    height: AsciiBuffer::cells_of(size),
                    horizontal: HorizontalAlignment::Center,
                    vertical: VerticalAlignment::Bottom,
                },
            ),
    {
        self.with_position(AsciiPosition::bottom(AsciiBuffer::px(size)))
    }

    /// The band `size` cells wide along the left of this buffer.
    pub fn left(&self, size: u32) -> (r: AsciiBuffer)
        ensures
            r == self.placed(
                AsciiPosition::Aligned {
                    width: AsciiBuffer::cells_of(size),
                    height: Value::Percent(100),
                    horizontal: HorizontalAlignment::Left,
                    vertical: VerticalAlignment::Center,
                },
            ),
    {
        self.with_position(AsciiPosition::left(AsciiBuffer::px(size)))
    }

    /// The band `size` cells wide along the right of this buffer.
    pub fn right(&self, size: u32) -> (r: AsciiBuffer)
        ensures
            r == self.placed(
                AsciiPosition::Aligned {
                    width: AsciiBuffer::cells_of(size),
                    height: Value::Percent(100),
                    horizontal: HorizontalAlignment::Right,
                    vertical: VerticalAlignment::Center,
                },
            ),
    {
        self.with_position(AsciiPosition::right(AsciiBuffer::px(size)))
    }

    /// A buffer of the given size in the middle of this one.
    pub fn center(&self, width: Value, height: Value) -> (r: AsciiBuffer)
        ensures
            r == self.placed(
                AsciiPosition::Aligned {
                    width,
                    height,
                    horizontal: HorizontalAlignment::Center,
                    vertical: VerticalAlignment::Center,
                },
            ),
    {
        self.with_position(AsciiPosition::centered(width, height))
    }

    /// This buffer less the padding on each side, on the same layer; a padding
    /// that leaves no room gives this buffer back.
    pub fn padding(&self, padding: Padding) -> (r: AsciiBuffer)
        ensures
            r == if padding.fits(self.bounds.width, self.bounds.height) {
                AsciiBuffer {
                    bounds: AsciiBounds {
                        x: clamp_i32(self.bounds.x + padding.left),
                        y: clamp_i32(self.bounds.y + padding.top),
                        width: Padding::inner(self.bounds.width, padding.left, padding.right) as u32,
                        height: Padding::inner(self.bounds.height, padding.top, padding.bottom) as u32,
                        layer: self.bounds.layer,
                    },
                    clip_bounds: self.clip_bounds,
                }
            } else {
                *self
            },
    {
        let mut buffer = *self;
        if !padding.fits_within(buffer.bounds.width, buffer.bounds.height) {
            return buffer;
        }
        buffer.bounds.x = add_i32(buffer.bounds.x, padding.left as i64);
        buffer.bounds.y = add_i32(buffer.bounds.y, padding.top as i64);
        buffer.bounds.width = buffer.bounds.width - padding.left - padding.right;
        buffer.bounds.height = buffer.bounds.height - padding.top - padding.bottom;
        buffer
    }

    pub fn bounds(&self) -> (r: &AsciiBounds)
        ensures
            *r == self.bounds,
    {
        &self.bounds
    }
}

} // verus!
