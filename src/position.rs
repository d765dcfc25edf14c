//! How a node's rectangle follows from its parent's.
use vstd::prelude::*;

use crate::bounds::{
    add_i32, clamp_i32, clamp_u32, nested_layer, AsciiBounds, HorizontalAlignment, Padding, Value,
    VerticalAlignment,
};

verus! {

/// Where a node sits inside its parent.
#[derive(Clone, Copy, Debug, PartialEq, Eq, Structural)]
pub enum AsciiPosition {
    /// A rectangle of the given size, set against a side or the middle of the parent.
    Aligned {
        width: Value,
        height: Value,
        horizontal: HorizontalAlignment,
        vertical: VerticalAlignment,
    },
    /// The parent less the padding on each side.
    Padded { padding: Padding },
    /// One of `total_slices` columns of the parent; its layout is not defined, so
    /// layout trees refuse it.
    VerticalSlice { total_slices: u32, slice: u32 },
    /// One of `total_slices` rows of the parent; its layout is not defined, so
    /// layout trees refuse it.
    HorizontalSlice { total_slices: u32, slice: u32 },
    /// An offset from the parent's corner, a size, and a depth below the parent.
    Relative { x: i32, y: i32, width: Value, height: Value, layer: u32 },
}

/// How far from the parent's near edge a `size` long piece starts in a parent
/// `extent` long: at the near edge, centred (rounded down), or at the far edge;
/// a piece longer than the parent starts at the near edge.
pub open spec fn align_offset(start: bool, center: bool, extent: u32, size: u32) -> int {
    if start || size > extent {
        0
    } else if center {
        (extent - size) / 2
    } else {
        extent - size
    }
}

pub open spec fn min_u32(a: u32, b: u32) -> u32 {
    if a <= b {
        a
    } else {
        b
    }
}

fn offset_of(start: bool, center: bool, extent: u32, size: u32) -> (r: u32)
    ensures
        r == align_offset(start, center, extent, size),
{
    if start || size > extent {
        0
    } else if center {
        (extent - size) / 2
    } else {
        extent - size
    }
}

impl AsciiPosition {
    /// The layouts that can be computed: all but the slices.
    pub open spec fn supported(self) -> bool {
        !(self is VerticalSlice || self is HorizontalSlice)
    }

    pub fn is_supported(&self) -> (r: bool)
        ensures
            r == self.supported(),
    {
        match self {
            AsciiPosition::VerticalSlice { .. } => false,
            AsciiPosition::HorizontalSlice { .. } => false,
            _ => true,
        }
    }

    /// The rectangle of the given size inside `parent`, placed by the alignments,
    /// cut down to the parent's size, one layer above it.
    pub open spec fn aligned_within(
        parent: AsciiBounds,
        width: Value,
        height: Value,
        horizontal: HorizontalAlignment,
        vertical: VerticalAlignment,
    ) -> AsciiBounds {
        let w = width.resolved(parent.width);
        let h = height.resolved(parent.height);
        AsciiBounds {
            x: clamp_i32(
                parent.x + align_offset(
                    horizontal == HorizontalAlignment::Left,
                    horizontal == HorizontalAlignment::Center,
                    parent.width,
                    w,
                ),
            ),
            y: clamp_i32(
                parent.y + align_offset(
                    vertical == VerticalAlignment::Top,
                    vertical == VerticalAlignment::Center,
                    parent.height,
                    h,
                ),
            ),
            width: min_u32(w, parent.width),
            height: min_u32(h, parent.height),
            layer: clamp_u32(parent.layer + 1),
        }
    }

    /// The rectangle that `self` gives inside `parent`, where `child` is the one the
    /// node had so far: a padding that leaves no room keeps `child` as it was.
    pub open spec fn formatted(self, parent: AsciiBounds, child: AsciiBounds) -> AsciiBounds {
        match self {
            AsciiPosition::Aligned { width, height, horizontal, vertical } => {
                AsciiPosition::aligned_within(parent, width, height, horizontal, vertical)
            },
            AsciiPosition::Padded { padding } => {
                if padding.fits(parent.width, parent.height) {
                    AsciiBounds {
                        x: clamp_i32(parent.x + padding.left),
                        y: clamp_i32(parent.y + padding.top),
                        width: Padding::inner(parent.width, padding.left, padding.right) as u32,
                        height: Padding::inner(parent.height, padding.top, padding.bottom) as u32,
                        layer: clamp_u32(parent.layer + 1),
                    }
                } else {
                    child
                }
            },
            AsciiPosition::Relative { x, y, width, height, layer } => {
                parent.placed(
                    AsciiBounds {
                        x,
                        y,
                        width: width.resolved(parent.width),
                        height: height.resolved(parent.height),
                        layer,
                    },
                )
            },
            _ => child,
        }
    }

    pub fn relative(x: i32, y: i32, width: Value, height: Value, layer: u32) -> (r: AsciiPosition)
        ensures
            r == (AsciiPosition::Relative { x, y, width, height, layer }),
    {
        AsciiPosition::Relative { x, y, width, height, layer }
    }

    /// A band `size` high along the top, the parent's full width.
    pub fn top(size: Value) -> (r: AsciiPosition)
        ensures
            r == (AsciiPosition::Aligned {
                width: Value::Percent(100),
                height: size,
                horizontal: HorizontalAlignment::Center,
                vertical: VerticalAlignment::Top,
            }),
    {
        AsciiPosition::Aligned {
            width: Value::Percent(100),
            height: size,
            horizontal: HorizontalAlignment::Center,
            vertical: VerticalAlignment::Top,
        }
    }

    /// A band `size` high along the bottom, the parent's full width.
    pub fn bottom(size: Value) -> (r: AsciiPosition)
        ensures
            r == (AsciiPosition::Aligned {
                width: Value::Percent(100),
                height: size,
                horizontal: HorizontalAlignment::Center,
                vertical: VerticalAlignment::Bottom,
            }),
    {
        AsciiPosition::Aligned {
            width: Value::Percent(100),
            height: size,
            horizontal: HorizontalAlignment::Center,
            vertical: VerticalAlignment::Bottom,
        }
    }

    /// A band `size` wide along the left side, the parent's full height.
    pub fn left(size: Value) -> (r: AsciiPosition)
        ensures
            r == (AsciiPosition::Aligned {
                width: size,
                height: Value::Percent(100),
                horizontal: HorizontalAlignment::Left,
                vertical: VerticalAlignment::Center,
            }),
    {
        AsciiPosition::Aligned {
            width: size,
            height: Value::Percent(100),
            horizontal: HorizontalAlignment::Left,
            vertical: VerticalAlignment::Center,
        }
    }

    /// A band `size` wide along the right side, the parent's full height.
    pub fn right(size: Value) -> (r: AsciiPosition)
        ensures
            r == (AsciiPosition::Aligned {
                width: size,
                height: Value::Percent(100),
                horizontal: HorizontalAlignment::Right,
                vertical: VerticalAlignment::Center,
            }),
    {
        AsciiPosition::Aligned {
            width: size,
            height: Value::Percent(100),
            horizontal: HorizontalAlignment::Right,
            vertical: VerticalAlignment::Center,
        }
    }

    /// A rectangle of the given size in the middle of the parent.
    pub fn centered(width: Value, height: Value) -> (r: AsciiPosition)
        ensures
            r == (AsciiPosition::Aligned {
                width,
                height,
                horizontal: HorizontalAlignment::Center,
                vertical: VerticalAlignment::Center,
            }),
    {
        AsciiPosition::Aligned {
            width,
            height,
            horizontal: HorizontalAlignment::Center,
            vertical: VerticalAlignment::Center,
        }
    }

    /// The whole of the parent.
    pub fn fill() -> (r: AsciiPosition)
        ensures
            r == (AsciiPosition::Aligned {
                width: Value::Percent(100),
                height: Value::Percent(100),
                horizontal: HorizontalAlignment::Center,
                vertical: VerticalAlignment::Center,
            }),
    {
        AsciiPosition::Aligned {
            width: Value::Percent(100),
            height: Value::Percent(100),
            horizontal: HorizontalAlignment::Center,
            vertical: VerticalAlignment::Center,
        }
    }

    pub fn aligned(
        width: Value,
        height: Value,
        horizontal: HorizontalAlignment,
        vertical: VerticalAlignment,
    ) -> (r: AsciiPosition)
        ensures
            r == (AsciiPosition::Aligned { width, height, horizontal, vertical }),
    {
        AsciiPosition::Aligned { width, height, horizontal, vertical }
    }

    /// Sets `child_bounds` to the rectangle this position gives inside `parent_bounds`.
    pub fn format_bounds(&self, parent_bounds: &AsciiBounds, child_bounds: &mut AsciiBounds)
        requires
            self.supported(),
        ensures
            *final(child_bounds) == self.formatted(*parent_bounds, *old(child_bounds)),
    {
        match self {
            AsciiPosition::Aligned { width, height, horizontal, vertical } => {
                Self::format_bounds_aligned(
                    *width,
                    *height,
                    *horizontal,
                    *vertical,
                    parent_bounds,
                    child_bounds,
                )
            },
            AsciiPosition::Padded { padding } => {
                Self::format_bounds_padded(*padding, parent_bounds, child_bounds)
            },
            AsciiPosition::Relative { x, y, width, height, layer } => {
                Self::format_bounds_relative(
                    *x,
                    *y,
                    *width,
                    *height,
                    *layer,
                    parent_bounds,
                    child_bounds,
                )
            },
            _ => {},
        }
    }

    /// The rectangle this position gives inside `parent_bounds`, starting from an
    /// empty one.
    pub fn create_bounds(&self, parent_bounds: &AsciiBounds) -> (r: AsciiBounds)
        requires
            self.supported(),
        ensures
            r == self.formatted(*parent_bounds, AsciiBounds::dims(0, 0)),
    {
        let mut child = AsciiBounds::from_dims(0, 0);
        self.format_bounds(parent_bounds, &mut child);
        child
    }

    pub fn create_bounds_aligned(
        width: Value,
        height: Value,
        horizontal_alignment: HorizontalAlignment,
        vertical_alignment: VerticalAlignment,
        parent_bounds: &AsciiBounds,
    ) -> (r: AsciiBounds)
        ensures
            r == AsciiPosition::aligned_within(
                *parent_bounds,
                width,
                height,
                horizontal_alignment,
                vertical_alignment,
            ),
    {
        let mut child = AsciiBounds::from_dims(0, 0);
        Self::format_bounds_aligned(
            width,
            height,
            horizontal_alignment,
            vertical_alignment,
            parent_bounds,
            &mut child,
        );
        child
    }

    pub fn format_bounds_aligned(
        width: Value,
        height: Value,
        horizontal_alignment: HorizontalAlignment,
        vertical_alignment: VerticalAlignment,
        parent_bounds: &AsciiBounds,
        child_bounds: &mut AsciiBounds,
    )
        ensures
            *final(child_bounds) == AsciiPosition::aligned_within(
                *parent_bounds,
                width,
                height,
                horizontal_alignment,
                vertical_alignment,
            ),
    {
        let width = width.pixel_u32(parent_bounds.width);
        let height = height.pixel_u32(parent_bounds.height);
        let x = offset_of(
            horizontal_alignment == HorizontalAlignment::Left,
            horizontal_alignment == HorizontalAlignment::Center,
            parent_bounds.width,
            width,
        );
        let y = offset_of(
            vertical_alignment == VerticalAlignment::Top,
            vertical_alignment == VerticalAlignment::Center,
            parent_bounds.height,
            height,
        );
        child_bounds.x = add_i32(parent_bounds.x, x as i64);
        child_bounds.y = add_i32(parent_bounds.y, y as i64);
        child_bounds.width = if width <= parent_bounds.width {
            width
        } else {
            parent_bounds.width
        };
        child_bounds.height = if height <= parent_bounds.height {
            height
        } else {
            parent_bounds.height
        };
        child_bounds.layer = nested_layer(parent_bounds.layer, 0);
    }

    fn format_bounds_padded(
        padding: Padding,
        parent_bounds: &AsciiBounds,
        child_bounds: &mut AsciiBounds,
    )
        ensures
            *final(child_bounds) == (AsciiPosition::Padded { padding }).formatted(
                *parent_bounds,
                *old(child_bounds),
            ),
    {
        if !padding.fits_within(parent_bounds.width, parent_bounds.height) {
            return ;
        }
        child_bounds.x = add_i32(parent_bounds.x, padding.left as i64);
        child_bounds.y = add_i32(parent_bounds.y, padding.top as i64);
        child_bounds.width = parent_bounds.width - padding.left - padding.right;
        child_bounds.height = parent_bounds.height - padding.top - padding.bottom;
        child_bounds.layer = nested_layer(parent_bounds.layer, 0);
    }

    fn format_bounds_relative(
        x: i32,
        y: i32,
        width: Value,
        height: Value,
        layer: u32,
        parent_bounds: &AsciiBounds,
        child_bounds: &mut AsciiBounds,
    )
        ensures
            *final(child_bounds) == (AsciiPosition::Relative {
                x,
                y,
                width,
                height,
                layer,
            }).formatted(*parent_bounds, *old(child_bounds)),
    {
        let local = AsciiBounds {
            x,
            y,
            width: width.pixel_u32(parent_bounds.width),
            height: height.pixel_u32(parent_bounds.height),
            layer,
        };
        *child_bounds = parent_bounds.relative(&local);
    }
}

/// An aligned rectangle is never wider or taller than its parent, and a relative
/// one is not either when its own width and height are within the parent's.
pub proof fn lemma_resolved_within_parent(
    position: AsciiPosition,
    parent: AsciiBounds,
    child: AsciiBounds,
)
    requires
        match position {
            AsciiPosition::Aligned { .. } => true,
            AsciiPosition::Relative { width, height, .. } => width.within(parent.width)
                && height.within(parent.height),
            _ => false,
        },
    ensures
        position.formatted(parent, child).width <= parent.width,
        position.formatted(parent, child).height <= parent.height,
{
    if let AsciiPosition::Relative { width, height, .. } = position {
        lemma_share_within(width, parent.width);
        lemma_share_within(height, parent.height);
    }
}

proof fn lemma_share_within(v: Value, extent: u32)
    requires
        v.within(extent),
    ensures
        v.resolved(extent) <= extent,
{
    if let Value::Percent(p) = v {
        assert(extent as int * p as int / 100 <= extent) by (nonlinear_arith)
            requires
                p <= 100,
        ;
    }
}

/// A node placed inside a parent lies on a deeper layer than the parent, unless
/// the parent is on the last layer or a padding left the node as it was.
pub proof fn lemma_resolved_layer_deeper(
    position: AsciiPosition,
    parent: AsciiBounds,
    child: AsciiBounds,
)
    requires
        position.supported(),
        parent.layer < u32::MAX,
        position is Padded ==> position->padding.fits(parent.width, parent.height),
    ensures
        position.formatted(parent, child).layer > parent.layer,
{
}

/// Placing a node a second time inside the same parent gives the rectangle the
/// first placement gave.
pub proof fn lemma_formatted_idempotent(
    position: AsciiPosition,
    parent: AsciiBounds,
    child: AsciiBounds,
)
    ensures
        position.formatted(parent, position.formatted(parent, child)) == position.formatted(
            parent,
            child,
        ),
{
}

} // verus!
