//! Lengths, alignments and the resolved rectangle of a node.
use vstd::prelude::*;

use crate::position::AsciiPosition;

verus! {

/// `v` pushed into the range of `i32`.
pub open spec fn clamp_i32(v: int) -> i32 {
    if v > i32::MAX {
        i32::MAX
    } else if v < i32::MIN {
        i32::MIN
    } else {
        v as i32
    }
}

/// `v` pushed into the range of `u32`.
pub open spec fn clamp_u32(v: int) -> u32 {
    if v > u32::MAX {
        u32::MAX
    } else if v < 0 {
        0
    } else {
        v as u32
    }
}

/// `a + b`, saturating at the ends of `i32`.
pub fn add_i32(a: i32, b: i64) -> (r: i32)
    requires
        i32::MIN <= b <= u32::MAX,
    ensures
        r == clamp_i32(a + b),
{
    let s: i64 = a as i64 + b;
    if s > i32::MAX as i64 {
        i32::MAX
    } else if s < i32::MIN as i64 {
        i32::MIN
    } else {
        s as i32
    }
}

/// `a + b + 1`, saturating at `u32::MAX`: the layer of a node nested in another.
pub fn nested_layer(a: u32, b: u32) -> (r: u32)
    ensures
        r == clamp_u32(a + b + 1),
{
    let s: u64 = a as u64 + b as u64 + 1;
    if s > u32::MAX as u64 {
        u32::MAX
    } else {
        s as u32
    }
}

/// A length: a number of cells, or hundredths of the parent's extent.
#[derive(Clone, Copy, Debug, PartialEq, Eq, Structural)]
pub enum Value {
    Px(i32),
    Percent(u32),
}

impl Value {
    /// The number of cells this length takes in a parent `parent_dim` cells long:
    /// a negative count is none, a share is rounded down.
    pub open spec fn resolved(self, parent_dim: u32) -> u32 {
        match self {
            Value::Px(v) => clamp_u32(v as int),
            Value::Percent(p) => clamp_u32(parent_dim as int * p as int / 100),
        }
    }

    /// The length is no longer than an extent of `extent` cells: at most that many
    /// cells, or at most the whole of it.
    pub open spec fn within(self, extent: u32) -> bool {
        match self {
            Value::Px(v) => v <= extent,
            Value::Percent(p) => p <= 100,
        }
    }

    pub fn pixel_u32(&self, parent_dim: u32) -> (r: u32)
        ensures
            r == self.resolved(parent_dim),
    {
        match self {
            Value::Px(v) => {
                if *v < 0 {
                    0
                } else {
                    *v as u32
                }
            },
            Value::Percent(p) => {
                let (a, b) = (parent_dim as u64, *p as u64);
                assert(a * b <= u32::MAX * u32::MAX) by (nonlinear_arith)
                    requires
                        a <= u32::MAX,
                        b <= u32::MAX,
                ;
                let share: u64 = a * b / 100;
                if share > u32::MAX as u64 {
                    u32::MAX
                } else {
                    share as u32
                }
            },
        }
    }
}

#[derive(Clone, Copy, Debug, PartialEq, Eq, Structural)]
pub enum HorizontalAlignment {
    Left,
    Center,
    Right,
}

#[derive(Clone, Copy, Debug, PartialEq, Eq, Structural)]
pub enum VerticalAlignment {
    Top,
    Center,
    Bottom,
}

impl Default for HorizontalAlignment {
    fn default() -> (r: Self)
        ensures
            r == HorizontalAlignment::Left,
    {
        HorizontalAlignment::Left
    }
}

impl Default for VerticalAlignment {
    fn default() -> (r: Self)
        ensures
            r == VerticalAlignment::Top,
    {
        VerticalAlignment::Top
    }
}

/// Space kept free on each side of a rectangle.
#[derive(Clone, Copy, Debug, PartialEq, Eq, Structural)]
pub struct Padding {
    pub top: u32,
    pub right: u32,
    pub bottom: u32,
    pub left: u32,
}

impl Padding {
    /// The same space on all four sides.
    pub fn uniform(padding: u32) -> (r: Padding)
        ensures
            r == (Padding { top: padding, right: padding, bottom: padding, left: padding }),
    {
        Padding { top: padding, right: padding, bottom: padding, left: padding }
    }

    /// `vertical` above and below, `horizontal` left and right.
    pub fn symmetric(vertical: u32, horizontal: u32) -> (r: Padding)
        ensures
            r == (Padding { top: vertical, right: horizontal, bottom: vertical, left: horizontal }),
    {
        Padding { top: vertical, right: horizontal, bottom: vertical, left: horizontal }
    }

    /// What is left of `extent` once `before` and `after` are taken off both ends.
    pub open spec fn inner(extent: u32, before: u32, after: u32) -> int {
        extent - before - after
    }

    /// The padding leaves a rectangle of positive size inside a `width` by `height` one.
    pub open spec fn fits(self, width: u32, height: u32) -> bool {
        Padding::inner(width, self.left, self.right) > 0 && Padding::inner(
            height,
            self.top,
            self.bottom,
        ) > 0
    }

    pub fn fits_within(&self, width: u32, height: u32) -> (r: bool)
        ensures
            r == self.fits(width, height),
    {
        (width as i64 - self.left as i64 - self.right as i64) > 0 && (height as i64
            - self.top as i64 - self.bottom as i64) > 0
    }
}

impl Default for Padding {
    fn default() -> (r: Self)
        ensures
            r == (Padding { top: 0, right: 0, bottom: 0, left: 0 }),
    {
        Padding { top: 0, right: 0, bottom: 0, left: 0 }
    }
}

/// A rectangle of the character grid, in absolute cells, with the depth it is drawn at.
#[derive(Clone, Copy, Debug, PartialEq, Eq, Structural)]
pub struct AsciiBounds {
    pub x: i32,
    pub y: i32,
    pub width: u32,
    pub height: u32,
    pub layer: u32,
}

impl Default for AsciiBounds {
    fn default() -> (r: Self)
        ensures
            r == (AsciiBounds { x: 0, y: 0, width: 0, height: 0, layer: 0 }),
    {
        AsciiBounds { x: 0, y: 0, width: 0, height: 0, layer: 0 }
    }
}

impl AsciiBounds {
    pub fn new(x: i32, y: i32, width: u32, height: u32, layer: u32) -> (r: AsciiBounds)
        ensures
            r == (AsciiBounds { x, y, width, height, layer }),
    {
        AsciiBounds { x, y, width, height, layer }
    }

    /// The whole of a `width` by `height` grid, at the bottom layer.
    pub open spec fn dims(width: u32, height: u32) -> AsciiBounds {
        AsciiBounds { x: 0, y: 0, width, height, layer: 0 }
    }

    pub fn from_dims(width: u32, height: u32) -> (r: AsciiBounds)
        ensures
            r == AsciiBounds::dims(width, height),
    {
        AsciiBounds { x: 0, y: 0, width, height, layer: 0 }
    }

    pub fn with_layer(self, layer: u32) -> (r: AsciiBounds)
        ensures
            r == (AsciiBounds { layer, ..self }),
    {
        AsciiBounds { layer, ..self }
    }

    /// The cell `(x, y)` lies in the rectangle, its far edges included.
    pub open spec fn contains(self, x: int, y: int) -> bool {
        self.x <= x <= self.x + self.width && self.y <= y <= self.y + self.height
    }

    pub fn is_within(&self, x: i32, y: i32) -> (r: bool)
        ensures
            r == self.contains(x as int, y as int),
    {
        x as i64 >= self.x as i64 && x as i64 <= self.x as i64 + self.width as i64 && y as i64
            >= self.y as i64 && y as i64 <= self.y as i64 + self.height as i64
    }

    /// Like `is_within`, with `(x, y)` counted from the rectangle's corner.
    pub fn is_within_local(&self, x: i32, y: i32) -> (r: bool)
        ensures
            r == (0 <= x <= self.width && 0 <= y <= self.height),
    {
        x >= 0 && x as i64 <= self.width as i64 && y >= 0 && y as i64 <= self.height as i64
    }

    /// `child`, given relative to this rectangle, in absolute cells and one layer deeper.
    pub open spec fn placed(self, child: AsciiBounds) -> AsciiBounds {
        AsciiBounds {
            x: clamp_i32(self.x + child.x),
            y: clamp_i32(self.y + child.y),
            width: child.width,
            height: child.height,
            layer: clamp_u32(child.layer + self.layer + 1),
        }
    }

    pub fn relative(&self, child: &AsciiBounds) -> (r: AsciiBounds)
        ensures
            r == self.placed(*child),
    {
        AsciiBounds {
            x: add_i32(self.x, child.x as i64),
            y: add_i32(self.y, child.y as i64),
            width: child.width,
            height: child.height,
            layer: nested_layer(child.layer, self.layer),
        }
    }

    /// A rectangle of the given size set inside this one by the alignments.
    pub fn aligned(
        &self,
        width: Value,
        height: Value,
        horizontal_alignment: HorizontalAlignment,
        vertical_alignment: VerticalAlignment,
    ) -> (r: AsciiBounds)
        ensures
            r == AsciiPosition::aligned_within(
                *self,
                width,
                height,
                horizontal_alignment,
                vertical_alignment,
            ),
    {
        AsciiPosition::create_bounds_aligned(
            width,
            height,
            horizontal_alignment,
            vertical_alignment,
            self,
        )
    }
}

/// The rectangle a node was last given, whether it waits to be computed again,
/// and whether what is drawn inside it is cut to it.
#[derive(Clone, Copy, Debug, PartialEq, Eq, Structural)]
pub struct AsciiGlobalBounds {
    pub bounds: AsciiBounds,
    pub is_dirty: bool,
    pub clip_bounds: bool,
}

impl AsciiGlobalBounds {
    pub fn new(x: i32, y: i32, width: u32, height: u32, layer: u32) -> (r: AsciiGlobalBounds)
        ensures
            r == (AsciiGlobalBounds {
                bounds: AsciiBounds { x, y, width, height, layer },
                is_dirty: false,
                clip_bounds: false,
            }),
    {
        AsciiGlobalBounds {
            bounds: AsciiBounds::new(x, y, width, height, layer),
            is_dirty: false,
            clip_bounds: false,
        }
    }

    pub fn set_from(&mut self, bounds: &AsciiBounds)
        ensures
            *final(self) == (AsciiGlobalBounds { bounds: *bounds, ..*old(self) }),
    {
        self.bounds = *bounds;
    }
}

} // verus!
