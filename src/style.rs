//! Border styles and text overflow.
use vstd::prelude::*;

use crate::character::Character;

verus! {

/// The line a border is drawn with.
#[derive(Clone, Copy, Debug, PartialEq, Eq, Structural)]
pub enum BorderType {
    Full,
    Half,
    Dashed,
    Blank,
}

/// What happens to text that does not fit.
#[derive(Clone, Copy, Debug, PartialEq, Eq, Structural)]
pub enum TextOverflow {
    Hidden,
    Elipses,
}

impl Default for TextOverflow {
    fn default() -> (r: Self)
        ensures
            r == TextOverflow::Hidden,
    {
        TextOverflow::Hidden
    }
}

impl BorderType {
    /// The styles whose glyphs the atlas has: the full line, and no line.
    pub open spec fn drawable(self) -> bool {
        self is Full || self is Blank
    }

    /// The glyph of a piece of the border: its top, bottom, left or right side, or
    /// one of its corners (`0` top left, `1` top right, `2` bottom left, `3` bottom
    /// right); no line is the blank glyph.
    pub open spec fn glyph(self, piece: int) -> Character {
        if self is Blank {
            Character::Nil
        } else if piece == 4 {
            Character::BorderN
        } else if piece == 5 {
            Character::BorderS
        } else if piece == 6 {
            Character::BorderW
        } else if piece == 7 {
            Character::BorderE
        } else if piece == 0 {
            Character::LBorderNW
        } else if piece == 1 {
            Character::LBorderNE
        } else if piece == 2 {
            Character::LBorderSW
        } else {
            Character::LBorderSE
        }
    }

    /// Which piece of a `width` by `height` border the cell `(x, y)` is: a corner,
    /// then a side, or `8` inside.
    pub open spec fn piece_at(x: int, y: int, width: int, height: int) -> int {
        if x == 0 && y == 0 {
            0
        } else if x == width - 1 && y == 0 {
            1
        } else if x == 0 && y == height - 1 {
            2
        } else if x == width - 1 && y == height - 1 {
            3
        } else if x == 0 {
            6
        } else if x == width - 1 {
            7
        } else if y == 0 {
            4
        } else if y == height - 1 {
            5
        } else {
            8
        }
    }

    /// The glyph of the cell `(x, y)` of a `width` by `height` border; inside it,
    /// the blank glyph.
    pub open spec fn glyph_at(self, x: int, y: int, width: int, height: int) -> Character {
        let piece = BorderType::piece_at(x, y, width, height);
        if piece == 8 {
            Character::Nil
        } else {
            self.glyph(piece)
        }
    }

    pub fn get_character(&self, x: u32, y: u32, width: u32, height: u32) -> (r: Character)
        requires
            self.drawable(),
        ensures
            r == self.glyph_at(x as int, y as int, width as int, height as int),
    {
        let (x, y, width, height) = (x as i64, y as i64, width as i64, height as i64);
        if x == 0 && y == 0 {
            self.top_left()
        } else if x == width - 1 && y == 0 {
            self.top_right()
        } else if x == 0 && y == height - 1 {
            self.bottom_left()
        } else if x == width - 1 && y == height - 1 {
            self.bottom_right()
        } else if x == 0 {
            self.left()
        } else if x == width - 1 {
            self.right()
        } else if y == 0 {
            self.top()
        } else if y == height - 1 {
            self.bottom()
        } else {
            Character::Nil
        }
    }

    pub fn top(&self) -> (r: Character)
        requires
            self.drawable(),
        ensures
            r == self.glyph(4),
    {
        match self {
            BorderType::Full => Character::BorderN,
            _ => Character::Nil,
        }
    }

    pub fn bottom(&self) -> (r: Character)
        requires
            self.drawable(),
        ensures
            r == self.glyph(5),
    {
        match self {
            BorderType::Full => Character::BorderS,
            _ => Character::Nil,
        }
    }

    pub fn left(&self) -> (r: Character)
        requires
            self.drawable(),
        ensures
            r == self.glyph(6),
    {
        match self {
            BorderType::Full => Character::BorderW,
            _ => Character::Nil,
        }
    }

    pub fn right(&self) -> (r: Character)
        requires
            self.drawable(),
        ensures
            r == self.glyph(7),
    {
        match self {
            BorderType::Full => Character::BorderE,
            _ => Character::Nil,
        }
    }

    pub fn top_left(&self) -> (r: Character)
        requires
            self.drawable(),
        ensures
            r == self.glyph(0),
    {
        match self {
            BorderType::Full => Character::LBorderNW,
            _ => Character::Nil,
        }
    }

    pub fn top_right(&self) -> (r: Character)
        requires
            self.drawable(),
        ensures
            r == self.glyph(1),
    {
        match self {
            BorderType::Full => Character::LBorderNE,
            _ => Character::Nil,
        }
    }

    pub fn bottom_left(&self) -> (r: Character)
        requires
            self.drawable(),
        ensures
            r == self.glyph(2),
    {
        match self {
            BorderType::Full => Character::LBorderSW,
            _ => Character::Nil,
        }
    }

    pub fn bottom_right(&self) -> (r: Character)
        requires
            self.drawable(),
        ensures
            r == self.glyph(3),
    {
        match self {
            BorderType::Full => Character::LBorderSE,
            _ => Character::Nil,
        }
    }
}

} // verus!
