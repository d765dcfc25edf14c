//! Boxes, borders and text, drawn through a buffer.
use vstd::prelude::*;

use crate::bounds::{add_i32, clamp_i32, HorizontalAlignment, VerticalAlignment};
use crate::buffer::{AsciiBuffer, Drawing};
use crate::character::{glyph_code, AsciiCharacter, Character, Color};
use crate::style::{BorderType, TextOverflow};
use crate::surface::AsciiSurface;
use crate::text::{break_string_into_lines, chars_of, split_lines, text_lines, wrapped_lines};

verus! {

/// `n` less `k`, or none.
pub open spec fn less(n: u32, k: int) -> u32 {
    if n >= k {
        (n - k) as u32
    } else {
        0
    }
}

fn saturating_less(n: u32, k: u32) -> (r: u32)
    ensures
        r == less(n, k as int),
{
    if n >= k {
        n - k
    } else {
        0
    }
}

/// The cell that shows glyph `index` in the given colours.
pub open spec fn glyph_cell(index: Character, text_color: Color, background_color: Color) -> AsciiCharacter {
    AsciiCharacter::Glyph { index, text_color, background_color, layer: 0 }
}

/// Fills a buffer's rectangle with a box: its border, its inside, and a title
/// on the top edge.
pub struct AsciiBoxDrawer {
    pub buffer: AsciiBuffer,
    pub bg_color: Color,
    pub border_color: Color,
    pub title_color: Color,
    pub title_bg_color: Option<Color>,
    pub title: Option<Vec<char>>,
    pub title_alignment: HorizontalAlignment,
    pub title_overflow: TextOverflow,
    pub border: BorderType,
}

impl AsciiBuffer {
    /// A box over the whole buffer: black inside, white border glyphs, no title.
    pub fn square(&self) -> (r: AsciiBoxDrawer)
        ensures
            r.buffer == *self,
            r.bg_color == Color::Black,
            r.border_color == Color::White,
            r.title_color == Color::Black,
            r.title_bg_color is None,
            r.title is None,
            r.title_alignment == HorizontalAlignment::Left,
            r.title_overflow == TextOverflow::Hidden,
            r.border == BorderType::Blank,
    {
        AsciiBoxDrawer {
            buffer: *self,
            bg_color: Color::Black,
            border_color: Color::White,
            title_color: Color::Black,
            title_bg_color: None,
            title: None,
            title_alignment: HorizontalAlignment::Left,
            title_overflow: TextOverflow::Hidden,
            border: BorderType::Blank,
        }
    }
}

impl AsciiBoxDrawer {
    pub open spec fn width(self) -> int {
        self.buffer.bounds.width as int
    }

    pub open spec fn height(self) -> int {
        self.buffer.bounds.height as int
    }

    /// How many title characters are shown: the title cut to the room on the top
    /// edge, which leaves two cells at each end.
    pub open spec fn title_len(self, title: Seq<char>) -> int {
        if title.len() <= self.width() - 4 {
            title.len() as int
        } else {
            self.width() - 4
        }
    }

    /// The column the title starts at; never before the third.
    pub open spec fn title_start(self, len: int) -> int {
        let start = match self.title_alignment {
            HorizontalAlignment::Left => 2,
            HorizontalAlignment::Center => self.width() / 2 - len / 2,
            HorizontalAlignment::Right => self.width() - len - 2,
        };
        if start < 2 {
            2
        } else {
            start
        }
    }

    /// What the box shows at `(x, y)`: the title's character where the title lies
    /// on the top edge (only in a box at least six cells wide), else the border's
    /// glyph, blank inside.
    pub open spec fn box_cell(self, x: int, y: int) -> AsciiCharacter {
        let plain = glyph_cell(
            self.border.glyph_at(x, y, self.width(), self.height()),
            self.border_color,
            self.bg_color,
        );
        match self.title {
            Some(title) => {
                let len = self.title_len(title@);
                let index = x - self.title_start(len);
                if self.width() - 4 >= 2 && y == 0 && 2 <= x <= self.width() - 2 && 0 <= index
                    < len {
                    glyph_cell(
                        Character::from_code(glyph_code(title@[index])),
                        self.title_color,
                        match self.title_bg_color {
                            Some(c) => c,
                            None => self.border_color,
                        },
                    )
                } else {
                    plain
                }
            },
            None => plain,
        }
    }

    /// The box over the buffer's rectangle.
    pub open spec fn drawing(self) -> Drawing {
        |x: int, y: int|
            if 0 <= x < self.width() && 0 <= y < self.height() {
                Some(self.box_cell(x, y))
            } else {
                None
            }
    }

    /// The rows above `row`, and the cells of `row` left of `col`, of the box.
    pub open spec fn drawn_up_to(self, row: int, col: int) -> Drawing {
        |x: int, y: int|
            if 0 <= x < self.width() && 0 <= y < self.height() && (y < row || (y == row && x
                < col)) {
                Some(self.box_cell(x, y))
            } else {
                None
            }
    }

    /// The buffer inside the box's border: one cell in from each side, one layer
    /// deeper, if that corner lies in the box.
    pub open spec fn inner(self) -> Option<AsciiBuffer> {
        let x = clamp_i32(self.buffer.bounds.x + 1);
        let y = clamp_i32(self.buffer.bounds.y + 1);
        if self.buffer.bounds.contains(x as int, y as int) {
            Some(
                AsciiBuffer {
                    bounds: crate::bounds::AsciiBounds {
                        x,
                        y,
                        width: less(self.buffer.bounds.width, 2),
                        height: less(self.buffer.bounds.height, 2),
                        layer: crate::bounds::clamp_u32(self.buffer.bounds.layer + 1),
                    },
                    clip_bounds: self.buffer.clip_bounds,
                },
            )
        } else {
            None
        }
    }

    fn calc_character(&self, x: u32, y: u32) -> (r: AsciiCharacter)
        requires
            self.border.drawable(),
            x < self.width(),
            y < self.height(),
        ensures
            r == self.box_cell(x as int, y as int),
    {
        let width = self.buffer.bounds.width;
        let character = self.border.get_character(x, y, width, self.buffer.bounds.height);
        let plain = AsciiCharacter::Glyph {
            index: character,
            text_color: self.border_color,
            background_color: self.bg_color,
            layer: 0,
        };
        if width < 6 {
            return plain;
        }
        if let Some(title) = &self.title {
            if y == 0 && x >= 2 && x <= width - 2 {
                let max_title_width = (width - 4) as usize;
                let title_len = if title.len() <= max_title_width {
                    title.len()
                } else {
                    max_title_width
                };
                let start = match self.title_alignment {
                    HorizontalAlignment::Left => 2,
                    HorizontalAlignment::Center => (width / 2) as i64 - (title_len / 2) as i64,
                    HorizontalAlignment::Right => width as i64 - title_len as i64 - 2,
                };
                let x_start: i64 = if start < 2 {
                    2
                } else {
                    start
                };
                let index = x as i64 - x_start;
                if index >= 0 && index < title_len as i64 {
                    let bg = match self.title_bg_color {
                        Some(c) => c,
                        None => self.border_color,
                    };
                    return AsciiCharacter::Glyph {
                        index: Character::from_char(title[index as usize]),
                        text_color: self.title_color,
                        background_color: bg,
                        layer: 0,
                    };
                }
            }
        }
        plain
    }

    /// Draws the box, then gives the buffer inside its border: one cell in from
    /// each side, if the box has a cell.
    pub fn draw(self, surface: &mut AsciiSurface) -> (r: Option<AsciiBuffer>)
        requires
            old(surface).wf(),
            self.border.drawable(),
        ensures
            final(surface).wf(),
            final(surface).columns() == old(surface).columns(),
            final(surface).rows() == old(surface).rows(),
            final(surface).cells() == self.buffer.painted(*old(surface), self.drawing()),
            r == self.inner(),
    {
        let ghost start = *surface;
        let width = self.buffer.bounds.width;
        let height = self.buffer.bounds.height;
        proof {
            self.buffer.lemma_paint_nothing(start, self.drawn_up_to(0, 0));
        }
        let mut y: u32 = 0;
        while y < height
            invariant
                y <= height,
                width == self.width(),
                height == self.height(),
                self.border.drawable(),
                start.wf(),
                surface.wf(),
                surface.columns() == start.columns(),
                surface.rows() == start.rows(),
                surface.cells() == self.buffer.painted(start, self.drawn_up_to(y as int, 0)),
            decreases height - y,
        {
            let mut x: u32 = 0;
            while x < width
                invariant
                    x <= width,
                    y < height,
                    width == self.width(),
                    height == self.height(),
                    self.border.drawable(),
                    start.wf(),
                    surface.wf(),
                    surface.columns() == start.columns(),
                    surface.rows() == start.rows(),
                    surface.cells() == self.buffer.painted(
                        start,
                        self.drawn_up_to(y as int, x as int),
                    ),
                decreases width - x,
            {
                let character = self.calc_character(x, y);
                proof {
                    self.buffer.lemma_paint_step(
                        start,
                        *surface,
                        self.drawn_up_to(y as int, x as int),
                        self.drawn_up_to(y as int, x + 1),
                        x as int,
                        y as int,
                        character,
                    );
                }
                self.buffer.draw_at(surface, x as i128, y as i128, character);
                x = x + 1;
            }
            proof {
                self.buffer.lemma_paint_same(
                    start,
                    self.drawn_up_to(y as int, width as int),
                    self.drawn_up_to(y + 1, 0),
                );
            }
            y = y + 1;
        }
        proof {
            self.buffer.lemma_paint_same(start, self.drawn_up_to(height as int, 0), self.drawing());
        }
        self.buffer.sub_buffer(
            add_i32(self.buffer.bounds.x, 1),
            add_i32(self.buffer.bounds.y, 1),
            saturating_less(width, 2),
            saturating_less(height, 2),
        )
    }

    pub fn title_alignment(self, alignment: HorizontalAlignment) -> (r: AsciiBoxDrawer)
        ensures
            r == (AsciiBoxDrawer { title_alignment: alignment, ..self }),
    {
        AsciiBoxDrawer { title_alignment: alignment, ..self }
    }

    pub fn title_overflow(self, overflow: TextOverflow) -> (r: AsciiBoxDrawer)
        ensures
            r == (AsciiBoxDrawer { title_overflow: overflow, ..self }),
    {
        AsciiBoxDrawer { title_overflow: overflow, ..self }
    }

    pub fn bg_color(self, bg_color: Color) -> (r: AsciiBoxDrawer)
        ensures
            r == (AsciiBoxDrawer { bg_color, ..self }),
    {
        AsciiBoxDrawer { bg_color, ..self }
    }

    pub fn border_color(self, border_color: Color) -> (r: AsciiBoxDrawer)
        ensures
            r == (AsciiBoxDrawer { border_color, ..self }),
    {
        AsciiBoxDrawer { border_color, ..self }
    }

    pub fn border(self, border_type: BorderType) -> (r: AsciiBoxDrawer)
        ensures
            r == (AsciiBoxDrawer { border: border_type, ..self }),
    {
        AsciiBoxDrawer { border: border_type, ..self }
    }

    pub fn title_text_color(self, text_color: Color) -> (r: AsciiBoxDrawer)
        ensures
            r == (AsciiBoxDrawer { title_color: text_color, ..self }),
    {
        AsciiBoxDrawer { title_color: text_color, ..self }
    }

    pub fn title_bg_color(self, bg_color: Color) -> (r: AsciiBoxDrawer)
        ensures
            r == (AsciiBoxDrawer { title_bg_color: Some(bg_color), ..self }),
    {
        AsciiBoxDrawer { title_bg_color: Some(bg_color), ..self }
    }

    pub fn title(self, title: &str) -> (r: AsciiBoxDrawer)
        ensures
            r.title matches Some(t) && t@ == title@,
            r.buffer == self.buffer,
            r.bg_color == self.bg_color,
            r.border_color == self.border_color,
            r.title_color == self.title_color,
            r.title_bg_color == self.title_bg_color,
            r.title_alignment == self.title_alignment,
            r.title_overflow == self.title_overflow,
            r.border == self.border,
    {
        AsciiBoxDrawer { title: Some(chars_of(title)), ..self }
    }
}

/// Draws some of the four sides of a buffer's rectangle.
pub struct AsciiBorderDrawer {
    pub buffer: AsciiBuffer,
    pub border_color: Color,
    pub bg_color: Color,
    pub border_type: BorderType,
    pub top: bool,
    pub bottom: bool,
    pub left: bool,
    pub right: bool,
}

impl AsciiBuffer {
    /// A border of the given style over the buffer, white on black, no side chosen yet.
    pub fn border(&self, border_type: BorderType) -> (r: AsciiBorderDrawer)
        ensures
            r == (AsciiBorderDrawer {
                buffer: *self,
                border_color: Color::White,
                bg_color: Color::Black,
                border_type,
                top: false,
                bottom: false,
                left: false,
                right: false,
            }),
    {
        AsciiBorderDrawer {
            buffer: *self,
            border_color: Color::White,
            bg_color: Color::Black,
            border_type,
            top: false,
            bottom: false,
            left: false,
            right: false,
        }
    }
}

impl AsciiBorderDrawer {
    pub open spec fn width(self) -> int {
        self.buffer.bounds.width as int
    }

    pub open spec fn height(self) -> int {
        self.buffer.bounds.height as int
    }

    /// What the border shows at `(x, y)`: where sides meet, the right side wins
    /// over the left, the left over the bottom and the bottom over the top.
    pub open spec fn border_cell(self, x: int, y: int) -> Option<AsciiCharacter> {
        let piece = if !(0 <= x < self.width() && 0 <= y < self.height()) {
            8
        } else if self.right && x == self.width() - 1 {
            7
        } else if self.left && x == 0 {
            6
        } else if self.bottom && y == self.height() - 1 {
            5
        } else if self.top && y == 0 {
            4
        } else {
            8
        };
        if piece == 8 {
            None
        } else {
            Some(glyph_cell(self.border_type.glyph(piece), self.border_color, self.bg_color))
        }
    }

    pub open spec fn drawing(self) -> Drawing {
        |x: int, y: int| self.border_cell(x, y)
    }

    /// The rows above `row`, and the cells of `row` left of `col`, of the border.
    pub open spec fn drawn_up_to(self, row: int, col: int) -> Drawing {
        |x: int, y: int|
            if y < row || (y == row && x < col) {
                self.border_cell(x, y)
            } else {
                None
            }
    }

    fn calc_character(&self, x: u32, y: u32) -> (r: Option<AsciiCharacter>)
        requires
            self.border_type.drawable(),
            x < self.width(),
            y < self.height(),
        ensures
            r == self.border_cell(x as int, y as int),
    {
        let width = self.buffer.bounds.width;
        let height = self.buffer.bounds.height;
        let character = if self.right && x == width - 1 {
            self.border_type.right()
        } else if self.left && x == 0 {
            self.border_type.left()
        } else if self.bottom && y == height - 1 {
            self.border_type.bottom()
        } else if self.top && y == 0 {
            self.border_type.top()
        } else {
            return None;
        };
        Some(
            AsciiCharacter::Glyph {
                index: character,
                text_color: self.border_color,
                background_color: self.bg_color,
                layer: 0,
            },
        )
    }

    /// Draws the chosen sides, then gives the buffer inside them.
    pub fn draw(self, surface: &mut AsciiSurface) -> (r: Option<AsciiBuffer>)
        requires
            old(surface).wf(),
            self.border_type.drawable(),
        ensures
            final(surface).wf(),
            final(surface).columns() == old(surface).columns(),
            final(surface).rows() == old(surface).rows(),
            final(surface).cells() == self.buffer.painted(*old(surface), self.drawing()),
            ({
                let x = clamp_i32(self.buffer.bounds.x + if self.left { 1int } else { 0 });
                let y = clamp_i32(self.buffer.bounds.y + if self.top { 1int } else { 0 });
                r == if self.buffer.bounds.contains(x as int, y as int) {
                    Some(
                        AsciiBuffer {
                            bounds: crate::bounds::AsciiBounds {
                                x,
                                y,
                                width: less(
                                    self.buffer.bounds.width,
                                    (if self.left { 1int } else { 0 }) + (if self.right { 1int } else { 0 }),
                                ),
                                height: less(
                                    self.buffer.bounds.height,
                                    (if self.top { 1int } else { 0 }) + (if self.bottom { 1int } else { 0 }),
                                ),
                                layer: crate::bounds::clamp_u32(self.buffer.bounds.layer + 1),
                            },
                            clip_bounds: self.buffer.clip_bounds,
                        },
                    )
                } else {
                    None
                }
            }),
    {
        let ghost start = *surface;
        let width = self.buffer.bounds.width;
        let height = self.buffer.bounds.height;
        proof {
            self.buffer.lemma_paint_nothing(start, self.drawn_up_to(0, 0));
        }
        let mut y: u32 = 0;
        while y < height
            invariant
                y <= height,
                width == self.width(),
                height == self.height(),
                self.border_type.drawable(),
                start.wf(),
                surface.wf(),
                surface.columns() == start.columns(),
                surface.rows() == start.rows(),
                surface.cells() == self.buffer.painted(start, self.drawn_up_to(y as int, 0)),
            decreases height - y,
        {
            let mut x: u32 = 0;
            while x < width
                invariant
                    x <= width,
                    y < height,
                    width == self.width(),
                    height == self.height(),
                    self.border_type.drawable(),
                    start.wf(),
                    surface.wf(),
                    surface.columns() == start.columns(),
                    surface.rows() == start.rows(),
                    surface.cells() == self.buffer.painted(
                        start,
                        self.drawn_up_to(y as int, x as int),
                    ),
                decreases width - x,
            {
                if let Some(character) = self.calc_character(x, y) {
                    proof {
                        self.buffer.lemma_paint_step(
                            start,
                            *surface,
                            self.drawn_up_to(y as int, x as int),
                            self.drawn_up_to(y as int, x + 1),
                            x as int,
                            y as int,
                            character,
                        );
                    }
                    self.buffer.draw_at(surface, x as i128, y as i128, character);
                } else {
                    proof {
                        self.buffer.lemma_paint_same(
                            start,
                            self.drawn_up_to(y as int, x as int),
                            self.drawn_up_to(y as int, x + 1),
                        );
                    }
                }
                x = x + 1;
            }
            proof {
                self.buffer.lemma_paint_same(
                    start,
                    self.drawn_up_to(y as int, width as int),
                    self.drawn_up_to(y + 1, 0),
                );
            }
            y = y + 1;
        }
        proof {
            self.buffer.lemma_paint_same(start, self.drawn_up_to(height as int, 0), self.drawing());
        }
        let sides_x: u32 = (if self.left { 1 } else { 0 }) + (if self.right { 1 } else { 0 });
        let sides_y: u32 = (if self.top { 1 } else { 0 }) + (if self.bottom { 1 } else { 0 });
        self.buffer.sub_buffer(
            add_i32(self.buffer.bounds.x, if self.left { 1 } else { 0 }),
            add_i32(self.buffer.bounds.y, if self.top { 1 } else { 0 }),
            saturating_less(width, sides_x),
            saturating_less(height, sides_y),
        )
    }

    pub fn all(self) -> (r: AsciiBorderDrawer)
        ensures
            r == (AsciiBorderDrawer { top: true, bottom: true, left: true, right: true, ..self }),
    {
        AsciiBorderDrawer { top: true, bottom: true, left: true, right: true, ..self }
    }

    pub fn vertical(self) -> (r: AsciiBorderDrawer)
        ensures
            r == (AsciiBorderDrawer { left: true, right: true, ..self }),
    {
        AsciiBorderDrawer { left: true, right: true, ..self }
    }

    pub fn horizontal(self) -> (r: AsciiBorderDrawer)
        ensures
            r == (AsciiBorderDrawer { top: true, bottom: true, ..self }),
    {
        AsciiBorderDrawer { top: true, bottom: true, ..self }
    }

    pub fn top(self) -> (r: AsciiBorderDrawer)
        ensures
            r == (AsciiBorderDrawer { top: true, ..self }),
    {
        AsciiBorderDrawer { top: true, ..self }
    }

    pub fn bottom(self) -> (r: AsciiBorderDrawer)
        ensures
            r == (AsciiBorderDrawer { bottom: true, ..self }),
    {
        AsciiBorderDrawer { bottom: true, ..self }
    }

    pub fn left(self) -> (r: AsciiBorderDrawer)
        ensures
            r == (AsciiBorderDrawer { left: true, ..self }),
    {
        AsciiBorderDrawer { left: true, ..self }
    }

    pub fn right(self) -> (r: AsciiBorderDrawer)
        ensures
            r == (AsciiBorderDrawer { right: true, ..self }),
    {
        AsciiBorderDrawer { right: true, ..self }
    }

    pub fn border_color(self, color: Color) -> (r: AsciiBorderDrawer)
        ensures
            r == (AsciiBorderDrawer { border_color: color, ..self }),
    {
        AsciiBorderDrawer { border_color: color, ..self }
    }

    pub fn bg_color(self, color: Color) -> (r: AsciiBorderDrawer)
        ensures
            r == (AsciiBorderDrawer { bg_color: color, ..self }),
    {
        AsciiBorderDrawer { bg_color: color, ..self }
    }
}

/// Draws text into a buffer, line by line, cut to the buffer.
pub struct AsciiTextDrawer {
    pub buffer: AsciiBuffer,
    pub text: String,
    pub text_color: Color,
    pub bg_color: Color,
    pub horizontal_alignment: HorizontalAlignment,
    pub vertical_alignment: VerticalAlignment,
    pub overflow: TextOverflow,
    pub should_wrap: bool,
}

impl AsciiBuffer {
    /// `text` in white on black, from the top left, not wrapped.
    pub fn text(&self, text: &str) -> (r: AsciiTextDrawer)
        ensures
            r.buffer == *self,
            r.text@ == text@,
            r.text_color == Color::White,
            r.bg_color == Color::Black,
            r.horizontal_alignment == HorizontalAlignment::Left,
            r.vertical_alignment == VerticalAlignment::Top,
            r.overflow == TextOverflow::Hidden,
            !r.should_wrap,
    {
        AsciiTextDrawer {
            buffer: *self,
            text: text.to_owned(),
            text_color: Color::White,
            bg_color: Color::Black,
            horizontal_alignment: HorizontalAlignment::Left,
            vertical_alignment: VerticalAlignment::Top,
            overflow: TextOverflow::Hidden,
            should_wrap: false,
        }
    }
}

/// `d / 2`, rounded down.
fn half_down(d: i128) -> (r: i128)
    requires
        -0x1_0000_0000_0000_0000 <= d <= 0x1_0000_0000_0000_0000,
    ensures
        r == d / 2,
{
    if d >= 0 {
        d / 2
    } else {
        -((1 - d) / 2)
    }
}

impl AsciiTextDrawer {
    pub open spec fn width(self) -> int {
        self.buffer.bounds.width as int
    }

    pub open spec fn height(self) -> int {
        self.buffer.bounds.height as int
    }

    /// The lines drawn: the text wrapped to the buffer's width, or its own lines.
    pub open spec fn lines(self) -> Seq<Seq<char>> {
        if self.should_wrap {
            wrapped_lines(self.text@, self.buffer.bounds.width as usize)
        } else {
            text_lines(self.text@)
        }
    }

    /// The column a line `len` characters long starts at: the left edge, the middle
    /// (rounded down), or one cell short of the right edge.
    pub open spec fn line_x(self, len: int) -> int {
        match self.horizontal_alignment {
            HorizontalAlignment::Left => 0,
            HorizontalAlignment::Center => (self.width() - len) / 2,
            HorizontalAlignment::Right => self.width() - len - 1,
        }
    }

    /// The row a block of `n` lines starts at: the top, the middle (rounded down),
    /// or one row short of the bottom.
    pub open spec fn block_y(self, n: int) -> int {
        match self.vertical_alignment {
            VerticalAlignment::Top => 0,
            VerticalAlignment::Center => (self.height() - n) / 2,
            VerticalAlignment::Bottom => self.height() - n - 1,
        }
    }

    /// How many lines are drawn: no more than the buffer has rows.
    pub open spec fn rows_drawn(self, n: int) -> int {
        if n <= self.height() {
            n
        } else {
            self.height()
        }
    }

    /// What the text shows at `(x, y)`: the character of the line on that row at
    /// that column, for the first lines that fit in the buffer's height and the
    /// columns before the buffer's last one.
    pub open spec fn text_cell(self, lines: Seq<Seq<char>>, x: int, y: int) -> Option<AsciiCharacter> {
        let line = y - self.block_y(lines.len() as int);
        if 0 <= line < self.rows_drawn(lines.len() as int) {
            let t = lines[line];
            let col = x - self.line_x(t.len() as int);
            if 0 <= col < t.len() && col < self.width() - 1 {
                Some(
                    glyph_cell(
                        Character::from_code(glyph_code(t[col])),
                        self.text_color,
                        self.bg_color,
                    ),
                )
            } else {
                None
            }
        } else {
            None
        }
    }

    pub open spec fn drawing_of(self, lines: Seq<Seq<char>>) -> Drawing {
        |x: int, y: int| self.text_cell(lines, x, y)
    }

    /// The text of the lines before `line`, and of `line` before column `col`.
    pub open spec fn drawn_up_to(self, lines: Seq<Seq<char>>, line: int, col: int) -> Drawing {
        |x: int, y: int|
            {
                let l = y - self.block_y(lines.len() as int);
                if l < line || (l == line && x - self.line_x(lines[l].len() as int) < col) {
                    self.text_cell(lines, x, y)
                } else {
                    None
                }
            }
    }

    fn layout_lines(&self) -> (r: Vec<Vec<char>>)
        ensures
            r@.len() == self.lines().len(),
            forall|i: int| 0 <= i < r@.len() ==> #[trigger] r@[i]@ == self.lines()[i],
    {
        if self.should_wrap {
            let raw = break_string_into_lines(self.text.as_str(), self.buffer.bounds.width as usize);
            let mut lines: Vec<Vec<char>> = Vec::new();
            for i in 0..raw.len()
                invariant
                    self.should_wrap,
                    raw@.len() == self.lines().len(),
                    forall|k: int| 0 <= k < raw@.len() ==> #[trigger] raw@[k]@ == self.lines()[k],
                    lines@.len() == i,
                    forall|k: int| 0 <= k < i ==> #[trigger] lines@[k]@ == self.lines()[k],
            {
                lines.push(chars_of(raw[i].as_str()));
            }
            lines
        } else {
            split_lines(self.text.as_str())
        }
    }

    /// Draws the lines, set by the alignments; lines past the buffer's height and
    /// characters from the buffer's last column on are left out.
    pub fn draw(self, surface: &mut AsciiSurface)
        requires
            old(surface).wf(),
        ensures
            final(surface).wf(),
            final(surface).columns() == old(surface).columns(),
            final(surface).rows() == old(surface).rows(),
            final(surface).cells() == self.buffer.painted(*old(surface), self.drawing_of(self.lines())),
    {
        let ghost start = *surface;
        let ghost spec_lines = self.lines();
        let lines = self.layout_lines();
        let width = self.buffer.bounds.width;
        let height = self.buffer.bounds.height;
        let n = lines.len();
        let start_y: i128 = match self.vertical_alignment {
            VerticalAlignment::Top => 0,
            VerticalAlignment::Center => half_down(height as i128 - n as i128),
            VerticalAlignment::Bottom => height as i128 - n as i128 - 1,
        };
        let rows: usize = if n <= height as usize {
            n
        } else {
            height as usize
        };
        let columns = saturating_less(width, 1);
        proof {
            self.buffer.lemma_paint_nothing(start, self.drawn_up_to(spec_lines, 0, 0));
        }
        for line in 0..rows
            invariant
                n == spec_lines.len(),
                lines@.len() == n,
                forall|i: int| 0 <= i < n ==> #[trigger] lines@[i]@ == spec_lines[i],
                rows == self.rows_drawn(n as int),
                start_y == self.block_y(n as int),
                width == self.width(),
                columns == less(width, 1),
                start.wf(),
                surface.wf(),
                surface.columns() == start.columns(),
                surface.rows() == start.rows(),
                surface.cells() == self.buffer.painted(start, self.drawn_up_to(spec_lines, line as int, 0)),
        {
            let text = &lines[line];
            let len = text.len();
            let start_x: i128 = match self.horizontal_alignment {
                HorizontalAlignment::Left => 0,
                HorizontalAlignment::Center => half_down(width as i128 - len as i128),
                HorizontalAlignment::Right => width as i128 - len as i128 - 1,
            };
            assert(start_x == self.line_x(spec_lines[line as int].len() as int));
            for column in 0..columns
                invariant
                    n == spec_lines.len(),
                    lines@.len() == n,
                    0 <= line < rows,
                    text@ == spec_lines[line as int],
                    len == text@.len(),
                    rows == self.rows_drawn(n as int),
                    start_y == self.block_y(n as int),
                    start_x == self.line_x(len as int),
                    width == self.width(),
                    columns == less(width, 1),
                    start.wf(),
                    surface.wf(),
                    surface.columns() == start.columns(),
                    surface.rows() == start.rows(),
                    surface.cells() == self.buffer.painted(
                        start,
                        self.drawn_up_to(spec_lines, line as int, column as int),
                    ),
            {
                let x = start_x + column as i128;
                let y = start_y + line as i128;
                if (column as usize) < len {
                    let c = text[column as usize];
                    let character = AsciiCharacter::Glyph {
                        index: Character::from_char(c),
                        text_color: self.text_color,
                        background_color: self.bg_color,
                        layer: 0,
                    };
                    proof {
                        self.buffer.lemma_paint_step(
                            start,
                            *surface,
                            self.drawn_up_to(spec_lines, line as int, column as int),
                            self.drawn_up_to(spec_lines, line as int, column + 1),
                            x as int,
                            y as int,
                            character,
                        );
                    }
                    self.buffer.draw_at(surface, x, y, character);
                } else {
                    proof {
                        self.buffer.lemma_paint_same(
                            start,
                            self.drawn_up_to(spec_lines, line as int, column as int),
                            self.drawn_up_to(spec_lines, line as int, column + 1),
                        );
                    }
                }
            }
            proof {
                self.buffer.lemma_paint_same(
                    start,
                    self.drawn_up_to(spec_lines, line as int, columns as int),
                    self.drawn_up_to(spec_lines, line + 1, 0),
                );
            }
        }
        proof {
            self.buffer.lemma_paint_same(
                start,
                self.drawn_up_to(spec_lines, rows as int, 0),
                self.drawing_of(spec_lines),
            );
        }
    }

    pub fn bg_color(self, bg_color: Color) -> (r: AsciiTextDrawer)
        ensures
            r == (AsciiTextDrawer { bg_color, ..self }),
    {
        AsciiTextDrawer { bg_color, ..self }
    }

    pub fn text_color(self, text_color: Color) -> (r: AsciiTextDrawer)
        ensures
            r == (AsciiTextDrawer { text_color, ..self }),
    {
        AsciiTextDrawer { text_color, ..self }
    }

    pub fn horizontal_alignment(self, alignment: HorizontalAlignment) -> (r: AsciiTextDrawer)
        ensures
            r == (AsciiTextDrawer { horizontal_alignment: alignment, ..self }),
    {
        AsciiTextDrawer { horizontal_alignment: alignment, ..self }
    }

    pub fn overflow(self, overflow: TextOverflow) -> (r: AsciiTextDrawer)
        ensures
            r == (AsciiTextDrawer { overflow, ..self }),
    {
        AsciiTextDrawer { overflow, ..self }
    }

    pub fn wrap(self) -> (r: AsciiTextDrawer)
        ensures
            r == (AsciiTextDrawer { should_wrap: true, ..self }),
    {
        AsciiTextDrawer { should_wrap: true, ..self }
    }

    pub fn vertical_alignment(self, alignment: VerticalAlignment) -> (r: AsciiTextDrawer)
        ensures
            r == (AsciiTextDrawer { vertical_alignment: alignment, ..self }),
    {
        AsciiTextDrawer { vertical_alignment: alignment, ..self }
    }
}

} // verus!
