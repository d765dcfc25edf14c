//! The grid of cells that one frame of the interface is drawn into.
use vstd::prelude::*;

use crate::character::AsciiCharacter;

verus! {

/// The bytes that a row-major run of cells is uploaded as, four per cell.
pub open spec fn bytes_of(cells: Seq<AsciiCharacter>) -> Seq<u8> {
    Seq::new(4 * cells.len(), |k: int| cells[k / 4].bytes()[k % 4])
}

/// A `width` by `height` grid of cells, stored row by row.
pub struct AsciiSurface {
    width: u32,
    height: u32,
    data: Vec<AsciiCharacter>,
}

impl Default for AsciiSurface {
    fn default() -> (r: Self)
        ensures
            r.wf(),
            r.columns() == 0,
            r.rows() == 0,
    {
        AsciiSurface { width: 0, height: 0, data: Vec::new() }
    }
}

impl AsciiSurface {
    pub closed spec fn columns(self) -> u32 {
        self.width
    }

    pub closed spec fn rows(self) -> u32 {
        self.height
    }

    /// The cells, row after row.
    pub closed spec fn cells(self) -> Seq<AsciiCharacter> {
        self.data@
    }

    /// There is a cell for every column of every row.
    pub open spec fn wf(self) -> bool {
        self.cells().len() == self.columns() * self.rows()
    }

    /// `(x, y)` is a cell of the grid.
    pub open spec fn holds(self, x: int, y: int) -> bool {
        0 <= x < self.columns() && 0 <= y < self.rows()
    }

    /// Where the cell `(x, y)` is kept among the cells.
    pub open spec fn slot(self, x: int, y: int) -> int {
        y * self.columns() + x
    }

    /// The cells once `c` is drawn at `(x, y)`: a cell off the grid changes nothing,
    /// and a cell on it shows `c` only where `c` covers what was there.
    pub open spec fn written(self, x: int, y: int, c: AsciiCharacter) -> Seq<AsciiCharacter> {
        if self.holds(x, y) {
            self.cells().update(
                self.slot(x, y),
                c.over(self.cells()[self.slot(x, y)]),
            )
        } else {
            self.cells()
        }
    }

    /// A grid of empty cells.
    pub fn new(width: u32, height: u32) -> (r: AsciiSurface)
        requires
            width * height <= usize::MAX,
        ensures
            r.wf(),
            r.columns() == width,
            r.rows() == height,
            r.cells() == Seq::new((width * height) as nat, |i: int| AsciiCharacter::Unset),
    {
        let n: usize = (width as u64 * height as u64) as usize;
        let mut data: Vec<AsciiCharacter> = Vec::new();
        while data.len() < n
            invariant
                data.len() <= n,
                forall|i: int| 0 <= i < data.len() ==> data@[i] == AsciiCharacter::Unset,
            decreases n - data.len(),
        {
            data.push(AsciiCharacter::Unset);
        }
        let r = AsciiSurface { width, height, data };
        assert(r.cells() =~= Seq::new((width * height) as nat, |i: int| AsciiCharacter::Unset));
        r
    }

    pub fn width(&self) -> (r: u32)
        ensures
            r == self.columns(),
    {
        self.width
    }

    pub fn height(&self) -> (r: u32)
        ensures
            r == self.rows(),
    {
        self.height
    }

    /// The cell at `(x, y)`, if the grid has one there.
    pub fn get_character(&self, x: i32, y: i32) -> (r: Option<AsciiCharacter>)
        requires
            self.wf(),
        ensures
            r == if self.holds(x as int, y as int) {
                Some(self.cells()[self.slot(x as int, y as int)])
            } else {
                None
            },
    {
        match self.calc_index(x, y) {
            Some(index) => Some(self.data[index]),
            None => None,
        }
    }

    /// Draws `character` at `(x, y)`; a cell off the grid is left out, and a cell
    /// that `character` does not cover keeps what it showed.
    pub fn set_character(&mut self, x: i32, y: i32, character: AsciiCharacter)
        requires
            old(self).wf(),
        ensures
            final(self).wf(),
            final(self).columns() == old(self).columns(),
            final(self).rows() == old(self).rows(),
            final(self).cells() == old(self).written(x as int, y as int, character),
    {
        let Some(index) = self.calc_index(x, y) else {
            return ;
        };
        if character.covers_cell(&self.data[index]) {
            self.data.set(index, character);
        }
    }

    fn calc_index(&self, x: i32, y: i32) -> (r: Option<usize>)
        requires
            self.wf(),
        ensures
            r == if self.holds(x as int, y as int) {
                Some(self.slot(x as int, y as int) as usize)
            } else {
                None::<usize>
            },
            r matches Some(i) ==> i < self.cells().len() && i == self.slot(x as int, y as int),
    {
        if x < 0 || y < 0 || x as i64 >= self.width as i64 || y as i64 >= self.height as i64 {
            None
        } else {
            let (xu, yu, w, h) = (x as u64, y as u64, self.width as u64, self.height as u64);
            assert(yu * w + xu < w * h) by (nonlinear_arith)
                requires
                    xu < w,
                    yu < h,
            ;
            assert(w * h == self.data.len());
            let i = yu * w + xu;
            Some(i as usize)
        }
    }

    /// The cells as bytes for upload, four per cell, row after row.
    pub fn as_byte_vec(&self) -> (r: Vec<u8>)
        requires
            self.wf(),
        ensures
            r@ == bytes_of(self.cells()),
    {
        let mut r: Vec<u8> = Vec::new();
        let n = self.data.len();
        for i in 0..n
            invariant
                n == self.cells().len(),
                r@.len() == 4 * i,
                forall|k: int| 0 <= k < 4 * i ==> r@[k] == self.cells()[k / 4].bytes()[k % 4],
        {
            let b = self.data[i].into_u8();
            r.push(b[0]);
            r.push(b[1]);
            r.push(b[2]);
            r.push(b[3]);
        }
        assert(r@ =~= bytes_of(self.cells()));
        r
    }

    /// Empties every cell.
    pub fn clear(&mut self)
        requires
            old(self).wf(),
        ensures
            final(self).wf(),
            final(self).columns() == old(self).columns(),
            final(self).rows() == old(self).rows(),
            final(self).cells() == Seq::new(
                old(self).cells().len(),
                |i: int| AsciiCharacter::Unset,
            ),
    {
        let n = self.data.len();
        for i in 0..n
            invariant
                self.wf(),
                self.columns() == old(self).columns(),
                self.rows() == old(self).rows(),
                n == self.cells().len(),
                forall|k: int| 0 <= k < i ==> self.cells()[k] == AsciiCharacter::Unset,
        {
            self.data.set(i, AsciiCharacter::Unset);
        }
        assert(self.cells() =~= Seq::new(n as nat, |i: int| AsciiCharacter::Unset));
    }

    /// The number of cells.
    pub fn len(&self) -> (r: usize)
        requires
            self.wf(),
        ensures
            r == self.columns() * self.rows(),
    {
        self.data.len()
    }
}

/// A cell of the grid has a slot among the cells.
pub proof fn lemma_slot_in_range(surface: AsciiSurface, x: int, y: int)
    requires
        surface.wf(),
        surface.holds(x, y),
    ensures
        0 <= surface.slot(x, y) < surface.cells().len(),
{
    assert(0 <= surface.slot(x, y) < surface.cells().len()) by (nonlinear_arith)
        requires
            0 <= x < surface.columns(),
            0 <= y < surface.rows(),
            surface.cells().len() == surface.columns() * surface.rows(),
            surface.slot(x, y) == y * surface.columns() + x,
    ;
}

/// The slot of `(x, y)` gives back `x` as its column and `y` as its row.
pub proof fn lemma_slot_coords(surface: AsciiSurface, x: int, y: int)
    requires
        0 <= x < surface.columns(),
        0 <= y,
    ensures
        surface.slot(x, y) % surface.columns() as int == x,
        surface.slot(x, y) / surface.columns() as int == y,
{
    let w = surface.columns() as int;
    vstd::arithmetic::div_mod::lemma_fundamental_div_mod_converse_mod(surface.slot(x, y), w, y, x);
    vstd::arithmetic::div_mod::lemma_fundamental_div_mod_converse_div(surface.slot(x, y), w, y, x);
}

/// Every slot is the slot of its column and row.
pub proof fn lemma_coords_slot(surface: AsciiSurface, i: int)
    requires
        surface.wf(),
        0 <= i < surface.cells().len(),
    ensures
        surface.columns() > 0,
        0 <= i % (surface.columns() as int) < surface.columns(),
        0 <= i / (surface.columns() as int) < surface.rows(),
        surface.slot(i % surface.columns() as int, i / surface.columns() as int) == i,
{
    let w = surface.columns() as int;
    let h = surface.rows() as int;
    assert(w > 0) by (nonlinear_arith)
        requires
            0 <= i < w * h,
            h >= 0,
    ;
    vstd::arithmetic::div_mod::lemma_fundamental_div_mod(i, w);
    assert(i / w < h) by (nonlinear_arith)
        requires
            0 <= i < w * h,
            w > 0,
            i == w * (i / w) + i % w,
            0 <= i % w,
    ;
    assert(0 <= i / w) by (nonlinear_arith)
        requires
            0 <= i,
            w > 0,
    ;
    assert(surface.slot(i % w, i / w) == (i / w) * w + i % w);
    assert((i / w) * w == w * (i / w)) by (nonlinear_arith);
}

/// A cell drawn over a glyph shows only if it is a glyph on the same or a higher
/// layer, and drawing an empty cell never changes the grid.
pub proof fn lemma_occlusion(surface: AsciiSurface, x: int, y: int, c: AsciiCharacter)
    requires
        surface.wf(),
        surface.holds(x, y),
    ensures
        c is Unset ==> surface.written(x, y, c) == surface.cells(),
        surface.cells()[surface.slot(x, y)] is Glyph ==> (surface.written(x, y, c)[surface.slot(
            x,
            y,
        )] == c <==> c == surface.cells()[surface.slot(x, y)] || (c is Glyph
            && c->Glyph_layer >= surface.cells()[surface.slot(x, y)]->Glyph_layer)),
{
    assert(0 <= surface.slot(x, y) < surface.cells().len()) by (nonlinear_arith)
        requires
            0 <= x < surface.columns(),
            0 <= y < surface.rows(),
            surface.cells().len() == surface.columns() * surface.rows(),
    ;
    if c is Unset {
        assert(surface.written(x, y, c) =~= surface.cells());
    }
}

/// A grid whose only glyph is at `(x, y)` is uploaded as that glyph's four bytes
/// at offset `4 * (y * width + x)` and zeros everywhere else.
pub proof fn lemma_single_glyph_bytes(surface: AsciiSurface, x: int, y: int)
    requires
        surface.wf(),
        surface.holds(x, y),
        surface.cells()[surface.slot(x, y)] is Glyph,
        forall|i: int|
            0 <= i < surface.cells().len() && i != surface.slot(x, y) ==> surface.cells()[i] is Unset,
    ensures
        ({
            let bytes = bytes_of(surface.cells());
            let at = 4 * surface.slot(x, y);
            let c = surface.cells()[surface.slot(x, y)];
            &&& bytes.len() == 4 * surface.columns() * surface.rows()
            &&& bytes.subrange(at, at + 4) == seq![
                c->Glyph_index.code(),
                c->Glyph_text_color.code(),
                c->Glyph_background_color.code(),
                1u8,
            ]
            &&& forall|k: int| 0 <= k < bytes.len() && !(at <= k < at + 4) ==> bytes[k] == 0
        }),
{
    let s = surface.slot(x, y);
    assert(0 <= s < surface.cells().len()) by (nonlinear_arith)
        requires
            0 <= x < surface.columns(),
            0 <= y < surface.rows(),
            surface.cells().len() == surface.columns() * surface.rows(),
            s == y * surface.columns() + x,
    ;
    let bytes = bytes_of(surface.cells());
    assert(bytes.len() == 4 * surface.columns() * surface.rows()) by (nonlinear_arith)
        requires
            bytes.len() == 4 * surface.cells().len(),
            surface.cells().len() == surface.columns() * surface.rows(),
    ;
    assert(bytes.subrange(4 * s, 4 * s + 4) =~= surface.cells()[s].bytes());
    assert forall|k: int| 0 <= k < bytes.len() && !(4 * s <= k < 4 * s + 4) implies bytes[k]
        == 0 by {
        assert(k / 4 != s);
    }
}

} // verus!
