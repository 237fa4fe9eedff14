//! The character-cell surface that rendering writes into.
//!
//! A [`Buffer`] holds one [`Cell`] per coordinate of its rectangle, row by row.
//! Its single writing primitive, [`Buffer::set_string`], drops every character
//! that falls outside the rectangle, so writing never fails. [`BufferModel`]
//! is the mathematical shape of a buffer, which the rendering contracts speak of.

use vstd::prelude::*;

use crate::layout::Rect;
use crate::style::Color;
use crate::style::Style;

verus! {

/// One cell of a surface: the character shown there and its style.
#[derive(Clone, Copy, PartialEq, Eq, Structural, Debug)]
pub struct Cell {
    pub symbol: char,
    pub style: Style,
}

impl Cell {
    /// The cell a freshly cleared surface is filled with: a space in the
    /// default style.
    pub open spec fn spec_blank() -> Cell {
        Cell { symbol: ' ', style: Style::spec_default() }
    }

    pub fn blank() -> (c: Cell)
        ensures
            c == Cell::spec_blank(),
    {
        Cell { symbol: ' ', style: Style { fg: Color::Reset, bg: Color::Reset } }
    }
}

/// The mathematical shape of a [`Buffer`]: its rectangle and the sequence of
/// its cells, row by row.
#[verifier::ext_equal]
pub struct BufferModel {
    pub area: Rect,
    pub cells: Seq<Cell>,
}

impl BufferModel {
    /// A model is well formed when it holds exactly one cell per coordinate of
    /// its rectangle.
    pub open spec fn well_formed(self) -> bool {
        self.cells.len() == self.area.spec_area()
    }

    /// The position of the cell at column `x`, row `y` in the row-by-row
    /// sequence.
    pub open spec fn index_of(self, x: int, y: int) -> int {
        (y - self.area.y) * self.area.width + (x - self.area.x)
    }

    /// The cell at column `x`, row `y`.
    pub open spec fn cell_at(self, x: int, y: int) -> Cell {
        self.cells[self.index_of(x, y)]
    }

    /// The model after writing `cell` at column `x`, row `y`; a write outside
    /// the rectangle changes nothing.
    pub open spec fn with_cell(self, x: int, y: int, cell: Cell) -> BufferModel {
        if self.area.spec_contains(x, y) {
            BufferModel { area: self.area, cells: self.cells.update(self.index_of(x, y), cell) }
        } else {
            self
        }
    }

    /// The model after writing the characters of `s` from position `i` on, one
    /// cell each, left to right along row `y` starting at column `x + i`, in
    /// the given style; characters that fall outside the rectangle are dropped.
    pub open spec fn with_text_from(
        self,
        x: int,
        y: int,
        s: Seq<char>,
        i: int,
        style: Style,
    ) -> BufferModel
        decreases s.len() - i,
    {
        if i < 0 || i >= s.len() {
            self
        } else {
            self.with_cell(x + i, y, Cell { symbol: s[i], style }).with_text_from(
                x,
                y,
                s,
                i + 1,
                style,
            )
        }
    }

    /// The model after writing `s` in the given style, left to right along row
    /// `y` starting at column `x`; characters that fall outside the rectangle
    /// are dropped.
    pub open spec fn with_text(self, x: int, y: int, s: Seq<char>, style: Style) -> BufferModel {
        self.with_text_from(x, y, s, 0, style)
    }

    /// The model of a surface with the given rectangle and every cell blank.
    pub open spec fn blank(area: Rect) -> BufferModel {
        BufferModel { area, cells: Seq::new(area.spec_area() as nat, |i: int| Cell::spec_blank()) }
    }
}

/// Inside a well-formed model, every contained coordinate names a position
/// within the cell sequence.
proof fn lemma_index_of_in_range(m: BufferModel, x: int, y: int)
    requires
        m.well_formed(),
        m.area.spec_contains(x, y),
    ensures
        0 <= m.index_of(x, y) < m.cells.len(),
{
    let w = m.area.width as int;
    let h = m.area.height as int;
    let dx = x - m.area.x;
    let dy = y - m.area.y;
    assert(0 <= dy * w + dx < h * w) by (nonlinear_arith)
        requires
            0 <= dx < w,
            0 <= dy < h,
    ;
}

/// Distinct contained coordinates name distinct positions in the cell
/// sequence.
proof fn lemma_index_of_injective(m: BufferModel, x1: int, y1: int, x2: int, y2: int)
    requires
        m.area.spec_contains(x1, y1),
        m.area.spec_contains(x2, y2),
        x1 != x2 || y1 != y2,
    ensures
        m.index_of(x1, y1) != m.index_of(x2, y2),
{
    let w = m.area.width as int;
    let dx1 = x1 - m.area.x;
    let dy1 = y1 - m.area.y;
    let dx2 = x2 - m.area.x;
    let dy2 = y2 - m.area.y;
    assert(dy1 * w + dx1 != dy2 * w + dx2) by (nonlinear_arith)
        requires
            0 <= dx1 < w,
            0 <= dx2 < w,
            0 <= dy1,
            0 <= dy2,
            dx1 != dx2 || dy1 != dy2,
    ;
}

/// How writing one cell relates the new model to the old: inside the
/// rectangle it updates exactly one position, outside it changes nothing, and
/// either way the rectangle and the cell count are kept.
proof fn lemma_with_cell(m: BufferModel, x: int, y: int, cell: Cell)
    ensures
        m.with_cell(x, y, cell).area == m.area,
        m.well_formed() ==> m.with_cell(x, y, cell).well_formed(),
        m.well_formed() && m.area.spec_contains(x, y) ==> m.with_cell(x, y, cell).cells
            == m.cells.update(m.index_of(x, y), cell),
        !m.area.spec_contains(x, y) ==> m.with_cell(x, y, cell) == m,
{
    if m.well_formed() && m.area.spec_contains(x, y) {
        lemma_index_of_in_range(m, x, y);
    }
}

/// Writing text never changes the rectangle or the number of cells.
pub proof fn lemma_with_text_from_shape(
    m: BufferModel,
    x: int,
    y: int,
    s: Seq<char>,
    i: int,
    style: Style,
)
    requires
        m.well_formed(),
    ensures
        m.with_text_from(x, y, s, i, style).area == m.area,
        m.with_text_from(x, y, s, i, style).well_formed(),
    decreases s.len() - i,
{
    if i < 0 || i >= s.len() {
    } else {
        lemma_with_cell(m, x + i, y, Cell { symbol: s[i], style });
        lemma_with_text_from_shape(m.with_cell(x + i, y, Cell { symbol: s[i], style }), x, y, s, i + 1, style);
    }
}

/// How writing one cell shows up when reading a contained coordinate back:
/// the written coordinate shows the new cell, every other one is unchanged.
proof fn lemma_with_cell_cell_at(m: BufferModel, x: int, y: int, cell: Cell, cx: int, cy: int)
    requires
        m.well_formed(),
        m.area.spec_contains(x, y),
        m.area.spec_contains(cx, cy),
    ensures
        (cx == x && cy == y) ==> m.with_cell(x, y, cell).cell_at(cx, cy) == cell,
        !(cx == x && cy == y) ==> m.with_cell(x, y, cell).cell_at(cx, cy) == m.cell_at(cx, cy),
{
    lemma_index_of_in_range(m, x, y);
    lemma_index_of_in_range(m, cx, cy);
    if !(cx == x && cy == y) {
        lemma_index_of_injective(m, x, y, cx, cy);
    }
}

/// Law: writing text touches exactly the cells of the target row that both
/// carry a character of the text and lie inside the rectangle. Such a cell
/// shows its character in the written style; every other contained cell keeps
/// its value.
pub proof fn lemma_with_text_cell_at(
    m: BufferModel,
    x: int,
    y: int,
    s: Seq<char>,
    style: Style,
    cx: int,
    cy: int,
)
    requires
        m.well_formed(),
        m.area.spec_contains(cx, cy),
    ensures
        cy == y && 0 <= cx - x < s.len() ==> m.with_text(x, y, s, style).cell_at(cx, cy) == (Cell {
            symbol: s[cx - x],
            style,
        }),
        !(cy == y && 0 <= cx - x < s.len()) ==> m.with_text(x, y, s, style).cell_at(cx, cy)
            == m.cell_at(cx, cy),
{
    lemma_with_text_from_cell_at(m, x, y, s, 0, style, cx, cy);
}

/// The step form of [`lemma_with_text_cell_at`], following the recursion of
/// [`BufferModel::with_text_from`].
proof fn lemma_with_text_from_cell_at(
    m: BufferModel,
    x: int,
    y: int,
    s: Seq<char>,
    i: int,
    style: Style,
    cx: int,
    cy: int,
)
    requires
        m.well_formed(),
        m.area.spec_contains(cx, cy),
        0 <= i,
    ensures
        cy == y && i <= cx - x < s.len() ==> m.with_text_from(x, y, s, i, style).cell_at(cx, cy)
            == (Cell { symbol: s[cx - x], style }),
        !(cy == y && i <= cx - x < s.len()) ==> m.with_text_from(x, y, s, i, style).cell_at(cx, cy)
            == m.cell_at(cx, cy),
    decreases s.len() - i,
{
    if i >= s.len() {
    } else {
        let cell = Cell { symbol: s[i], style };
        lemma_with_cell(m, x + i, y, cell);
        let m2 = m.with_cell(x + i, y, cell);
        lemma_with_text_from_cell_at(m2, x, y, s, i + 1, style, cx, cy);
        if m.area.spec_contains(x + i, y) {
            lemma_with_cell_cell_at(m, x + i, y, cell, cx, cy);
        }
    }
}

/// Text aimed at a row outside the rectangle, or starting at or past its right
/// edge, changes nothing.
proof fn lemma_with_text_from_clipped(
    m: BufferModel,
    x: int,
    y: int,
    s: Seq<char>,
    i: int,
    style: Style,
)
    requires
        !(m.area.y <= y < m.area.spec_bottom()) || x + i >= m.area.spec_right(),
    ensures
        m.with_text_from(x, y, s, i, style) == m,
    decreases s.len() - i,
{
    if i < 0 || i >= s.len() {
    } else {
        assert(!m.area.spec_contains(x + i, y));
        lemma_with_text_from_clipped(m, x, y, s, i + 1, style);
    }
}

/// A surface: the rectangle it covers and one cell per coordinate, row by row.
pub struct Buffer {
    pub area: Rect,
    pub content: Vec<Cell>,
}

impl View for Buffer {
    type V = BufferModel;

    open spec fn view(&self) -> BufferModel {
        BufferModel { area: self.area, cells: self.content@ }
    }
}

impl Buffer {
    /// A buffer is well formed when it holds exactly one cell per coordinate
    /// of its rectangle.
    pub open spec fn well_formed(&self) -> bool {
        self@.well_formed()
    }

    /// A surface covering `area` with every cell blank.
    pub fn empty(area: Rect) -> (buf: Buffer)
        ensures
            buf@ == BufferModel::blank(area),
            buf.well_formed(),
    {
        let w: usize = area.width as usize;
        let h: usize = area.height as usize;
        assert(w * h == area.spec_area() && w * h <= 0xfffe0001) by (nonlinear_arith)
            requires
                w == area.width,
                h == area.height,
                w <= 0xffff,
                h <= 0xffff,
        ;
        let n: usize = w * h;
        let mut content: Vec<Cell> = Vec::new();
        while content.len() < n
            invariant
                content.len() <= n,
                n == area.spec_area(),
                forall|j: int| 0 <= j < content.len() ==> content@[j] == Cell::spec_blank(),
            decreases n - content.len(),
        {
            content.push(Cell::blank());
        }
        let buf = Buffer { area, content };
        proof {
            assert(buf@ =~= BufferModel::blank(area));
        }
        buf
    }

    /// The position of the cell at column `x`, row `y` in `content`.
    pub fn index_of(&self, x: u16, y: u16) -> (i: usize)
        requires
            self.well_formed(),
            self@.area.spec_contains(x as int, y as int),
        ensures
            i == self@.index_of(x as int, y as int),
            i < self.content.len(),
    {
        proof {
            lemma_index_of_in_range(self@, x as int, y as int);
        }
        let dy: usize = (y - self.area.y) as usize;
        let dx: usize = (x - self.area.x) as usize;
        let w: usize = self.area.width as usize;
        assert(dy * w + dx <= 0xfffe0000) by (nonlinear_arith)
            requires
                0 <= dx < w,
                0 <= dy <= 0xfffe,
                w <= 0xffff,
        ;
        dy * w + dx
    }

    /// The cell at column `x`, row `y`.
    pub fn get(&self, x: u16, y: u16) -> (c: Cell)
        requires
            self.well_formed(),
            self@.area.spec_contains(x as int, y as int),
        ensures
            c == self@.cell_at(x as int, y as int),
    {
        let i = self.index_of(x, y);
        self.content[i]
    }

    /// Writes `string` in the given style, one cell per character, left to
    /// right along row `y` starting at column `x`. Characters that fall
    /// outside the buffer's rectangle are silently dropped; writing never
    /// fails.
    pub fn set_string(&mut self, x: u16, y: u16, string: &str, style: Style)
        requires
            old(self).well_formed(),
        ensures
            final(self)@ == old(self)@.with_text(x as int, y as int, string@, style),
            final(self).well_formed(),
            final(self).area == old(self).area,
    {
        let ghost target = old(self)@.with_text(x as int, y as int, string@, style);
        proof {
            lemma_with_text_from_shape(old(self)@, x as int, y as int, string@, 0, style);
        }
        let len: usize = string.unicode_len();
        if !(self.area.y <= y && (y as u32) < (self.area.y as u32) + (self.area.height as u32)) {
            proof {
                lemma_with_text_from_clipped(old(self)@, x as int, y as int, string@, 0, style);
            }
            return;
        }
        let mut i: usize = 0;
        while i < len
            invariant
                i <= len,
                len == string@.len(),
                self.well_formed(),
                self.area == old(self).area,
                self.area.y <= y < self.area.spec_bottom(),
                self@.with_text_from(x as int, y as int, string@, i as int, style) == target,
            decreases len - i,
        {
            let c: char = string.get_char(i);
            let ghost prev = self@;
            let xi: u128 = (x as u128) + (i as u128);
            let x0: u128 = self.area.x as u128;
            if x0 <= xi && xi < x0 + (self.area.width as u128) {
                proof {
                    lemma_index_of_in_range(self@, xi as int, y as int);
                }
                let dy: usize = (y - self.area.y) as usize;
                let dx: usize = (xi - x0) as usize;
                let w: usize = self.area.width as usize;
                assert(dy * w + dx <= 0xfffe0000) by (nonlinear_arith)
                    requires
                        0 <= dx < w,
                        0 <= dy <= 0xfffe,
                        w <= 0xffff,
                ;
                let idx: usize = dy * w + dx;
                assert(idx == self@.index_of(xi as int, y as int));
                self.content.set(idx, Cell { symbol: c, style });
                proof {
                    assert(self@ == prev.with_cell(x as int + i as int, y as int, Cell { symbol: c, style }));
                }
            } else {
                proof {
                    assert(!prev.area.spec_contains(x as int + i as int, y as int));
                    assert(self@ == prev.with_cell(x as int + i as int, y as int, Cell { symbol: c, style }));
                }
            }
            i = i + 1;
        }
    }

    /// Whether two buffers cover the same rectangle and show the same cells.
    pub fn content_eq(&self, other: &Buffer) -> (b: bool)
        ensures
            b == (self@ == other@),
    {
        if !(self.area == other.area) {
            return false;
        }
        if self.content.len() != other.content.len() {
            return false;
        }
        let mut i: usize = 0;
        while i < self.content.len()
            invariant
                i <= self.content.len(),
                self.content.len() == other.content.len(),
                self.area == other.area,
                forall|j: int| 0 <= j < i ==> self.content@[j] == other.content@[j],
            decreases self.content.len() - i,
        {
            if !(self.content[i] == other.content[i]) {
                return false;
            }
            i = i + 1;
        }
        proof {
            assert(self.content@ =~= other.content@);
            assert(self@ =~= other@);
        }
        true
    }
}

} // verus!
