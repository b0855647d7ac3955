use super::font::{FontView, GlyphSize};
use super::glyphs::{Char, Glyph};
use crate::common::scalar::in_i32;
use vstd::prelude::*;

verus! {

/// The number of line breaks among the first `n` characters of `text`.
pub open spec fn line_breaks(text: Seq<char>, n: int) -> int
    decreases n,
{
    if n <= 0 {
        0
    } else {
        line_breaks(text, n - 1) + if text[n - 1] == '\n' {
            1int
        } else {
            0int
        }
    }
}

/// The index at which the line of the character `i` of `text` starts: 0, or
/// the index behind the last line break before `i`.
pub open spec fn line_start(text: Seq<char>, i: int) -> int
    decreases i,
{
    if i <= 0 {
        0
    } else if text[i - 1] == '\n' {
        i
    } else {
        line_start(text, i - 1)
    }
}

impl FontView {
    /// The distance from one line to the next.
    pub open spec fn line_height(self) -> int {
        self.line_spacing + self.cell_height
    }

    /// The size that a cell has where the table of widths does not say
    /// otherwise.
    pub open spec fn default_glyph(self) -> GlyphSize {
        GlyphSize { left_offset: 0, width: self.cell_width }
    }

    /// The size of the glyph of `ch`: that of a cell in a monospaced layout
    /// and for a glyph that the table of widths does not list.
    pub open spec fn glyph_size(self, ch: char, monospaced: bool) -> GlyphSize {
        if !monospaced && self.widths.contains_key(ch as u32) {
            self.widths[ch as u32]
        } else {
            self.default_glyph()
        }
    }

    /// How far the pen moves over the glyph of `ch`.
    pub open spec fn advance(self, ch: char, monospaced: bool) -> int {
        self.glyph_size(ch, monospaced).width + self.indent
    }

    /// Where in its line the pen stands in front of the character `i` of
    /// `text`: 0 at the start of a line, and after a glyph further by its
    /// advance.
    pub open spec fn pen_x(self, text: Seq<char>, i: int, monospaced: bool) -> int
        decreases i,
    {
        if i <= 0 || text[i - 1] == '\n' {
            0
        } else {
            self.pen_x(text, i - 1, monospaced) + self.advance(text[i - 1], monospaced)
        }
    }

    /// The largest of the pen positions in front of the characters `0` to
    /// `n` of `text`.
    pub open spec fn widest(self, text: Seq<char>, n: int, monospaced: bool) -> int
        decreases n,
    {
        if n <= 0 {
            0
        } else {
            let before = self.widest(text, n - 1, monospaced);
            let here = self.pen_x(text, n, monospaced);
            if here > before {
                here
            } else {
                before
            }
        }
    }

    /// The width of the box around the laid-out `text`: that of its widest
    /// line.
    pub open spec fn layout_width(self, text: Seq<char>, monospaced: bool) -> int {
        self.widest(text, text.len() as int, monospaced)
    }

    /// The height of the box around the laid-out `text`: one cell, and one
    /// line height more for each line break.
    pub open spec fn layout_height(self, text: Seq<char>) -> int {
        self.cell_height + line_breaks(text, text.len() as int) * self.line_height()
    }

    /// The item that the character `i` of `text` becomes.
    pub open spec fn layout_char(self, text: Seq<char>, i: int, monospaced: bool) -> Char {
        if text[i] == '\n' {
            Char::NewLine
        } else {
            Char::Print(
                Glyph {
                    size: self.glyph_size(text[i], monospaced),
                    delta_x: self.pen_x(text, i, monospaced) as i32,
                    code: text[i] as u32,
                },
            )
        }
    }

    /// The items of the laid-out `text`, one for each character.
    pub open spec fn layout_chars(self, text: Seq<char>, monospaced: bool) -> Seq<Char> {
        Seq::new(text.len(), |i: int| self.layout_char(text, i, monospaced))
    }

    /// Whether `text` can be laid out in 32-bit pixel arithmetic: every
    /// advance and every pen position fits, and so does the height.
    pub open spec fn layout_fits(self, text: Seq<char>, monospaced: bool) -> bool {
        &&& forall|i: int|
            0 <= i < text.len() && #[trigger] text[i] != '\n' ==> in_i32(
                self.advance(text[i], monospaced),
            ) && in_i32(self.pen_x(text, i + 1, monospaced))
        &&& line_breaks(text, text.len() as int) > 0 ==> in_i32(self.line_height()) && in_i32(
            self.layout_height(text),
        )
    }
}

impl FontView {
    /// A text without a line break is as high as one cell.
    pub proof fn lemma_single_line_height(self, text: Seq<char>)
        requires
            forall|i: int| 0 <= i < text.len() ==> text[i] != '\n',
        ensures
            self.layout_height(text) == self.cell_height,
    {
        lemma_no_line_breaks(text, text.len() as int);
        assert(0 * self.line_height() == 0);
    }

    /// In a monospaced layout every glyph has the size of a cell, and the
    /// pen moves over it by the width of a cell and the indent, whatever the
    /// character is.
    pub proof fn lemma_monospaced_advance(self, text: Seq<char>, i: int)
        requires
            0 <= i < text.len(),
            text[i] != '\n',
        ensures
            self.glyph_size(text[i], true) == self.default_glyph(),
            self.advance(text[i], true) == self.cell_width + self.indent,
            self.pen_x(text, i + 1, true) == self.pen_x(text, i, true) + self.cell_width
                + self.indent,
    {
    }

    /// In a monospaced layout a glyph stands as many steps from the start of
    /// its line as glyphs stand before it in that line, each step the width
    /// of a cell and the indent.
    pub proof fn lemma_monospaced_pen(self, text: Seq<char>, i: int)
        requires
            0 <= i <= text.len(),
        ensures
            self.pen_x(text, i, true) == (i - line_start(text, i)) * (self.cell_width
                + self.indent),
        decreases i,
    {
        let step = self.cell_width + self.indent;
        if i <= 0 || text[i - 1] == '\n' {
            assert(0 * step == 0);
        } else {
            self.lemma_monospaced_pen(text, i - 1);
            let before = i - 1 - line_start(text, i - 1);
            assert((before + 1) * step == before * step + step) by (nonlinear_arith);
        }
    }
}

/// Line breaks are counted from zero upwards, and a longer prefix never has
/// fewer of them.
pub proof fn lemma_line_breaks_grow(text: Seq<char>, a: int, b: int)
    requires
        a <= b,
    ensures
        0 <= line_breaks(text, a) <= line_breaks(text, b),
    decreases b - a,
{
    if a < b {
        lemma_line_breaks_grow(text, a, b - 1);
    } else {
        lemma_line_breaks_from_zero(text, a);
    }
}

proof fn lemma_line_breaks_from_zero(text: Seq<char>, n: int)
    ensures
        0 <= line_breaks(text, n),
    decreases n,
{
    if n > 0 {
        lemma_line_breaks_from_zero(text, n - 1);
    }
}

/// A height between the height of one cell and the full height of a layout
/// fits wherever those two fit.
pub(crate) proof fn lemma_height_between(cell: int, step: int, k: int, total: int)
    requires
        0 <= k <= total,
        in_i32(cell),
        in_i32(cell + total * step),
    ensures
        in_i32(cell + k * step),
{
    assert(in_i32(cell + k * step)) by (nonlinear_arith)
        requires
            0 <= k <= total,
            in_i32(cell),
            in_i32(cell + total * step),
    ;
}

/// A height that lies 2^32 or more steps away from the height of one cell
/// does not fit, whatever the step is.
pub(crate) proof fn lemma_height_far(cell: int, step: int, k: int)
    requires
        in_i32(cell),
        step != 0,
        k >= 0x1_0000_0000,
    ensures
        !in_i32(cell + k * step),
{
    assert(k * step >= 0x1_0000_0000 || k * step <= -0x1_0000_0000) by (nonlinear_arith)
        requires
            step != 0,
            k >= 0x1_0000_0000,
    ;
}

proof fn lemma_no_line_breaks(text: Seq<char>, n: int)
    requires
        n <= text.len(),
        forall|i: int| 0 <= i < text.len() ==> text[i] != '\n',
    ensures
        line_breaks(text, n) == 0,
    decreases n,
{
    if n > 0 {
        lemma_no_line_breaks(text, n - 1);
    }
}

} // verus!
