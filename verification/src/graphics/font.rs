use super::glyphs::{Char, Glyph, Glyphs};
use super::layout::{lemma_height_between, lemma_height_far, lemma_line_breaks_grow, line_breaks};
use super::pages::{page_at, Pages};
use super::texture::Texture;
use crate::common::ratio::Ratio;
use crate::common::rect::Rect;
use crate::common::scalar::{in_i32, quotient};
use crate::common::vec2d::{IntoVec2d, Vec2d};
use std::collections::HashMap;
use vstd::prelude::*;

verus! {

/// How much room a glyph takes inside its atlas cell: where its ink starts,
/// counted from the left edge of the cell, and how far the pen moves.
#[derive(Copy, Clone, Debug, PartialEq, Eq)]
pub struct GlyphSize {
    pub left_offset: i32,
    pub width: i32,
}

impl GlyphSize {
    pub fn new(left_offset: i32, width: i32) -> (r: Self)
        ensures
            r == (GlyphSize { left_offset, width }),
    {
        GlyphSize { left_offset, width }
    }
}

/// A bitmap font: atlas pages cut into a grid of equal cells, one glyph per
/// cell, and a table of the glyphs that are narrower or wider than a cell.
#[derive(Debug)]
pub struct Font {
    atlas_size: Vec2d<i32>,
    glyphs_on_page: i32,
    default_size: Vec2d<i32>,
    indent: i32,
    line_spacing: i32,
    pages: Pages<Texture>,
    glyph_widths: HashMap<u32, GlyphSize>,
}

/// What a font is made of, as plain values.
pub struct FontView {
    /// Cells in a row of an atlas page.
    pub columns: i32,
    /// Rows of cells on an atlas page.
    pub rows: i32,
    /// Glyphs on one page.
    pub glyphs_per_page: i32,
    /// Width of a cell in pixels.
    pub cell_width: i32,
    /// Height of a cell in pixels.
    pub cell_height: i32,
    /// Room between two glyphs of a line.
    pub indent: i32,
    /// Room between two lines.
    pub line_spacing: i32,
    /// The atlas pages by page number, `None` for a page that is missing.
    pub pages: Seq<Option<Texture>>,
    /// The glyphs whose size differs from a cell, by code point.
    pub widths: Map<u32, GlyphSize>,
}

impl View for Font {
    type V = FontView;

    closed spec fn view(&self) -> FontView {
        FontView {
            columns: self.atlas_size.x,
            rows: self.atlas_size.y,
            glyphs_per_page: self.glyphs_on_page,
            cell_width: self.default_size.x,
            cell_height: self.default_size.y,
            indent: self.indent,
            line_spacing: self.line_spacing,
            pages: self.pages@,
            widths: self.glyph_widths@,
        }
    }
}

impl FontView {
    /// The grid has cells, and a page holds one glyph for each of them.
    pub open spec fn wf(self) -> bool {
        &&& self.columns > 0
        &&& self.rows > 0
        &&& self.glyphs_per_page == self.columns * self.rows
    }

    /// The number of the page that shows `code`.
    pub open spec fn page_index(self, code: u32) -> int {
        code as int / self.glyphs_per_page as int
    }

    /// The atlas page that shows `code`, if the font has it.
    pub open spec fn page(self, code: u32) -> Option<Texture> {
        page_at(self.pages, self.page_index(code))
    }

    /// The number of the cell of `code` on its page, counted row by row.
    pub open spec fn cell_index(self, code: u32) -> int {
        code as int % self.glyphs_per_page as int
    }

    /// The column of the cell of `code`.
    pub open spec fn column(self, code: u32) -> int {
        self.cell_index(code) % (self.columns as int)
    }

    /// The row of the cell of `code`.
    pub open spec fn row(self, code: u32) -> int {
        self.cell_index(code) / (self.columns as int)
    }

    /// Where `glyph` lies on its atlas page, in fractions of the page: the
    /// left edge of its ink, the top of its row, and its width and height.
    pub open spec fn st_rect(self, glyph: Glyph) -> Rect<Ratio> {
        let across = self.cell_width * self.columns;
        Rect {
            x: Ratio {
                numer: (self.column(glyph.code) * self.cell_width + glyph.size.left_offset) as i64,
                denom: across as i64,
            },
            y: Ratio { numer: self.row(glyph.code) as i64, denom: self.rows as i64 },
            width: Ratio { numer: glyph.size.width as i64, denom: across as i64 },
            height: Ratio { numer: 1, denom: self.rows as i64 },
        }
    }

    /// Where `glyph` is drawn when its line starts at `pos`.
    pub open spec fn placed(self, glyph: Glyph, pos: Vec2d<i32>) -> Rect<i32> {
        Rect {
            x: (pos.x + glyph.delta_x) as i32,
            y: pos.y,
            width: glyph.size.width,
            height: self.cell_height,
        }
    }
}

impl FontView {
    /// Every code point has a cell inside the grid: its column lies below
    /// the number of columns and its row below the number of rows, and the
    /// two give back its place on the page.
    pub proof fn lemma_cell_in_grid(self, code: u32)
        requires
            self.wf(),
        ensures
            0 <= self.cell_index(code) < self.glyphs_per_page,
            0 <= self.column(code) < self.columns,
            0 <= self.row(code) < self.rows,
            self.row(code) * self.columns + self.column(code) == self.cell_index(code),
    {
        let columns = self.columns as int;
        let rows = self.rows as int;
        let index = self.cell_index(code);
        assert(0 < columns * rows) by (nonlinear_arith)
            requires
                columns > 0,
                rows > 0,
        ;
        assert(0 <= index / columns < rows && 0 <= index % columns < columns && (index / columns)
            * columns + index % columns == index) by (nonlinear_arith)
            requires
                0 <= index < columns * rows,
                columns > 0,
        ;
    }

    /// A code point whose page number is not that of a gap has no page
    /// exactly when the number, the code point divided by the glyphs on a
    /// page, is not below the number of pages: when it is the number just
    /// behind the last page, or exceeds the number of pages.
    pub proof fn lemma_page_out_of_range(self, code: u32)
        requires
            self.wf(),
            self.page_index(code) < self.pages.len() ==> self.pages[self.page_index(code)] is Some,
        ensures
            self.page_index(code) == code as int / self.glyphs_per_page as int,
            self.page(code) is None <==> self.page_index(code) >= self.pages.len(),
            self.page_index(code) != self.pages.len() ==> (self.page(code) is None
                <==> self.page_index(code) > self.pages.len()),
    {
        let per_page = self.glyphs_per_page as int;
        assert(0 < self.columns * self.rows) by (nonlinear_arith)
            requires
                self.columns > 0,
                self.rows > 0,
        ;
        assert(0 <= code as int / per_page) by (nonlinear_arith)
            requires
                0 <= code as int,
                per_page > 0,
        ;
    }
}

impl Font {
    /// The font's grid is well-formed.
    pub open spec fn wf(&self) -> bool {
        self@.wf()
    }

    /// A font over `pages`, each cut into `atlas_size` cells. The size of a
    /// cell follows from the size of page 0.
    pub fn new<S>(
        atlas_size: S,
        indent: i32,
        line_spacing: i32,
        pages: Pages<Texture>,
        glyph_widths: HashMap<u32, GlyphSize>,
    ) -> (r: Self) where S: IntoVec2d<i32>
        requires
            atlas_size.as_vec2d().x > 0,
            atlas_size.as_vec2d().y > 0,
            atlas_size.as_vec2d().x * atlas_size.as_vec2d().y <= i32::MAX,
        ensures
            r.wf(),
            r@.columns == atlas_size.as_vec2d().x,
            r@.rows == atlas_size.as_vec2d().y,
            pages@[0] matches Some(first) && r@.cell_width == quotient(
                first.size.x as int,
                r@.columns as int,
            ) && r@.cell_height == quotient(first.size.y as int, r@.rows as int),
            r@.indent == indent,
            r@.line_spacing == line_spacing,
            r@.pages == pages@,
            r@.widths == glyph_widths@,
    {
        let atlas_size: Vec2d<i32> = atlas_size.into_vec2d();
        let (width, height) = pages.first().size().into_inner();
        let glyph_width = width / atlas_size.width();
        let glyph_height = height / atlas_size.height();
        assert(0 < atlas_size.x * atlas_size.y) by (nonlinear_arith)
            requires
                atlas_size.x > 0,
                atlas_size.y > 0,
        ;
        Font {
            atlas_size,
            glyphs_on_page: atlas_size.width() * atlas_size.height(),
            default_size: Vec2d::new(glyph_width, glyph_height),
            indent,
            line_spacing,
            pages,
            glyph_widths,
        }
    }

    /// Lays out `text` behind the items that `buf` holds already.
    ///
    /// A line break closes the line and moves one line height down. Any
    /// other character becomes a glyph at the pen position, and the pen
    /// moves on by the glyph's width and the font's indent. In a monospaced
    /// layout every glyph has the size of a cell.
    pub fn glyphs(&self, text: &str, buf: Vec<Char>, monospaced: bool) -> (r: Glyphs)
        requires
            self@.layout_fits(text@, monospaced),
        ensures
            r.chars@ == buf@ + self@.layout_chars(text@, monospaced),
            r.size.x == self@.layout_width(text@, monospaced),
            r.size.y == self@.layout_height(text@),
    {
        let mut buf = buf;
        let ghost start = buf@;
        let default = GlyphSize::new(0, self.default_size.width());
        let mut width: i32 = 0;
        let mut size = Vec2d::new(0, self.default_size.height());

        for ch in it: text.chars()
            invariant
                self@.layout_fits(text@, monospaced),
                it.seq() == text@,
                default == self@.default_glyph(),
                width == self@.pen_x(text@, it.index() as int, monospaced),
                size.x == self@.widest(text@, it.index() as int, monospaced),
                0 <= size.x,
                width <= size.x,
                size.y == self@.cell_height + line_breaks(text@, it.index() as int)
                    * self@.line_height(),
                buf@ == start + Seq::new(
                    it.index() as nat,
                    |i: int| self@.layout_char(text@, i, monospaced),
                ),
        {
            if ch == '\n' {
                buf.push(Char::NewLine);

                proof {
                    let n = it.index() as int;
                    let total = text@.len() as int;
                    lemma_line_breaks_grow(text@, n + 1, total);
                    lemma_line_breaks_grow(text@, 0, n);
                    lemma_height_between(
                        self@.cell_height as int,
                        self@.line_height(),
                        line_breaks(text@, n + 1),
                        line_breaks(text@, total),
                    );
                    assert((line_breaks(text@, n) + 1) * self@.line_height() == line_breaks(
                        text@,
                        n,
                    ) * self@.line_height() + self@.line_height()) by (nonlinear_arith);
                }
                if width > size.x {
                    size.x = width;
                }
                width = 0;
                size.y += self.new_line_height();
            } else {
                let glyph_size = if monospaced {
                    default
                } else {
                    match self.glyph_widths.get(&(ch as u32)) {
                        Some(listed) => *listed,
                        None => default,
                    }
                };

                buf.push(Char::Print(Glyph::new(glyph_size, width, ch as u32)));

                width += glyph_size.width + self.indent;
                if width > size.x {
                    size.x = width;
                }
            }
        }

        Glyphs::new(buf, size)
    }

    /// Whether `text` can be laid out in 32-bit pixel arithmetic, as `glyphs`
    /// asks.
    pub fn can_layout(&self, text: &str, monospaced: bool) -> (r: bool)
        ensures
            r == self@.layout_fits(text@, monospaced),
    {
        let default_width = self.default_size.width();
        let mut width: i32 = 0;
        let mut breaks: u64 = 0;

        for ch in it: text.chars()
            invariant
                it.seq() == text@,
                default_width == self@.cell_width,
                width == self@.pen_x(text@, it.index() as int, monospaced),
                forall|i: int|
                    0 <= i < it.index() && #[trigger] text@[i] != '\n' ==> in_i32(
                        self@.advance(text@[i], monospaced),
                    ) && in_i32(self@.pen_x(text@, i + 1, monospaced)),
                breaks == if line_breaks(text@, it.index() as int) < 0x1_0000_0000 {
                    line_breaks(text@, it.index() as int)
                } else {
                    0x1_0000_0000
                },
        {
            proof {
                lemma_line_breaks_grow(text@, 0, it.index() as int);
            }
            if ch == '\n' {
                width = 0;
                if breaks < 0x1_0000_0000 {
                    breaks += 1;
                }
            } else {
                let glyph_width = if monospaced {
                    default_width
                } else {
                    match self.glyph_widths.get(&(ch as u32)) {
                        Some(listed) => listed.width,
                        None => default_width,
                    }
                };
                let advance = glyph_width as i64 + self.indent as i64;
                let next = width as i64 + advance;
                if advance < i32::MIN as i64 || advance > i32::MAX as i64 || next < i32::MIN as i64
                    || next > i32::MAX as i64 {
                    return false;
                }
                width = next as i32;
            }
        }

        if breaks == 0 {
            return true;
        }
        let line_height = self.line_spacing as i64 + self.default_size.height() as i64;
        if line_height < i32::MIN as i64 || line_height > i32::MAX as i64 {
            return false;
        }
        if line_height == 0 {
            assert(line_breaks(text@, text@.len() as int) * 0 == 0);
            return true;
        }
        if breaks >= 0x1_0000_0000 {
            assert(!in_i32(self@.layout_height(text@))) by {
                lemma_height_far(
                    self@.cell_height as int,
                    line_height as int,
                    line_breaks(text@, text@.len() as int),
                );
            }
            return false;
        }
        assert(-0x7fff_ffff_8000_0000 <= breaks * line_height < 0x7fff_ffff_0000_0000)
            by (nonlinear_arith)
            requires
                0 < breaks < 0x1_0000_0000,
                -0x8000_0000 <= line_height < 0x8000_0000,
        ;
        let height = self.default_size.height() as i64 + breaks as i64 * line_height;
        i32::MIN as i64 <= height && height <= i32::MAX as i64
    }

    /// The rectangle in which `glyph` is drawn when its line starts at
    /// `pos`.
    pub fn placing(&self, glyph: Glyph, pos: Vec2d<i32>) -> (r: Rect<i32>)
        requires
            in_i32(pos.x + glyph.delta_x),
        ensures
            r == self@.placed(glyph, pos),
    {
        Rect::new((pos.x + glyph.delta_x, pos.y), (glyph.size.width, self.default_size.height()))
    }

    /// The column and the row of the atlas cell that shows `code`, as `x`
    /// and `y`.
    pub fn atlas_cell(&self, code: u32) -> (r: Vec2d<i32>)
        requires
            self.wf(),
        ensures
            r.x == self@.column(code),
            r.y == self@.row(code),
            0 <= r.x < self@.columns,
            0 <= r.y < self@.rows,
    {
        proof {
            self@.lemma_cell_in_grid(code);
        }
        let code_at_page = code % (self.glyphs_on_page as u32);
        let columns = self.atlas_size.width() as u32;

        Vec2d::new((code_at_page % columns) as i32, (code_at_page / columns) as i32)
    }

    /// Where `glyph` lies on its atlas page, in fractions of the page.
    pub fn st_map(&self, glyph: Glyph) -> (r: Rect<Ratio>)
        requires
            self.wf(),
        ensures
            r == self@.st_rect(glyph),
    {
        let cell = self.atlas_cell(glyph.code);
        let columns = self.atlas_size.width() as i64;
        let rows = self.atlas_size.height() as i64;
        let cell_width = self.default_size.width() as i64;

        assert(-0x4000_0000_0000_0000 <= cell_width * columns <= 0x4000_0000_0000_0000
            && -0x4000_0000_0000_0000 <= cell.x * cell_width <= 0x4000_0000_0000_0000)
            by (nonlinear_arith)
            requires
                -0x8000_0000 <= cell_width < 0x8000_0000,
                0 <= cell.x < columns < 0x8000_0000,
        ;
        let across = cell_width * columns;
        let s = cell.x as i64 * cell_width + glyph.size.left_offset as i64;

        Rect::new(
            (Ratio::new(s, across), Ratio::new(cell.y as i64, rows)),
            (Ratio::new(glyph.size.width as i64, across), Ratio::new(1, rows)),
        )
    }

    /// The distance from one line to the next: the room between two lines
    /// and the height of a cell.
    pub fn new_line_height(&self) -> (r: i32)
        requires
            in_i32(self@.line_height()),
        ensures
            r == self@.line_height(),
    {
        self.line_spacing + self.default_size.height()
    }

    /// The size of an atlas cell in pixels.
    pub fn default_size(&self) -> (r: Vec2d<i32>)
        ensures
            r.x == self@.cell_width,
            r.y == self@.cell_height,
    {
        self.default_size
    }

    /// The atlas page that shows `code`, or `None` where the font has no
    /// such page: the glyph is then not drawn.
    pub fn page(&self, code: u32) -> (r: Option<&Texture>)
        requires
            self.wf(),
        ensures
            match r {
                Some(texture) => self@.page(code) == Some(*texture),
                None => self@.page(code) is None,
            },
    {
        assert(0 < self@.columns * self@.rows) by (nonlinear_arith)
            requires
                self@.columns > 0,
                self@.rows > 0,
        ;
        let page_code = code / (self.glyphs_on_page as u32);
        self.pages.get(page_code as usize)
    }
}

/// The glyphs of the standard font that are narrower or wider than a cell:
/// thin punctuation and letters, the wide Latin letters, and the wide
/// Cyrillic letters of page 4.
pub open spec fn standard_widths() -> Map<u32, GlyphSize> {
    Map::<u32, GlyphSize>::empty()
        .insert('!' as u32, GlyphSize { left_offset: 2, width: 4 })
        .insert(':' as u32, GlyphSize { left_offset: 2, width: 4 })
        .insert(';' as u32, GlyphSize { left_offset: 2, width: 4 })
        .insert('.' as u32, GlyphSize { left_offset: 2, width: 4 })
        .insert(',' as u32, GlyphSize { left_offset: 2, width: 4 })
        .insert('`' as u32, GlyphSize { left_offset: 0, width: 6 })
        .insert('|' as u32, GlyphSize { left_offset: 2, width: 4 })
        .insert('i' as u32, GlyphSize { left_offset: 0, width: 6 })
        .insert('j' as u32, GlyphSize { left_offset: 0, width: 6 })
        .insert('l' as u32, GlyphSize { left_offset: 0, width: 6 })
        .insert('M' as u32, GlyphSize { left_offset: 0, width: 9 })
        .insert('m' as u32, GlyphSize { left_offset: -1i32, width: 9 })
        .insert('W' as u32, GlyphSize { left_offset: 0, width: 9 })
        .insert('w' as u32, GlyphSize { left_offset: 0, width: 9 })
        .insert('\u{41c}' as u32, GlyphSize { left_offset: 0, width: 9 })
        .insert('\u{43c}' as u32, GlyphSize { left_offset: 0, width: 9 })
        .insert('\u{42b}' as u32, GlyphSize { left_offset: 0, width: 9 })
        .insert('\u{44b}' as u32, GlyphSize { left_offset: 0, width: 9 })
        .insert('\u{42e}' as u32, GlyphSize { left_offset: 0, width: 9 })
        .insert('\u{44e}' as u32, GlyphSize { left_offset: 0, width: 9 })
}

/// The table of `standard_widths`.
pub fn standard_glyph_widths() -> (r: HashMap<u32, GlyphSize>)
    ensures
        r@ == standard_widths(),
{
    let mut widths: HashMap<u32, GlyphSize> = HashMap::new();
    widths.insert('!' as u32, GlyphSize::new(2, 4));
    widths.insert(':' as u32, GlyphSize::new(2, 4));
    widths.insert(';' as u32, GlyphSize::new(2, 4));
    widths.insert('.' as u32, GlyphSize::new(2, 4));
    widths.insert(',' as u32, GlyphSize::new(2, 4));
    widths.insert('`' as u32, GlyphSize::new(0, 6));
    widths.insert('|' as u32, GlyphSize::new(2, 4));
    widths.insert('i' as u32, GlyphSize::new(0, 6));
    widths.insert('j' as u32, GlyphSize::new(0, 6));
    widths.insert('l' as u32, GlyphSize::new(0, 6));
    widths.insert('M' as u32, GlyphSize::new(0, 9));
    widths.insert('m' as u32, GlyphSize::new(-1, 9));
    widths.insert('W' as u32, GlyphSize::new(0, 9));
    widths.insert('w' as u32, GlyphSize::new(0, 9));
    widths.insert('\u{41c}' as u32, GlyphSize::new(0, 9));
    widths.insert('\u{43c}' as u32, GlyphSize::new(0, 9));
    widths.insert('\u{42b}' as u32, GlyphSize::new(0, 9));
    widths.insert('\u{44b}' as u32, GlyphSize::new(0, 9));
    widths.insert('\u{42e}' as u32, GlyphSize::new(0, 9));
    widths.insert('\u{44e}' as u32, GlyphSize::new(0, 9));
    widths
}

impl Font {
    /// The standard font: atlas pages of 16 by 16 cells, no indent, one
    /// pixel between lines, the Latin page 0 and the Cyrillic page 4, and
    /// the standard table of widths.
    pub fn standard(latin: Texture, cyrillic: Texture) -> (r: Self)
        ensures
            r.wf(),
            r@ == (FontView {
                columns: 16,
                rows: 16,
                glyphs_per_page: 256,
                cell_width: quotient(latin.size.x as int, 16) as i32,
                cell_height: quotient(latin.size.y as int, 16) as i32,
                indent: 0,
                line_spacing: 1,
                pages: seq![Some(latin), None, None, None, Some(cyrillic)],
                widths: standard_widths(),
            }),
    {
        let mut pages = Pages::new(latin);
        pages.add(cyrillic, 4);
        let font = Font::new((16, 16), 0, 1, pages, standard_glyph_widths());
        assert(font@.pages =~= seq![Some(latin), None, None, None, Some(cyrillic)]);
        assert(font@.glyphs_per_page == 256) by (nonlinear_arith)
            requires
                font@.columns == 16,
                font@.rows == 16,
                font@.glyphs_per_page == font@.columns * font@.rows,
        ;
        font
    }
}

} // verus!
