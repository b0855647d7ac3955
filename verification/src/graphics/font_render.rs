use super::font::{Font, FontView};
use super::glyphs::{Char, Glyph};
use super::texture::Texture;
use crate::common::ratio::Ratio;
use crate::common::rect::Rect;
use crate::common::scalar::in_i32;
use crate::common::vec2d::Vec2d;
use vstd::prelude::*;

verus! {

/// One textured rectangle to draw: the atlas page to bind, where on the
/// screen the rectangle goes, and which part of the page it shows.
#[derive(Copy, Clone, Debug, PartialEq, Eq)]
pub struct Quad {
    pub texture: Texture,
    pub rect: Rect<i32>,
    pub st: Rect<Ratio>,
}

impl FontView {
    /// The rectangle that draws `glyph` in a line that starts at `pos`, or
    /// `None` where the font has no page for the glyph.
    pub open spec fn quad(self, glyph: Glyph, pos: Vec2d<i32>) -> Option<Quad> {
        match self.page(glyph.code) {
            Some(texture) => Some(
                Quad { texture, rect: self.placed(glyph, pos), st: self.st_rect(glyph) },
            ),
            None => None,
        }
    }

    /// The rectangles that draw the items `chars`, in their order. Line
    /// breaks and glyphs without a page are passed over.
    pub open spec fn quads(self, chars: Seq<Char>, pos: Vec2d<i32>) -> Seq<Quad>
        decreases chars.len(),
    {
        if chars.len() == 0 {
            Seq::empty()
        } else {
            let before = self.quads(chars.drop_last(), pos);
            match chars.last() {
                Char::Print(glyph) => match self.quad(glyph, pos) {
                    Some(quad) => before.push(quad),
                    None => before,
                },
                Char::NewLine => before,
            }
        }
    }

    /// Whether every glyph among `chars` that has a page can be placed
    /// behind `pos` in 32-bit pixel arithmetic.
    pub open spec fn placing_fits(self, chars: Seq<Char>, pos: Vec2d<i32>) -> bool {
        forall|i: int|
            0 <= i < chars.len() ==> (#[trigger] chars[i] matches Char::Print(glyph) ==> self.page(
                glyph.code,
            ) is Some ==> in_i32(pos.x + glyph.delta_x))
    }
}

/// Turns text into the rectangles that draw it with one font.
#[derive(Debug)]
pub struct FontRender {
    font: Font,
}

impl View for FontRender {
    type V = FontView;

    closed spec fn view(&self) -> FontView {
        self.font@
    }
}

impl FontRender {
    /// The font's grid is well-formed.
    pub open spec fn wf(&self) -> bool {
        self@.wf()
    }

    pub fn new(font: Font) -> (r: Self)
        requires
            font.wf(),
        ensures
            r@ == font@,
            r.wf(),
    {
        FontRender { font }
    }

    /// The font that the text is drawn with.
    pub fn font(&self) -> (r: &Font)
        ensures
            r@ == self@,
    {
        &self.font
    }

    /// The size of the box around `text` when it is laid out with each
    /// glyph's own width.
    pub fn text_size(&self, text: &str) -> (r: Vec2d<i32>)
        requires
            self@.layout_fits(text@, false),
        ensures
            r.x == self@.layout_width(text@, false),
            r.y == self@.layout_height(text@),
    {
        self.font.glyphs(text, Vec::new(), false).size()
    }

    /// The rectangle that draws `glyph` in a line that starts at `pos`, or
    /// `None` where the font has no page for it: such a glyph is not drawn.
    pub fn quad(&self, glyph: Glyph, pos: Vec2d<i32>) -> (r: Option<Quad>)
        requires
            self.wf(),
            self@.page(glyph.code) is Some ==> in_i32(pos.x + glyph.delta_x),
        ensures
            r == self@.quad(glyph, pos),
    {
        match self.font.page(glyph.code) {
            None => None,
            Some(texture) => {
                let rect = self.font.placing(glyph, pos);
                let st = self.font.st_map(glyph);
                Some(Quad { texture: *texture, rect, st })
            },
        }
    }

    /// Whether `text` can be printed in a line that starts at `pos`, as
    /// `print` asks: whether it can be laid out, and every glyph that has a
    /// page can be placed.
    pub fn can_print(&self, text: &str, pos: Vec2d<i32>) -> (r: bool)
        requires
            self.wf(),
        ensures
            r == (self@.layout_fits(text@, false) && self@.placing_fits(
                self@.layout_chars(text@, false),
                pos,
            )),
    {
        if !self.font.can_layout(text, false) {
            return false;
        }
        let glyphs = self.font.glyphs(text, Vec::new(), false);
        let chars = glyphs.chars();

        assert(chars@ == self@.layout_chars(text@, false));
        for i in 0..chars.len()
            invariant
                self.wf(),
                self@.layout_fits(text@, false),
                chars@ == self@.layout_chars(text@, false),
                forall|k: int|
                    0 <= k < i ==> (#[trigger] chars@[k] matches Char::Print(glyph)
                        ==> self@.page(glyph.code) is Some ==> in_i32(pos.x + glyph.delta_x)),
        {
            match chars[i] {
                Char::NewLine => {},
                Char::Print(glyph) => {
                    let x = pos.x as i64 + glyph.delta_x as i64;
                    if self.font.page(glyph.code).is_some() && (x < i32::MIN as i64 || x
                        > i32::MAX as i64) {
                        assert(chars@[i as int] == Char::Print(glyph));
                        return false;
                    }
                },
            }
        }
        true
    }

    /// The rectangles that draw `text` in a line that starts at `pos`, in
    /// reading order, for the caller to hand to the graphics driver one by
    /// one. Glyphs without a page are left out.
    pub fn print(&self, text: &str, pos: Vec2d<i32>) -> (r: Vec<Quad>)
        requires
            self.wf(),
            self@.layout_fits(text@, false),
            self@.placing_fits(self@.layout_chars(text@, false), pos),
        ensures
            r@ == self@.quads(self@.layout_chars(text@, false), pos),
    {
        let glyphs = self.font.glyphs(text, Vec::new(), false);
        let chars = glyphs.chars();
        let mut quads: Vec<Quad> = Vec::new();

        assert(chars@ == self@.layout_chars(text@, false));
        for i in 0..chars.len()
            invariant
                self.wf(),
                self@.placing_fits(chars@, pos),
                quads@ == self@.quads(chars@.take(i as int), pos),
        {
            assert(chars@.take(i + 1).drop_last() == chars@.take(i as int));
            match chars[i] {
                Char::NewLine => {},
                Char::Print(glyph) => {
                    match self.quad(glyph, pos) {
                        Some(quad) => quads.push(quad),
                        None => {},
                    }
                },
            }
        }
        assert(chars@.take(chars@.len() as int) == chars@);
        quads
    }
}

} // verus!
