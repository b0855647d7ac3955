use super::font::GlyphSize;
use crate::common::vec2d::Vec2d;
use vstd::prelude::*;

verus! {

/// One character of a laid-out text: how wide it is, where in its line it
/// starts, and which code point it shows.
#[derive(Copy, Clone, Debug, PartialEq, Eq)]
pub struct Glyph {
    pub size: GlyphSize,
    pub delta_x: i32,
    pub code: u32,
}

impl Glyph {
    pub fn new(size: GlyphSize, delta_x: i32, code: u32) -> (r: Self)
        ensures
            r == (Glyph { size, delta_x, code }),
    {
        Glyph { size, delta_x, code }
    }
}

/// An item of a laid-out text: a line break, or a glyph to draw.
#[derive(Copy, Clone, Debug, PartialEq, Eq)]
pub enum Char {
    NewLine,
    Print(Glyph),
}

/// A laid-out text: its items in reading order, and the size of the box
/// around all of its lines.
#[derive(Clone, Debug)]
pub struct Glyphs {
    pub chars: Vec<Char>,
    pub size: Vec2d<i32>,
}

impl Glyphs {
    pub fn new(chars: Vec<Char>, size: Vec2d<i32>) -> (r: Self)
        ensures
            r.chars == chars,
            r.size == size,
    {
        Glyphs { chars, size }
    }

    /// The size of the box around the text.
    pub fn size(&self) -> (r: Vec2d<i32>)
        ensures
            r == self.size,
    {
        self.size
    }

    /// The items, in reading order.
    pub fn chars(&self) -> (r: &Vec<Char>)
        ensures
            r == self.chars,
    {
        &self.chars
    }
}

} // verus!
