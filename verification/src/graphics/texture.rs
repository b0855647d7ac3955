use crate::common::vec2d::Vec2d;
use vstd::prelude::*;

verus! {

/// A texture that the graphics driver holds: its handle and its size in
/// pixels.
#[derive(Copy, Clone, Debug, PartialEq, Eq)]
pub struct Texture {
    pub id: u32,
    pub size: Vec2d<i32>,
}

impl Texture {
    pub fn new(id: u32, size: Vec2d<i32>) -> (r: Self)
        ensures
            r == (Texture { id, size }),
    {
        Texture { id, size }
    }

    /// The handle under which the driver knows the texture.
    pub fn id(&self) -> (r: u32)
        ensures
            r == self.id,
    {
        self.id
    }

    /// Width and height in pixels.
    pub fn size(&self) -> (r: Vec2d<i32>)
        ensures
            r == self.size,
    {
        self.size
    }
}

} // verus!
