use super::scalar::{half_of, Scalar};
use vstd::prelude::*;

verus! {

/// A pair of coordinates, or a width and a height.
#[derive(Copy, Clone, Debug, PartialEq, Eq)]
pub struct Vec2d<T> {
    pub x: T,
    pub y: T,
}

impl<T> Vec2d<T> {
    pub fn new(x: T, y: T) -> (r: Self)
        ensures
            r == (Vec2d { x, y }),
    {
        Vec2d { x, y }
    }

    /// The two components, first `x`, then `y`.
    pub fn into_inner(self) -> (r: (T, T))
        ensures
            r == (self.x, self.y),
    {
        (self.x, self.y)
    }
}

impl<T: Copy> Vec2d<T> {
    /// The first component, read as a width.
    pub fn width(&self) -> (r: T)
        ensures
            r == self.x,
    {
        self.x
    }

    /// The second component, read as a height.
    pub fn height(&self) -> (r: T)
        ensures
            r == self.y,
    {
        self.y
    }
}

impl<T: Scalar> Vec2d<T> {
    /// Both components halved, each rounded towards zero.
    pub fn half(self) -> (r: Self)
        ensures
            r.x.value() == half_of(self.x.value()),
            r.y.value() == half_of(self.y.value()),
    {
        Vec2d { x: self.x.half(), y: self.y.half() }
    }
}

/// What can be given where a pair of coordinates is asked for: a `Vec2d`
/// itself, or a tuple of its two components.
pub trait IntoVec2d<T>: Sized {
    /// The pair that `self` stands for.
    spec fn as_vec2d(self) -> Vec2d<T>;

    fn into_vec2d(self) -> (r: Vec2d<T>)
        ensures
            r == self.as_vec2d(),
    ;
}

impl<T> IntoVec2d<T> for Vec2d<T> {
    open spec fn as_vec2d(self) -> Vec2d<T> {
        self
    }

    fn into_vec2d(self) -> (r: Vec2d<T>) {
        self
    }
}

impl<T> IntoVec2d<T> for (T, T) {
    open spec fn as_vec2d(self) -> Vec2d<T> {
        Vec2d { x: self.0, y: self.1 }
    }

    fn into_vec2d(self) -> (r: Vec2d<T>) {
        Vec2d { x: self.0, y: self.1 }
    }
}

impl<T> From<(T, T)> for Vec2d<T> {
    fn from(pair: (T, T)) -> (r: Self) {
        Vec2d { x: pair.0, y: pair.1 }
    }
}

impl<T> vstd::std_specs::convert::FromSpecImpl<(T, T)> for Vec2d<T> {
    open spec fn obeys_from_spec() -> bool {
        true
    }

    open spec fn from_spec(pair: (T, T)) -> Self {
        Vec2d { x: pair.0, y: pair.1 }
    }
}

} // verus!
