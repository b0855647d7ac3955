use super::scalar::{half_of, num_cast, Scalar};
use super::vec2d::{IntoVec2d, Vec2d};
use vstd::prelude::*;

verus! {

/// An axis-aligned rectangle: the corner with the smallest coordinates, and
/// a size.
#[derive(Copy, Clone, Debug, PartialEq, Eq)]
pub struct Rect<T> {
    pub x: T,
    pub y: T,
    pub width: T,
    pub height: T,
}

impl<T> Rect<T> {
    /// The rectangle at `pos` with the size `size`.
    pub fn new<P, S>(pos: P, size: S) -> (r: Self) where P: IntoVec2d<T>, S: IntoVec2d<T>
        ensures
            r.x == pos.as_vec2d().x,
            r.y == pos.as_vec2d().y,
            r.width == size.as_vec2d().x,
            r.height == size.as_vec2d().y,
    {
        let pos: Vec2d<T> = pos.into_vec2d();
        let size: Vec2d<T> = size.into_vec2d();

        Rect { x: pos.x, y: pos.y, width: size.x, height: size.y }
    }
}

impl<T: Scalar> Rect<T> {
    /// Whether the scalar type `U` can hold all four numbers of the
    /// rectangle.
    pub open spec fn castable<U: Scalar>(self) -> bool {
        &&& U::fits(self.x.value())
        &&& U::fits(self.y.value())
        &&& U::fits(self.width.value())
        &&& U::fits(self.height.value())
    }

    /// Whether `other` holds the same four numbers, in whatever scalar type.
    pub open spec fn same_numbers<U: Scalar>(self, other: Rect<U>) -> bool {
        &&& other.x.value() == self.x.value()
        &&& other.y.value() == self.y.value()
        &&& other.width.value() == self.width.value()
        &&& other.height.value() == self.height.value()
    }

    /// Two rectangles over one scalar type that hold the same numbers are
    /// the same rectangle: a cast to the type itself changes nothing.
    pub proof fn lemma_same_numbers(self, other: Self)
        requires
            self.same_numbers(other),
        ensures
            self == other,
    {
        T::lemma_value(self.x, other.x);
        T::lemma_value(self.y, other.y);
        T::lemma_value(self.width, other.width);
        T::lemma_value(self.height, other.height);
    }

    /// The x coordinate of the right edge.
    pub open spec fn right_value(self) -> int {
        self.x.value() + self.width.value()
    }

    /// The y coordinate of the top edge.
    pub open spec fn top_value(self) -> int {
        self.y.value() + self.height.value()
    }

    /// The same rectangle over the scalar type `U`, or `None` where `U`
    /// cannot hold one of its four numbers.
    pub fn try_cast<U>(self) -> (r: Option<Rect<U>>) where
        T: num::NumCast,
        U: Scalar + num::NumCast,

        ensures
            r is Some <==> self.castable::<U>(),
            r matches Some(c) ==> self.same_numbers(c),
    {
        let x: Option<U> = num_cast(self.x);
        let y: Option<U> = num_cast(self.y);
        let width: Option<U> = num_cast(self.width);
        let height: Option<U> = num_cast(self.height);

        match (x, y, width, height) {
            (Some(x), Some(y), Some(w), Some(h)) => Some(Rect::new((x, y), (w, h))),
            _ => None,
        }
    }

    /// The same rectangle over the scalar type `U`, which must be able to
    /// hold its four numbers.
    pub fn cast<U>(self) -> (r: Rect<U>) where T: num::NumCast, U: Scalar + num::NumCast
        requires
            self.castable::<U>(),
        ensures
            self.same_numbers(r),
    {
        self.try_cast().expect("Some value can't be represented by the target type")
    }
}

impl<T: Copy> Rect<T> {
    /// The corner with the smallest coordinates.
    pub fn pos(&self) -> (r: Vec2d<T>)
        ensures
            r == (Vec2d { x: self.x, y: self.y }),
    {
        Vec2d::new(self.x, self.y)
    }

    /// Width and height.
    pub fn size(&self) -> (r: Vec2d<T>)
        ensures
            r == (Vec2d { x: self.width, y: self.height }),
    {
        Vec2d::new(self.width, self.height)
    }
}

impl<T: Scalar> Rect<T> {
    pub fn left(&self) -> (r: T)
        ensures
            r == self.x,
    {
        self.x
    }

    pub fn right(&self) -> (r: T)
        requires
            T::fits(self.right_value()),
        ensures
            r.value() == self.right_value(),
    {
        self.x.plus(self.width)
    }

    pub fn bot(&self) -> (r: T)
        ensures
            r == self.y,
    {
        self.y
    }

    pub fn top(&self) -> (r: T)
        requires
            T::fits(self.top_value()),
        ensures
            r.value() == self.top_value(),
    {
        self.y.plus(self.height)
    }

    /// The middle of the rectangle: the corner moved by half the size, each
    /// half rounded towards zero.
    pub fn center(&self) -> (r: Vec2d<T>)
        requires
            T::fits(self.x.value() + half_of(self.width.value())),
            T::fits(self.y.value() + half_of(self.height.value())),
        ensures
            r.x.value() == self.x.value() + half_of(self.width.value()),
            r.y.value() == self.y.value() + half_of(self.height.value()),
    {
        let half = self.size().half();
        Vec2d::new(self.x.plus(half.x), self.y.plus(half.y))
    }

    /// Multiplies width and height by `factor`; the corner stays.
    pub fn scale(&mut self, factor: T)
        requires
            T::fits(old(self).width.value() * factor.value()),
            T::fits(old(self).height.value() * factor.value()),
        ensures
            final(self).x == old(self).x,
            final(self).y == old(self).y,
            final(self).width.value() == old(self).width.value() * factor.value(),
            final(self).height.value() == old(self).height.value() * factor.value(),
    {
        self.width = self.width.times(factor);
        self.height = self.height.times(factor);
    }

    /// The rectangle with width and height multiplied by `factor`.
    pub fn scaled(self, factor: T) -> (r: Self)
        requires
            T::fits(self.width.value() * factor.value()),
            T::fits(self.height.value() * factor.value()),
        ensures
            r.x == self.x,
            r.y == self.y,
            r.width.value() == self.width.value() * factor.value(),
            r.height.value() == self.height.value() * factor.value(),
    {
        let mut scaled = self;
        scaled.scale(factor);
        scaled
    }

    /// Moves the corner by `delta`; the size stays.
    pub fn translate<P>(&mut self, delta: P) where P: IntoVec2d<T>
        requires
            T::fits(old(self).x.value() + delta.as_vec2d().x.value()),
            T::fits(old(self).y.value() + delta.as_vec2d().y.value()),
        ensures
            final(self).x.value() == old(self).x.value() + delta.as_vec2d().x.value(),
            final(self).y.value() == old(self).y.value() + delta.as_vec2d().y.value(),
            final(self).width == old(self).width,
            final(self).height == old(self).height,
    {
        let delta: Vec2d<T> = delta.into_vec2d();

        self.x = self.x.plus(delta.x);
        self.y = self.y.plus(delta.y);
    }

    /// The rectangle with its corner moved by `delta`.
    pub fn translated<P>(self, delta: P) -> (r: Self) where P: IntoVec2d<T>
        requires
            T::fits(self.x.value() + delta.as_vec2d().x.value()),
            T::fits(self.y.value() + delta.as_vec2d().y.value()),
        ensures
            r.x.value() == self.x.value() + delta.as_vec2d().x.value(),
            r.y.value() == self.y.value() + delta.as_vec2d().y.value(),
            r.width == self.width,
            r.height == self.height,
    {
        let mut moved = self;
        moved.translate(delta);
        moved
    }

    /// Whether the point `(px, py)` lies in the rectangle: on its left or
    /// bottom edge or inside, not on its right or top edge.
    pub open spec fn holds_point(self, px: int, py: int) -> bool {
        &&& self.x.value() <= px < self.right_value()
        &&& self.y.value() <= py < self.top_value()
    }

    /// Whether the rectangle and `rhs` meet: `rhs` starts before or on the
    /// far edges of `self`, and `self` starts before the far edges of `rhs`.
    pub open spec fn meets(self, rhs: Self) -> bool {
        &&& self.x.value() < rhs.right_value()
        &&& rhs.x.value() <= self.right_value()
        &&& self.y.value() < rhs.top_value()
        &&& rhs.y.value() <= self.top_value()
    }

    /// Whether `point` lies in the rectangle. The far edges are looked at
    /// only as far as the answer depends on them, and must fit where they
    /// are.
    pub fn intersects_point<P>(&self, point: P) -> (r: bool) where P: IntoVec2d<T>
        requires
            self.x.value() <= point.as_vec2d().x.value() ==> T::fits(self.right_value()),
            self.x.value() <= point.as_vec2d().x.value() < self.right_value() && self.y.value()
                <= point.as_vec2d().y.value() ==> T::fits(self.top_value()),
        ensures
            r == self.holds_point(point.as_vec2d().x.value(), point.as_vec2d().y.value()),
    {
        let point: Vec2d<T> = point.into_vec2d();

        self.left().at_most(point.x) && point.x.less(self.right()) && self.bot().at_most(point.y)
            && point.y.less(self.top())
    }

    /// Whether the rectangle and `rhs` meet. The far edges are looked at
    /// only as far as the answer depends on them, and must fit where they
    /// are.
    pub fn intersects_rect(&self, rhs: Rect<T>) -> (r: bool)
        requires
            T::fits(rhs.right_value()),
            self.x.value() < rhs.right_value() ==> T::fits(self.right_value()),
            self.x.value() < rhs.right_value() && rhs.x.value() <= self.right_value() ==> T::fits(
                rhs.top_value(),
            ),
            self.x.value() < rhs.right_value() && rhs.x.value() <= self.right_value()
                && self.y.value() < rhs.top_value() ==> T::fits(self.top_value()),
        ensures
            r == self.meets(rhs),
    {
        self.left().less(rhs.right()) && rhs.left().at_most(self.right()) && self.bot().less(
            rhs.top(),
        ) && rhs.bot().at_most(self.top())
    }
}

} // verus!
