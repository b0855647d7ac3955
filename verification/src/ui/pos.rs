use crate::common::position::Position;
use crate::graphics::draw::{Draw, DrawParameters};
use vstd::prelude::*;

verus! {

/// A widget together with the place where it is anchored. Drawn, it draws
/// the widget at that place; in every other respect it stands for the
/// widget itself.
#[derive(Debug)]
pub struct Pos<U> {
    position: Position,
    ui: U,
}

impl<U> Pos<U> {
    /// Where the widget is anchored.
    pub closed spec fn position(&self) -> Position {
        self.position
    }

    /// The widget.
    pub closed spec fn ui(&self) -> U {
        self.ui
    }

    /// The parameters that the widget is drawn with when the wrapper is
    /// drawn with `params`: the same, but for the wrapper's own position.
    pub open spec fn placed(&self, params: DrawParameters) -> DrawParameters {
        DrawParameters { position: self.position(), ..params }
    }

    pub fn new(position: Position, ui: U) -> (r: Self)
        ensures
            r.position() == position,
            r.ui() == ui,
    {
        Pos { position, ui }
    }

    pub fn center(ui: U) -> (r: Self)
        ensures
            r.position() == Position::Center,
            r.ui() == ui,
    {
        Pos::new(Position::Center, ui)
    }

    pub fn left(pad: i32, ui: U) -> (r: Self)
        ensures
            r.position() == Position::Left(pad),
            r.ui() == ui,
    {
        Pos::new(Position::Left(pad), ui)
    }

    pub fn right(pad: i32, ui: U) -> (r: Self)
        ensures
            r.position() == Position::Right(pad),
            r.ui() == ui,
    {
        Pos::new(Position::Right(pad), ui)
    }

    pub fn bot(pad: i32, ui: U) -> (r: Self)
        ensures
            r.position() == Position::Bot(pad),
            r.ui() == ui,
    {
        Pos::new(Position::Bot(pad), ui)
    }

    pub fn top(pad: i32, ui: U) -> (r: Self)
        ensures
            r.position() == Position::Top(pad),
            r.ui() == ui,
    {
        Pos::new(Position::Top(pad), ui)
    }

    pub fn left_bot(l: i32, b: i32, ui: U) -> (r: Self)
        ensures
            r.position() == Position::LeftBot(l, b),
            r.ui() == ui,
    {
        Pos::new(Position::LeftBot(l, b), ui)
    }

    pub fn left_top(l: i32, t: i32, ui: U) -> (r: Self)
        ensures
            r.position() == Position::LeftTop(l, t),
            r.ui() == ui,
    {
        Pos::new(Position::LeftTop(l, t), ui)
    }

    pub fn right_bot(r: i32, b: i32, ui: U) -> (pos: Self)
        ensures
            pos.position() == Position::RightBot(r, b),
            pos.ui() == ui,
    {
        Pos::new(Position::RightBot(r, b), ui)
    }

    pub fn right_top(r: i32, t: i32, ui: U) -> (pos: Self)
        ensures
            pos.position() == Position::RightTop(r, t),
            pos.ui() == ui,
    {
        Pos::new(Position::RightTop(r, t), ui)
    }

    /// The place where the widget is anchored.
    pub fn placement(&self) -> (r: Position)
        ensures
            r == self.position(),
    {
        self.position
    }
}

impl<R, U> Draw<R> for Pos<U> where U: Draw<R> {
    /// Drawing the wrapper is drawing the widget at the wrapper's position.
    open spec fn drawn(&self, before: R, after: R, params: DrawParameters) -> bool {
        self.ui().drawn(before, after, self.placed(params))
    }

    fn draw(&self, render: &mut R, params: DrawParameters) {
        let mut params = params;
        params.position = self.position;
        self.ui.draw(render, params);
    }
}

impl<U> std::ops::Deref for Pos<U> {
    type Target = U;

    fn deref(&self) -> (r: &U)
        ensures
            *r == self.ui(),
    {
        &self.ui
    }
}

impl<U> std::ops::DerefMut for Pos<U> {
    fn deref_mut(&mut self) -> (r: &mut U)
        ensures
            *r == old(self).ui(),
            final(self).ui() == *final(r),
            final(self).position() == old(self).position(),
    {
        &mut self.ui
    }
}

} // verus!
