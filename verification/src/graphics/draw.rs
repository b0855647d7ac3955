use crate::common::position::Position;
use vstd::prelude::*;

verus! {

/// What a widget is told when it is drawn.
#[derive(Copy, Clone, Debug, PartialEq, Eq)]
pub struct DrawParameters {
    /// Where in the viewport the widget is anchored.
    pub position: Position,
}

impl DrawParameters {
    pub fn new(position: Position) -> (r: Self)
        ensures
            r.position == position,
    {
        DrawParameters { position }
    }
}

/// Something that can draw itself with a renderer of type `R`.
pub trait Draw<R> {
    /// What drawing with `params` does to the renderer: whether it can take
    /// the renderer from `before` to `after`. A widget that says nothing of
    /// its own leaves every outcome open.
    open spec fn drawn(&self, before: R, after: R, params: DrawParameters) -> bool {
        true
    }

    /// Draws with `render`, anchored as `params` says.
    fn draw(&self, render: &mut R, params: DrawParameters)
        ensures
            self.drawn(*old(render), *final(render), params),
    ;
}

} // verus!
