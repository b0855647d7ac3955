use vstd::prelude::*;

verus! {

/// Where a widget is anchored in the viewport. The numbers are paddings, in
/// pixels, from the edges that the variant names.
#[derive(Copy, Clone, Debug, PartialEq, Eq)]
pub enum Position {
    Center,
    Left(i32),
    Right(i32),
    Bot(i32),
    Top(i32),
    LeftBot(i32, i32),
    LeftTop(i32, i32),
    RightBot(i32, i32),
    RightTop(i32, i32),
}

} // verus!
