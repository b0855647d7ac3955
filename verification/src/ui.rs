//! Widgets and their placement.

pub mod pos;

pub use self::pos::Pos;
