//! Geometry values shared by the rest of the crate.

pub mod position;
pub mod ratio;
pub mod rect;
pub mod scalar;
mod sealed;
pub mod vec2d;

pub use self::position::Position;
pub use self::ratio::Ratio;
pub use self::rect::Rect;
pub use self::scalar::Scalar;
pub use self::vec2d::{IntoVec2d, Vec2d};
