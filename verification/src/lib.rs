//! A small 2D drawing toolkit: geometry values, bitmap-font text layout over
//! glyph atlases, a cache for shader uniforms, and placement of widgets.
//!
//! The crate holds the bookkeeping only. Whatever talks to the graphics
//! driver stays with the caller, who hands in plain handles and sizes and
//! carries out what the functions here decide.

pub mod common;
pub mod graphics;
pub mod ui;
