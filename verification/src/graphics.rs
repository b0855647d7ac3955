//! Fonts, glyph atlases, shader bookkeeping and uniforms.

pub mod draw;
pub mod font;
pub mod font_render;
pub mod glyphs;
pub mod layout;
pub mod pages;
pub mod shaders;
pub mod texture;
pub mod uniform;

pub use self::draw::{Draw, DrawParameters};
pub use self::font::{Font, FontView, GlyphSize};
pub use self::font_render::{FontRender, Quad};
pub use self::glyphs::{Char, Glyph, Glyphs};
pub use self::pages::Pages;
pub use self::shaders::{ShaderProgram, ShaderSet, ShaderSetView};
pub use self::texture::Texture;
pub use self::uniform::{Accept, Uniform, UniformError, UniformView};
