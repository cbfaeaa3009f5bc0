//! Display driver integrations.

pub mod embedded_graphics;

pub use embedded_graphics::EmbeddedGraphicsDisplay;
pub use embedded_graphics::FromLvglRgb565;
