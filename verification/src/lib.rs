//! A software rasterizer: a pixel canvas onto which geometric shapes are
//! sampled pixel by pixel and composited with alpha blending.

pub mod canvas;
pub mod chunks;
pub mod color;
pub mod drawable;
pub mod entities;
pub mod geometry;
pub mod scope;
pub mod screen;

pub use canvas::Canvas;
pub use drawable::Drawable;
pub use geometry::{Position, Size, Vector2};
