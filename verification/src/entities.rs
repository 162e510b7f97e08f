//! The shapes that can be drawn, each with its per-pixel sampler.

pub mod circle;
pub mod glyphs;
pub mod line;
pub mod rectangle;
pub mod sampling;
pub mod text;
pub mod triangle;

pub use circle::Circle;
pub use line::Line;
pub use rectangle::Rectangle;
pub use text::Text;
pub use triangle::Triangle;
