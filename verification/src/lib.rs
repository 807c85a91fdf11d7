//! Foundational value types for a 2D graphics layer.
//!
//! Two independent components: an axis-aligned rectangle with fixed-point
//! coordinates (`Rect`, with `Point2` and `Vector2`), and an sRGB color with
//! byte-exact channels and packed-integer encodings (`Color`), together with
//! small enumerations describing draw and filter modes.

pub mod color;
pub mod modes;
pub mod rect;

pub use color::Color;
pub use modes::DrawMode;
pub use modes::FilterMode;
pub use rect::Point2;
pub use rect::Rect;
pub use rect::Vector2;
pub use rect::UNIT;
