//! Small enumerations describing how shapes are drawn and how textures are
//! sampled.

use vstd::prelude::*;

verus! {

/// Specifies whether a shape should be drawn filled or as an outline.
#[derive(Copy, Clone, Debug, PartialEq, Eq, Structural)]
pub enum DrawMode {
    /// A stroked line with the given width, in fixed-point subunits.
    Line(i64),
    /// A filled shape.
    Fill,
}

/// Specifies what blending method to use when scaling up/down images.
///
/// The rendering layer maps this two-variant choice onto its richer
/// texture-filtering enumeration at its own boundary; that reduction is
/// many-to-one and deliberately lossy.
#[derive(Copy, Clone, Debug, PartialEq, Eq, Structural)]
pub enum FilterMode {
    /// Use linear interpolation.
    Linear,
    /// Use nearest-neighbor interpolation.
    Nearest,
}

} // verus!
