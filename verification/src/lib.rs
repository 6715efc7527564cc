//! Backend-agnostic construction of vector paths.
//!
//! A caller describes a path with a small set of commands: move, line,
//! quadratic and cubic curve, close, rectangle, ellipse. A `PathBuilder`
//! turns them into the contours of an outline, and a `Surface` paints the
//! outline in a `PathStyle`. Contours, outlines and surfaces are traits, so
//! that the same commands serve every backend.
//!
//! - `geometry`: points, rectangles and affine maps, and what the
//!   contracts say of their coordinates
//! - `path`: the `Contour` and `Outline` capabilities and their model
//! - `builder`: the `PathBuilder` state machine
//! - `laws`: what holds of every builder
//! - `style`: paints, line styles, fill rules
//! - `surface`: the `Surface` capability and the pixel formats of textures
//! - `pathfinder`: contours, outlines and images of `pathfinder_content`
//! - `svg`: the markup of an SVG document
//! - `text`: numbers in decimal and hexadecimal digits

pub mod builder;
pub mod geometry;
pub mod laws;
pub mod path;
pub mod pathfinder;
pub mod style;
pub mod surface;
pub mod svg;
pub mod text;

pub use builder::PathBuilder;
pub use geometry::{Rect, Transform, Value, Vector};
pub use path::{Contour, Outline};
pub use style::{FillRule, LineCap, LineJoin, LineStyle, Paint, PathStyle, Rgba8};
pub use surface::{PixelFormat, Surface};
pub use svg::Svg;
