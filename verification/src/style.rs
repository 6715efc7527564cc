//! How a path is painted: fill and stroke paint, line style and fill rule.
//!
//! A style says nothing about any backend. A surface compiles it once into
//! its own form.

use vstd::prelude::*;
use vstd::string::*;
use crate::geometry::{Transform, Value};
use crate::surface::Surface;
use crate::text::{append_decimal, decimal};

verus! {

/// Which regions of an outline that crosses itself count as inside.
#[derive(Clone, Copy, Debug, PartialEq, Eq, Structural)]
pub enum FillRule {
    /// Inside is where a ray to the outside crosses the outline an odd
    /// number of times.
    EvenOdd,
    /// Inside is where the outline winds around a point a number of times
    /// that is not zero.
    NonZero,
}

/// Red, green, blue and alpha, eight bits each; alpha 255 is opaque.
pub type Rgba8 = (u8, u8, u8, u8);

/// A solid color or an image of the surface, placed by an affine map.
pub enum Paint<S: Surface> {
    Solid(Rgba8),
    Image(S::Image, Transform),
}

impl<S: Surface> Paint<S> {
    /// Whether `other` is what a clone of this paint can be: the same
    /// color, or a clone of the image under the same placement.
    pub open spec fn cloned_to(self, other: Paint<S>) -> bool {
        match (self, other) {
            (Paint::Solid(a), Paint::Solid(b)) => a == b,
            (Paint::Image(a, t), Paint::Image(b, u)) => cloned::<S::Image>(a, b) && t == u,
            _ => false,
        }
    }

    /// The paint in words: a color with its four channels in decimal, or
    /// the mere fact that it is an image.
    pub open spec fn description(self) -> Seq<char> {
        match self {
            Paint::Solid(c) => "Solid(rgba("@ + decimal(c.0 as nat) + ", "@ + decimal(c.1 as nat)
                + ", "@ + decimal(c.2 as nat) + ", "@ + decimal(c.3 as nat) + "))"@,
            Paint::Image(_, _) => "Image"@,
        }
    }

    /// Describes the paint for a reader.
    pub fn describe(&self) -> (text: String)
        ensures
            text@ == self.description(),
    {
        let mut text = String::new();
        match self {
            Paint::Solid(c) => {
                text.append("Solid(rgba(");
                append_decimal(&mut text, c.0 as usize);
                text.append(", ");
                append_decimal(&mut text, c.1 as usize);
                text.append(", ");
                append_decimal(&mut text, c.2 as usize);
                text.append(", ");
                append_decimal(&mut text, c.3 as usize);
                text.append("))");
            },
            Paint::Image(_, _) => {
                text.append("Image");
            },
        }
        assert(text@ =~= self.description());
        text
    }

    pub fn white() -> (p: Self)
        ensures
            p == Paint::<S>::Solid((255u8, 255u8, 255u8, 255u8)),
    {
        Paint::Solid((255, 255, 255, 255))
    }

    pub fn black() -> (p: Self)
        ensures
            p == Paint::<S>::Solid((0u8, 0u8, 0u8, 255u8)),
    {
        Paint::Solid((0, 0, 0, 255))
    }
}

impl<S: Surface> Clone for Paint<S> {
    fn clone(&self) -> (p: Self)
        ensures
            self.cloned_to(p),
    {
        match self {
            Paint::Solid(color) => Paint::Solid(*color),
            Paint::Image(image, tr) => Paint::Image(image.clone(), *tr),
        }
    }
}

/// How the end of an open line is drawn.
#[derive(Clone, Copy, Debug, PartialEq, Eq, Structural)]
pub enum LineCap {
    Butt,
    Square,
    Round,
}

/// How two segments of a line are joined; a miter join has a limit.
#[derive(Clone, Copy, Debug, PartialEq)]
pub enum LineJoin<V> {
    Miter(V),
    Bevel,
    Round,
}

/// Width, cap and join of a stroked line.
#[derive(Clone, Copy, Debug, PartialEq)]
pub struct LineStyle<V> {
    pub width: V,
    pub cap: LineCap,
    pub join: LineJoin<V>,
}

impl<V: Value> LineStyle<V> {
    /// A line of the given width with butt caps and miter joins, limited by
    /// the width.
    pub fn default(width: V) -> (line: Self)
        ensures
            line == (LineStyle { width, cap: LineCap::Butt, join: LineJoin::Miter(width) }),
    {
        LineStyle { width, cap: LineCap::Butt, join: LineJoin::Miter(width) }
    }
}

/// Fill paint, stroke paint with its line style, and fill rule of a path.
pub struct PathStyle<S: Surface> {
    pub fill: Option<Paint<S>>,
    pub stroke: Option<(Paint<S>, LineStyle<S::Scalar>)>,
    pub fill_rule: FillRule,
}

impl<S: Surface> PathStyle<S> {
    /// Whether `other` is what a clone of this style can be.
    pub open spec fn cloned_to(self, other: PathStyle<S>) -> bool {
        &&& other.fill_rule == self.fill_rule
        &&& match (self.fill, other.fill) {
            (Some(a), Some(b)) => a.cloned_to(b),
            (None, None) => true,
            _ => false,
        }
        &&& match (self.stroke, other.stroke) {
            (Some(a), Some(b)) => a.0.cloned_to(b.0) && a.1 == b.1,
            (None, None) => true,
            _ => false,
        }
    }

    /// A stroke without a fill, under the non-zero rule.
    pub fn stroke(paint: Paint<S>, line: LineStyle<S::Scalar>) -> (style: Self)
        ensures
            style == (PathStyle {
                fill: None,
                stroke: Some((paint, line)),
                fill_rule: FillRule::NonZero,
            }),
    {
        PathStyle { fill: None, stroke: Some((paint, line)), fill_rule: FillRule::NonZero }
    }

    /// A fill without a stroke, under the non-zero rule.
    pub fn fill(paint: Paint<S>) -> (style: Self)
        ensures
            style == (PathStyle { fill: Some(paint), stroke: None, fill_rule: FillRule::NonZero }),
    {
        PathStyle { fill: Some(paint), stroke: None, fill_rule: FillRule::NonZero }
    }
}

impl<S: Surface> Clone for PathStyle<S> {
    fn clone(&self) -> (style: Self)
        ensures
            self.cloned_to(style),
    {
        let fill = match &self.fill {
            Some(paint) => Some(paint.clone()),
            None => None,
        };
        let stroke = match &self.stroke {
            Some((paint, line)) => Some((paint.clone(), *line)),
            None => None,
        };
        PathStyle { fill, stroke, fill_rule: self.fill_rule }
    }
}

} // verus!
