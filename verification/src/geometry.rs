//! Points, rectangles and affine placements.
//!
//! Coordinates are single-precision numbers that live inside the geometry
//! types of `pathfinder_geometry`. The path logic never computes with a
//! coordinate: it carries points through and needs to know only which bit
//! pattern a coordinate has, so that the contracts can say which point ended
//! up where. Every contract therefore speaks of a point by the IEEE 754 bit
//! patterns of its two coordinates.

use vstd::prelude::*;

pub use pathfinder_geometry::rect::RectF as Rect;
pub use pathfinder_geometry::transform2d::Transform2F as Transform;
pub use pathfinder_geometry::vector::Vector2F as Vector;

verus! {

#[verifier::external_type_specification]
#[verifier::external_body]
pub struct ExVector(pathfinder_geometry::vector::Vector2F);

#[verifier::external_type_specification]
#[verifier::external_body]
pub struct ExRect(pathfinder_geometry::rect::RectF);

#[verifier::external_type_specification]
#[verifier::external_body]
pub struct ExTransform(pathfinder_geometry::transform2d::Transform2F);

/// The numeric type of a coordinate or of a line width. The library stores
/// and hands on such values and never computes with them, so every copyable
/// type qualifies.
pub trait Value: Copy + Sized {
}

impl<T: Copy + Sized> Value for T {
}

/// The bit patterns of an `(x, y)` pair of coordinates.
pub struct Coords {
    pub x: u32,
    pub y: u32,
}

/// The bit patterns of a rectangle's four edges.
pub struct Edges {
    pub min_x: u32,
    pub min_y: u32,
    pub max_x: u32,
    pub max_y: u32,
}

/// The bit patterns of the six entries of an affine map
/// `(x, y) -> (m11 x + m12 y + m13, m21 x + m22 y + m23)`.
pub struct Entries {
    pub m11: u32,
    pub m12: u32,
    pub m13: u32,
    pub m21: u32,
    pub m22: u32,
    pub m23: u32,
}

/// The coordinates of `v`, as `Vector2F::x` and `Vector2F::y` report them.
pub uninterp spec fn vector_coords(v: Vector) -> Coords;

/// The edges of `r`, as `RectF::min_x`, `min_y`, `max_x` and `max_y` report
/// them.
pub uninterp spec fn rect_edges(r: Rect) -> Edges;

/// The entries of `t`, as `Transform2F::m11`, `m12`, `m31`, `m21`, `m22`
/// and `m32` report them (the crate numbers the translation as row 3).
pub uninterp spec fn transform_entries(t: Transform) -> Entries;

/// The entries of `Transform2F`'s product of two affine maps: the map that
/// applies `b` first and `a` after it.
pub uninterp spec fn product_entries(a: Entries, b: Entries) -> Entries;

/// The bit pattern of the number one.
pub const ONE: u32 = 0x3f80_0000;

/// The shift by `v`.
pub open spec fn translation_entries(v: Coords) -> Entries {
    Entries { m11: ONE, m12: 0, m13: v.x, m21: 0, m22: ONE, m23: v.y }
}

/// The scaling by `s.x` along the first axis and by `s.y` along the second.
pub open spec fn scale_entries(s: Coords) -> Entries {
    Entries { m11: s.x, m12: 0, m13: 0, m21: 0, m22: s.y, m23: 0 }
}

/// Where an ellipse is placed: the unit circle is scaled to the radii,
/// turned by the rotation, and moved to the center.
pub open spec fn placement_entries(center: Coords, rotation: Entries, radius: Coords) -> Entries {
    product_entries(
        product_entries(translation_entries(center), rotation),
        scale_entries(radius),
    )
}

/// A bit pattern denotes no number when its exponent is all ones and its
/// fraction is not zero.
pub open spec fn is_undefined(bits: u32) -> bool {
    bits % 0x8000_0000 > 0x7f80_0000
}

/// A bit pattern is moderate when it denotes a number of magnitude below
/// 2^64; in particular it is then finite.
pub open spec fn is_moderate(bits: u32) -> bool {
    bits % 0x8000_0000 < 0x5f80_0000
}

/// Both coordinates denote a number.
pub open spec fn coords_defined(c: Coords) -> bool {
    !is_undefined(c.x) && !is_undefined(c.y)
}

/// All four edges denote a number, so that all four corners do.
pub open spec fn edges_defined(e: Edges) -> bool {
    &&& !is_undefined(e.min_x)
    &&& !is_undefined(e.min_y)
    &&& !is_undefined(e.max_x)
    &&& !is_undefined(e.max_y)
}

/// All six entries are moderate.
pub open spec fn entries_moderate(m: Entries) -> bool {
    &&& is_moderate(m.m11)
    &&& is_moderate(m.m12)
    &&& is_moderate(m.m13)
    &&& is_moderate(m.m21)
    &&& is_moderate(m.m22)
    &&& is_moderate(m.m23)
}

pub open spec fn origin_of(e: Edges) -> Coords {
    Coords { x: e.min_x, y: e.min_y }
}

pub open spec fn upper_right_of(e: Edges) -> Coords {
    Coords { x: e.max_x, y: e.min_y }
}

pub open spec fn lower_right_of(e: Edges) -> Coords {
    Coords { x: e.max_x, y: e.max_y }
}

pub open spec fn lower_left_of(e: Edges) -> Coords {
    Coords { x: e.min_x, y: e.max_y }
}

/// Reads both coordinates with `Vector2F::x` and `Vector2F::y` and takes
/// their bit patterns. Trusted: the result is what `vector_coords` names.
#[verifier::external_body]
fn read_coords(v: Vector) -> (c: Coords)
    ensures
        c == vector_coords(v),
{
    Coords { x: v.x().to_bits(), y: v.y().to_bits() }
}

/// Reads the four edges with `RectF::min_x`, `min_y`, `max_x` and `max_y`
/// and takes their bit patterns. Trusted: the result is what `rect_edges`
/// names.
#[verifier::external_body]
fn read_edges(r: Rect) -> (e: Edges)
    ensures
        e == rect_edges(r),
{
    Edges {
        min_x: r.min_x().to_bits(),
        min_y: r.min_y().to_bits(),
        max_x: r.max_x().to_bits(),
        max_y: r.max_y().to_bits(),
    }
}

/// Reads the six entries with the accessors of `Transform2F` and takes their
/// bit patterns. Trusted: the result is what `transform_entries` names.
#[verifier::external_body]
fn read_entries(t: &Transform) -> (m: Entries)
    ensures
        m == transform_entries(*t),
{
    Entries {
        m11: t.m11().to_bits(),
        m12: t.m12().to_bits(),
        m13: t.m31().to_bits(),
        m21: t.m21().to_bits(),
        m22: t.m22().to_bits(),
        m23: t.m32().to_bits(),
    }
}

/// `RectF::origin`. Trusted: the corner takes its coordinates from the
/// rectangle's left and top edges, lane for lane.
#[verifier::external_body]
pub(crate) fn rect_origin(r: Rect) -> (p: Vector)
    ensures
        vector_coords(p) == origin_of(rect_edges(r)),
{
    r.origin()
}

/// `RectF::upper_right`. Trusted: the corner takes its coordinates from the
/// rectangle's right and top edges, lane for lane.
#[verifier::external_body]
pub(crate) fn rect_upper_right(r: Rect) -> (p: Vector)
    ensures
        vector_coords(p) == upper_right_of(rect_edges(r)),
{
    r.upper_right()
}

/// `RectF::lower_right`. Trusted: the corner takes its coordinates from the
/// rectangle's right and bottom edges, lane for lane.
#[verifier::external_body]
pub(crate) fn rect_lower_right(r: Rect) -> (p: Vector)
    ensures
        vector_coords(p) == lower_right_of(rect_edges(r)),
{
    r.lower_right()
}

/// `RectF::lower_left`. Trusted: the corner takes its coordinates from the
/// rectangle's left and bottom edges, lane for lane.
#[verifier::external_body]
pub(crate) fn rect_lower_left(r: Rect) -> (p: Vector)
    ensures
        vector_coords(p) == lower_left_of(rect_edges(r)),
{
    r.lower_left()
}

/// `Transform2F::from_translation`. Trusted: the map has the unit matrix
/// and `v` as its translation.
#[verifier::external_body]
pub(crate) fn translation(v: Vector) -> (t: Transform)
    ensures
        transform_entries(t) == translation_entries(vector_coords(v)),
{
    Transform::from_translation(v)
}

/// `Transform2F::from_scale`. Trusted: the map has the coordinates of `s`
/// on the diagonal of its matrix, and zero everywhere else.
#[verifier::external_body]
pub(crate) fn scale(s: Vector) -> (t: Transform)
    ensures
        transform_entries(t) == scale_entries(vector_coords(s)),
{
    Transform::from_scale(s)
}

/// The product `a * b` of `Transform2F`. Trusted: its entries depend on the
/// entries of the two factors alone.
#[verifier::external_body]
pub(crate) fn compose(a: Transform, b: Transform) -> (t: Transform)
    ensures
        transform_entries(t) == product_entries(transform_entries(a), transform_entries(b)),
{
    a * b
}

fn bits_undefined(bits: u32) -> (b: bool)
    ensures
        b == is_undefined(bits),
{
    bits % 0x8000_0000 > 0x7f80_0000
}

fn bits_moderate(bits: u32) -> (b: bool)
    ensures
        b == is_moderate(bits),
{
    bits % 0x8000_0000 < 0x5f80_0000
}

/// Whether both coordinates of `p` denote a number.
pub fn point_is_defined(p: Vector) -> (b: bool)
    ensures
        b == coords_defined(vector_coords(p)),
{
    let c = read_coords(p);
    !bits_undefined(c.x) && !bits_undefined(c.y)
}

/// Whether all four corners of `r` have coordinates that denote a number.
pub fn rect_is_defined(r: Rect) -> (b: bool)
    ensures
        b == edges_defined(rect_edges(r)),
{
    let e = read_edges(r);
    !bits_undefined(e.min_x) && !bits_undefined(e.min_y) && !bits_undefined(e.max_x)
        && !bits_undefined(e.max_y)
}

/// Whether all six entries of `t` are finite and of magnitude below 2^64.
pub fn transform_is_moderate(t: &Transform) -> (b: bool)
    ensures
        b == entries_moderate(transform_entries(*t)),
{
    let m = read_entries(t);
    bits_moderate(m.m11) && bits_moderate(m.m12) && bits_moderate(m.m13) && bits_moderate(m.m21)
        && bits_moderate(m.m22) && bits_moderate(m.m23)
}

} // verus!
