//! The geometry of `pathfinder_content` as contour and outline, and its
//! images as textures.
//!
//! The crate's `Contour` keeps a list of points, a flag for each that tells
//! an endpoint from a control point, and whether it is closed; its
//! `Outline` keeps a list of contours. Verus does not see inside either.
//! What they hold is named here, and every call into the crate is one small
//! function whose contract says, in these names, what the crate's source
//! does. These contracts are believed, not proved.

use vstd::prelude::*;
use vstd::seq_lib::*;
use crate::geometry::{
    coords_defined, entries_moderate, rect_edges, transform_entries, vector_coords, Edges, Entries,
    Rect, Transform, Vector,
};
use crate::path::{non_empty, same_shapes, Contour, ContourModel, Outline, PathPoint};
use crate::style::Rgba8;
use crate::surface::{decode_pixels, pixels_of, texture_fits, PixelFormat};
use pathfinder_color::ColorU;
use pathfinder_content::outline::{Contour as PfContour, Outline as PfOutline};
use pathfinder_content::pattern::Image as PfImage;
use pathfinder_geometry::vector::Vector2I;
use std::sync::Arc;

verus! {

#[verifier::external_type_specification]
#[verifier::external_body]
pub struct ExContour(PfContour);

#[verifier::external_type_specification]
#[verifier::external_body]
pub struct ExOutline(PfOutline);

/// The points of a contour in their order, each with the role that its
/// flag gives it.
pub uninterp spec fn contour_points(c: PfContour) -> Seq<PathPoint>;

/// Whether a contour is marked as closed.
pub uninterp spec fn contour_closed(c: PfContour) -> bool;

/// The contours of an outline in their order.
pub uninterp spec fn outline_contours(o: PfOutline) -> Seq<ContourModel>;

/// The edges of the rectangle that an outline keeps as its bounds.
pub uninterp spec fn outline_bounds(o: PfOutline) -> Edges;

/// The points that `Contour::push_ellipse` appends for the placement `m`:
/// four cubic curves, the images of the quarters of the unit circle.
pub uninterp spec fn ellipse_points(m: Entries) -> Seq<PathPoint>;

/// The contours that `Outline::transform` makes of `contours` under the
/// affine map `m`.
pub uninterp spec fn transformed_contours(contours: Seq<ContourModel>, m: Entries) -> Seq<
    ContourModel,
>;

pub open spec fn contour_model(c: PfContour) -> ContourModel {
    ContourModel { points: contour_points(c), closed: contour_closed(c) }
}

/// The derived `Clone` of the crate's contour. Trusted: it copies the
/// points, the flags and the closing.
pub assume_specification[ <PfContour as Clone>::clone ](
    c: &PfContour,
) -> (r: PfContour)
    ensures
        contour_points(r) == contour_points(*c),
        contour_closed(r) == contour_closed(*c),
;

/// The derived `Clone` of the crate's outline. Trusted: it copies the
/// contours and the bounds.
pub assume_specification[ <PfOutline as Clone>::clone ](
    o: &PfOutline,
) -> (r: PfOutline)
    ensures
        outline_contours(r) == outline_contours(*o),
        outline_bounds(r) == outline_bounds(*o),
;

/// `Contour::new`. Trusted: the new contour has no points and is open.
#[verifier::external_body]
fn contour_new() -> (c: PfContour)
    ensures
        contour_model(c) == ContourModel::empty(),
{
    PfContour::new()
}

/// `Contour::push_endpoint`. Trusted: it appends `p` as an endpoint and
/// leaves the closing as it is. The crate asserts in debug builds that no
/// coordinate of a pushed point is undefined.
#[verifier::external_body]
fn contour_push_endpoint(c: &mut PfContour, p: Vector)
    requires
        coords_defined(vector_coords(p)),
    ensures
        contour_model(*final(c)) == contour_model(*old(c)).line_to(vector_coords(p)),
{
    c.push_endpoint(p)
}

/// `Contour::push_quadratic`. Trusted: it appends `ctrl` as a control
/// point, then `p` as an endpoint, under the same assertion.
#[verifier::external_body]
fn contour_push_quadratic(c: &mut PfContour, ctrl: Vector, p: Vector)
    requires
        coords_defined(vector_coords(ctrl)),
        coords_defined(vector_coords(p)),
    ensures
        contour_model(*final(c)) == contour_model(*old(c)).quadratic_curve_to(
            vector_coords(ctrl),
            vector_coords(p),
        ),
{
    c.push_quadratic(ctrl, p)
}

/// `Contour::push_cubic`. Trusted: it appends `ctrl0` as first and `ctrl1`
/// as second control point, then `p` as an endpoint, under the same
/// assertion.
#[verifier::external_body]
fn contour_push_cubic(c: &mut PfContour, ctrl0: Vector, ctrl1: Vector, p: Vector)
    requires
        coords_defined(vector_coords(ctrl0)),
        coords_defined(vector_coords(ctrl1)),
        coords_defined(vector_coords(p)),
    ensures
        contour_model(*final(c)) == contour_model(*old(c)).cubic_curve_to(
            vector_coords(ctrl0),
            vector_coords(ctrl1),
            vector_coords(p),
        ),
{
    c.push_cubic(ctrl0, ctrl1, p)
}

/// `Contour::push_ellipse`. Trusted: it appends sixteen points, four for
/// each quarter, that depend on the placement alone, and leaves the closing
/// as it is. Each of them is
/// the image of a constant with coordinates between -2 and 2: with entries
/// below 2^64 in magnitude every product and every sum stays finite, so no
/// pushed coordinate is undefined and the crate's assertion holds.
#[verifier::external_body]
fn contour_push_ellipse(c: &mut PfContour, transform: &Transform)
    requires
        entries_moderate(transform_entries(*transform)),
    ensures
        contour_model(*final(c)) == contour_model(*old(c)).extend(
            ellipse_points(transform_entries(*transform)),
        ),
        contour_points(*final(c)).len() == contour_points(*old(c)).len() + 16,
{
    c.push_ellipse(transform)
}

/// `Contour::close`. Trusted: it marks the contour as closed and leaves the
/// points as they are.
#[verifier::external_body]
fn contour_close(c: &mut PfContour)
    ensures
        contour_model(*final(c)) == contour_model(*old(c)).close(),
{
    PfContour::close(c)
}

/// `Contour::is_empty`. Trusted: it tells whether the contour has no point.
#[verifier::external_body]
fn contour_is_empty(c: &PfContour) -> (b: bool)
    ensures
        b == (contour_points(*c).len() == 0),
{
    PfContour::is_empty(c)
}

/// `Contour::clear`. Trusted: it removes the points and opens the contour.
#[verifier::external_body]
fn contour_clear(c: &mut PfContour)
    ensures
        contour_model(*final(c)) == ContourModel::empty(),
{
    PfContour::clear(c)
}

impl Contour for PfContour {
    open spec fn model(&self) -> ContourModel {
        contour_model(*self)
    }

    open spec fn arc_points(m: Entries) -> Seq<PathPoint> {
        ellipse_points(m)
    }

    fn new() -> (c: Self) {
        contour_new()
    }

    fn move_to(&mut self, p: Vector) {
        contour_push_endpoint(self, p)
    }

    fn line_to(&mut self, p: Vector) {
        contour_push_endpoint(self, p)
    }

    fn quadratic_curve_to(&mut self, c: Vector, p: Vector) {
        contour_push_quadratic(self, c, p)
    }

    fn cubic_curve_to(&mut self, c0: Vector, c1: Vector, p: Vector) {
        contour_push_cubic(self, c0, c1, p)
    }

    fn arc(&mut self, transform: Transform) {
        contour_push_ellipse(self, &transform)
    }

    fn close(&mut self) {
        contour_close(self)
    }

    fn is_empty(&self) -> (b: bool) {
        contour_is_empty(self)
    }

    fn clear(&mut self) {
        contour_clear(self)
    }

    proof fn clone_keeps_model(a: Self, b: Self) {
    }
}

/// `Outline::new`. Trusted: the new outline has no contours.
#[verifier::external_body]
fn outline_new() -> (o: PfOutline)
    ensures
        outline_contours(o) == Seq::<ContourModel>::empty(),
{
    PfOutline::new()
}

/// `Outline::push_contour`. Trusted: it appends the contour, unless the
/// contour has no points; then it does nothing.
#[verifier::external_body]
fn outline_push_contour(o: &mut PfOutline, contour: PfContour)
    ensures
        outline_contours(*final(o)) == if contour_points(contour).len() == 0 {
            outline_contours(*old(o))
        } else {
            outline_contours(*old(o)).push(contour_model(contour))
        },
{
    o.push_contour(contour)
}

/// The length of the slice that `Outline::contours` gives. Trusted: it is
/// the number of contours.
#[verifier::external_body]
fn outline_len(o: &PfOutline) -> (n: usize)
    ensures
        n == outline_contours(*o).len(),
{
    o.contours().len()
}

/// A clone of one element of the slice that `Outline::contours` gives.
/// Trusted: it holds what the contour at that place holds.
#[verifier::external_body]
fn outline_contour(o: &PfOutline, i: usize) -> (c: PfContour)
    requires
        i < outline_contours(*o).len(),
    ensures
        contour_model(c) == outline_contours(*o)[i as int],
{
    o.contours()[i].clone()
}

/// `Outline::bounds`. Trusted: it gives the rectangle that the outline
/// keeps as its bounds.
#[verifier::external_body]
fn outline_bounding_rect(o: &PfOutline) -> (r: Rect)
    ensures
        rect_edges(r) == outline_bounds(*o),
{
    o.bounds()
}

/// `Outline::transform`. Trusted: it maps the points of every contour in
/// place, so that the contours keep their number and order, their closing
/// and the number and roles of their points; where the points go depends on
/// the points and the map alone.
#[verifier::external_body]
fn outline_transform(o: PfOutline, transform: &Transform) -> (r: PfOutline)
    ensures
        outline_contours(r) == transformed_contours(
            outline_contours(o),
            transform_entries(*transform),
        ),
        same_shapes(outline_contours(r), outline_contours(o)),
{
    let mut outline = o;
    PfOutline::transform(&mut outline, transform);
    outline
}

/// `Outline::clear`. Trusted: it removes all contours.
#[verifier::external_body]
fn outline_clear(o: &mut PfOutline)
    ensures
        outline_contours(*final(o)) == Seq::<ContourModel>::empty(),
{
    PfOutline::clear(o)
}

impl Outline for PfOutline {
    type Contour = PfContour;

    open spec fn model(&self) -> Seq<ContourModel> {
        outline_contours(*self)
    }

    open spec fn extent(&self) -> Edges {
        outline_bounds(*self)
    }

    open spec fn transformed(contours: Seq<ContourModel>, m: Entries) -> Seq<ContourModel> {
        transformed_contours(contours, m)
    }

    fn empty() -> (o: Self) {
        outline_new()
    }

    fn add_contour(&mut self, contour: PfContour) {
        outline_push_contour(self, contour)
    }

    fn add_outline(&mut self, outline: Self) {
        let n = outline_len(&outline);
        let mut i: usize = 0;
        while i < n
            invariant
                i <= n,
                n == outline_contours(outline).len(),
                outline_contours(*self) == outline_contours(*old(self)) + non_empty(
                    outline_contours(outline).take(i as int),
                ),
            decreases n - i,
        {
            let contour = outline_contour(&outline, i);
            proof {
                let all = outline_contours(outline);
                reveal(Seq::filter);
                assert(all.take(i + 1).drop_last() == all.take(i as int));
                assert(all.take(i + 1).last() == all[i as int]);
            }
            outline_push_contour(self, contour);
            i += 1;
        }
        proof {
            let all = outline_contours(outline);
            assert(all.take(n as int) == all);
        }
    }

    fn bounding_box(&self) -> (b: Option<Rect>) {
        if outline_len(self) > 0 {
            Some(outline_bounding_rect(self))
        } else {
            None
        }
    }

    fn transform(self, transform: Transform) -> (o: Self) {
        outline_transform(self, &transform)
    }

    fn clear(&mut self) {
        outline_clear(self)
    }

    proof fn clone_keeps_contours(a: Self, b: Self) {
    }
}

#[verifier::external_type_specification]
#[verifier::external_body]
pub struct ExImage(PfImage);

/// The pixels of an image, row by row.
pub uninterp spec fn image_pixels(image: PfImage) -> Seq<Rgba8>;

/// The width and the height of an image.
pub uninterp spec fn image_size(image: PfImage) -> (int, int);

/// `Image::new` on a size made by `Vector2I::new` and on the pixels as
/// `ColorU` values. Trusted: the image has that size and these pixels. The
/// crate asserts that the pixels are as many as the size says; a side over
/// `i32::MAX` would not pass that.
#[verifier::external_body]
fn image_new(width: u32, height: u32, pixels: Vec<Rgba8>) -> (image: PfImage)
    requires
        width <= i32::MAX,
        height <= i32::MAX,
        pixels@.len() == width * height,
    ensures
        image_pixels(image) == pixels@,
        image_size(image) == (width as int, height as int),
{
    let colors: Vec<ColorU> = pixels.into_iter().map(|(r, g, b, a)| ColorU { r, g, b, a }).collect();
    PfImage::new(Vector2I::new(width as i32, height as i32), Arc::new(colors))
}

/// Whether a texture of the given size can be an image: no side is over
/// `i32::MAX`.
pub fn image_size_is_valid(width: u32, height: u32) -> (b: bool)
    ensures
        b == (width <= i32::MAX && height <= i32::MAX),
{
    width <= 0x7fff_ffff && height <= 0x7fff_ffff
}

/// Makes an image of `width` by `height` pixels from the bytes in `data`,
/// which are exactly its pixels in the given format.
pub fn texture(width: u32, height: u32, data: &[u8], format: PixelFormat) -> (image: PfImage)
    requires
        texture_fits(width, height, data@.len(), format),
        width <= i32::MAX,
        height <= i32::MAX,
    ensures
        image_pixels(image) == pixels_of(data@, format),
        image_size(image) == (width as int, height as int),
{
    proof {
        let step = format.spec_bytes_per_pixel() as int;
        let area = width as int * height as int;
        assert((area * step) % step == 0 && (area * step) / step == area) by (nonlinear_arith)
            requires
                step > 0,
        ;
    }
    let pixels = decode_pixels(data, format);
    image_new(width, height, pixels)
}

} // verus!
