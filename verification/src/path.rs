//! The two capabilities that a backend's geometry offers: a contour, one
//! continuous sub-path, and an outline, an ordered collection of contours.
//!
//! A backend keeps its geometry in whatever form suits it. The contracts
//! below speak of what a contour holds through a model: the points that
//! were handed to it, in order, each with its role, and whether it was
//! closed.

use vstd::prelude::*;
use crate::geometry::{
    coords_defined, entries_moderate, rect_edges, transform_entries, vector_coords, Coords, Edges,
    Entries, Rect, Transform, Vector,
};

verus! {

/// The role of a point in a contour.
#[derive(Clone, Copy, Debug, PartialEq, Eq, Structural)]
pub enum PointKind {
    /// A point on the path: where a segment starts or ends.
    Endpoint,
    /// The control point of a quadratic curve, or the first one of a cubic.
    Control,
    /// The second control point of a cubic curve.
    SecondControl,
}

/// One point of a contour: where it lies and what it is there for.
pub struct PathPoint {
    pub at: Coords,
    pub kind: PointKind,
}

/// What a contour holds.
pub struct ContourModel {
    pub points: Seq<PathPoint>,
    pub closed: bool,
}

pub open spec fn endpoint(at: Coords) -> PathPoint {
    PathPoint { at, kind: PointKind::Endpoint }
}

pub open spec fn control(at: Coords) -> PathPoint {
    PathPoint { at, kind: PointKind::Control }
}

pub open spec fn second_control(at: Coords) -> PathPoint {
    PathPoint { at, kind: PointKind::SecondControl }
}

impl ContourModel {
    /// The contour that nothing was drawn into.
    pub open spec fn empty() -> ContourModel {
        ContourModel { points: Seq::empty(), closed: false }
    }

    pub open spec fn is_empty(self) -> bool {
        self.points.len() == 0
    }

    /// The contour with `more` appended; closing is not undone.
    pub open spec fn extend(self, more: Seq<PathPoint>) -> ContourModel {
        ContourModel { points: self.points + more, closed: self.closed }
    }

    /// A straight segment to `p`, or the start of the contour at `p`.
    pub open spec fn line_to(self, p: Coords) -> ContourModel {
        self.extend(seq![endpoint(p)])
    }

    /// A quadratic curve to `p` with control point `c`.
    pub open spec fn quadratic_curve_to(self, c: Coords, p: Coords) -> ContourModel {
        self.extend(seq![control(c), endpoint(p)])
    }

    /// A cubic curve to `p` with control points `c0` and `c1`.
    pub open spec fn cubic_curve_to(self, c0: Coords, c1: Coords, p: Coords) -> ContourModel {
        self.extend(seq![control(c0), second_control(c1), endpoint(p)])
    }

    /// The contour marked as closed: its last point is joined to its first.
    pub open spec fn close(self) -> ContourModel {
        ContourModel { points: self.points, closed: true }
    }

    /// Two contours have the same shape when they agree in everything but
    /// where their points lie.
    pub open spec fn same_shape(self, other: ContourModel) -> bool {
        &&& self.closed == other.closed
        &&& self.points.len() == other.points.len()
        &&& forall|i: int|
            0 <= i < self.points.len() ==> (#[trigger] self.points[i]).kind == other.points[i].kind
    }
}

/// The contours of `all` that hold at least one point, in their order.
pub open spec fn non_empty(all: Seq<ContourModel>) -> Seq<ContourModel> {
    all.filter(|c: ContourModel| !c.is_empty())
}

/// Two outlines have the same shape when they hold equally many contours
/// and these have the same shape one by one.
pub open spec fn same_shapes(a: Seq<ContourModel>, b: Seq<ContourModel>) -> bool {
    &&& a.len() == b.len()
    &&& forall|i: int| 0 <= i < a.len() ==> (#[trigger] a[i]).same_shape(b[i])
}

/// A single sub-path, open or closed.
///
/// `move_to`, `line_to` and the two curves append points; none of them
/// accepts a coordinate that denotes no number.
pub trait Contour: Clone + Sized {
    /// What the contour holds.
    spec fn model(&self) -> ContourModel;

    /// The points by which this kind of contour renders the unit circle
    /// under the placement `m`.
    spec fn arc_points(m: Entries) -> Seq<PathPoint>;

    fn new() -> (c: Self)
        ensures
            c.model() == ContourModel::empty(),
    ;

    /// Starts the contour at `p`.
    fn move_to(&mut self, p: Vector)
        requires
            coords_defined(vector_coords(p)),
        ensures
            final(self).model() == old(self).model().line_to(vector_coords(p)),
    ;

    fn line_to(&mut self, p: Vector)
        requires
            coords_defined(vector_coords(p)),
        ensures
            final(self).model() == old(self).model().line_to(vector_coords(p)),
    ;

    fn quadratic_curve_to(&mut self, c: Vector, p: Vector)
        requires
            coords_defined(vector_coords(c)),
            coords_defined(vector_coords(p)),
        ensures
            final(self).model() == old(self).model().quadratic_curve_to(
                vector_coords(c),
                vector_coords(p),
            ),
    ;

    fn cubic_curve_to(&mut self, c0: Vector, c1: Vector, p: Vector)
        requires
            coords_defined(vector_coords(c0)),
            coords_defined(vector_coords(c1)),
            coords_defined(vector_coords(p)),
        ensures
            final(self).model() == old(self).model().cubic_curve_to(
                vector_coords(c0),
                vector_coords(c1),
                vector_coords(p),
            ),
    ;

    /// Appends a full revolution: the image of the unit circle under
    /// `transform`. It holds at least one point.
    fn arc(&mut self, transform: Transform)
        requires
            entries_moderate(transform_entries(transform)),
        ensures
            final(self).model() == old(self).model().extend(
                Self::arc_points(transform_entries(transform)),
            ),
            Self::arc_points(transform_entries(transform)).len() > 0,
    ;

    /// Closes the contour. Closing a closed contour changes nothing.
    fn close(&mut self)
        ensures
            final(self).model() == old(self).model().close(),
    ;

    fn is_empty(&self) -> (b: bool)
        ensures
            b == self.model().is_empty(),
    ;

    /// Forgets the points and the closing; the storage may be kept.
    fn clear(&mut self)
        ensures
            final(self).model() == ContourModel::empty(),
    ;

    /// A clone holds what it was cloned from.
    proof fn clone_keeps_model(a: Self, b: Self)
        requires
            cloned::<Self>(a, b),
        ensures
            b.model() == a.model(),
    ;
}

/// An ordered collection of contours.
pub trait Outline: Clone + Sized {
    type Contour: Contour;

    /// The contours of the outline, in the order in which they were added.
    spec fn model(&self) -> Seq<ContourModel>;

    /// The edges of the outline's bounding box, where it has contours.
    spec fn extent(&self) -> Edges;

    /// Where this kind of outline puts the points of `contours` under the
    /// affine map `m`.
    spec fn transformed(contours: Seq<ContourModel>, m: Entries) -> Seq<ContourModel>;

    fn empty() -> (o: Self)
        ensures
            o.model() == Seq::<ContourModel>::empty(),
    ;

    /// Adds `contour` behind the others, unless it holds no point.
    fn add_contour(&mut self, contour: Self::Contour)
        ensures
            final(self).model() == if contour.model().is_empty() {
                old(self).model()
            } else {
                old(self).model().push(contour.model())
            },
    ;

    /// Adds the contours of `outline` behind the others, in their order.
    fn add_outline(&mut self, outline: Self)
        ensures
            final(self).model() == old(self).model() + non_empty(outline.model()),
    ;

    /// The bounding box, or nothing for an outline without contours.
    fn bounding_box(&self) -> (b: Option<Rect>)
        ensures
            b is Some <==> self.model().len() > 0,
            b matches Some(r) ==> rect_edges(r) == self.extent(),
    ;

    /// Applies an affine map. The outline keeps its contours, their order,
    /// the number and roles of their points and their closing.
    fn transform(self, transform: Transform) -> (o: Self)
        ensures
            o.model() == Self::transformed(self.model(), transform_entries(transform)),
            same_shapes(o.model(), self.model()),
    ;

    fn clear(&mut self)
        ensures
            final(self).model() == Seq::<ContourModel>::empty(),
    ;

    /// A clone holds what it was cloned from.
    proof fn clone_keeps_contours(a: Self, b: Self)
        requires
            cloned::<Self>(a, b),
        ensures
            b.model() == a.model(),
    ;
}

} // verus!
