//! The path builder: a state machine that turns a sequence of drawing
//! commands into the contours of one outline.
//!
//! The builder keeps one contour as a buffer. A `move_to` only notes where
//! the next sub-path starts; the first drawing command after it hands the
//! buffer's contents to the outline, empties the buffer in place and starts
//! the new contour. So a start point that nothing is drawn from leaves no
//! contour behind, and the buffer's storage serves every sub-path.

use vstd::prelude::*;
use crate::geometry::{
    compose, coords_defined, edges_defined, entries_moderate, lower_left_of, lower_right_of,
    origin_of, placement_entries, point_is_defined, rect_edges, rect_lower_left, rect_lower_right,
    rect_origin, rect_upper_right, scale, transform_entries, transform_is_moderate, translation,
    upper_right_of, vector_coords, Coords, Edges, Rect, Transform, Vector,
};
use crate::path::{Contour, ContourModel, Outline, PathPoint};

verus! {

#[derive(Clone, Copy)]
enum PathState {
    /// Nothing has been drawn and no start point is set.
    Empty,
    /// A start point is set; no contour has been started at it.
    Start(Vector),
    /// The last point of the contour that is being drawn.
    End(Vector),
}

/// Where the builder stands.
pub enum Phase {
    /// No start point is set: only `move_to` and the closed shapes are valid.
    Empty,
    /// A start point is set and waits for the first drawing command.
    Start(Coords),
    /// The end of the last segment of the contour that is being drawn.
    End(Coords),
}

/// What a builder holds.
pub struct BuilderModel {
    /// The contours that were handed to the outline.
    pub outline: Seq<ContourModel>,
    /// The contour in the buffer.
    pub contour: ContourModel,
    pub phase: Phase,
}

impl BuilderModel {
    pub open spec fn new() -> BuilderModel {
        BuilderModel { outline: Seq::empty(), contour: ContourModel::empty(), phase: Phase::Empty }
    }

    /// A drawing command is valid when a start point is set and, where no
    /// contour was started at it yet, its coordinates denote numbers.
    pub open spec fn can_draw(self) -> bool {
        match self.phase {
            Phase::Empty => false,
            Phase::Start(p) => coords_defined(p),
            Phase::End(_) => true,
        }
    }

    /// The last known point.
    pub open spec fn pos(self) -> Option<Coords> {
        match self.phase {
            Phase::Empty => None,
            Phase::Start(p) => Some(p),
            Phase::End(p) => Some(p),
        }
    }

    pub open spec fn move_to(self, p: Coords) -> BuilderModel {
        BuilderModel { phase: Phase::Start(p), ..self }
    }

    /// What a drawing command does before it draws. A waiting start point
    /// becomes the first point of a contour; what the buffer held before
    /// goes to the outline. An end point continues the contour.
    pub open spec fn materialize(self) -> BuilderModel {
        match self.phase {
            Phase::Start(p) => if self.contour.is_empty() {
                BuilderModel { contour: self.contour.line_to(p), ..self }
            } else {
                BuilderModel {
                    outline: self.outline.push(self.contour),
                    contour: ContourModel::empty().line_to(p),
                    ..self
                }
            },
            _ => self,
        }
    }

    pub open spec fn line_to(self, p: Coords) -> BuilderModel {
        let m = self.materialize();
        BuilderModel { contour: m.contour.line_to(p), phase: Phase::End(p), ..m }
    }

    pub open spec fn quadratic_curve_to(self, c: Coords, p: Coords) -> BuilderModel {
        let m = self.materialize();
        BuilderModel { contour: m.contour.quadratic_curve_to(c, p), phase: Phase::End(p), ..m }
    }

    pub open spec fn cubic_curve_to(self, c0: Coords, c1: Coords, p: Coords) -> BuilderModel {
        let m = self.materialize();
        BuilderModel { contour: m.contour.cubic_curve_to(c0, c1, p), phase: Phase::End(p), ..m }
    }

    pub open spec fn close(self) -> BuilderModel {
        BuilderModel { contour: self.contour.close(), ..self }
    }

    /// A rectangle: from the origin along the top, the right and the bottom
    /// edge, then closed.
    pub open spec fn rect(self, e: Edges) -> BuilderModel {
        self.move_to(origin_of(e)).line_to(upper_right_of(e)).line_to(lower_right_of(e)).line_to(
            lower_left_of(e),
        ).close()
    }

    /// A closed arc of the points `arc`, drawn into the buffer as it is.
    pub open spec fn arc(self, arc: Seq<PathPoint>) -> BuilderModel {
        BuilderModel { contour: self.contour.extend(arc).close(), ..self }
    }

    /// The outline with what the buffer holds.
    pub open spec fn into_outline(self) -> Seq<ContourModel> {
        if self.contour.is_empty() {
            self.outline
        } else {
            self.outline.push(self.contour)
        }
    }

    /// The builder after its outline was taken: nothing is left of what was
    /// drawn, and the last point is where the next contour starts.
    pub open spec fn taken(self) -> BuilderModel {
        BuilderModel {
            outline: Seq::empty(),
            contour: if self.contour.is_empty() {
                self.contour
            } else {
                ContourModel::empty()
            },
            phase: match self.phase {
                Phase::End(p) => Phase::Start(p),
                s => s,
            },
        }
    }
}

/// Builds an outline from drawing commands.
#[derive(Clone, Copy)]
pub struct PathBuilder<O: Outline> {
    outline: O,
    contour: O::Contour,
    state: PathState,
}

impl<O: Outline> View for PathBuilder<O> {
    type V = BuilderModel;

    closed spec fn view(&self) -> BuilderModel {
        BuilderModel {
            outline: self.outline.model(),
            contour: self.contour.model(),
            phase: match self.state {
                PathState::Empty => Phase::Empty,
                PathState::Start(p) => Phase::Start(vector_coords(p)),
                PathState::End(p) => Phase::End(vector_coords(p)),
            },
        }
    }
}

impl<O: Outline> PathBuilder<O> {
    pub fn new() -> (b: Self)
        ensures
            b@ == BuilderModel::new(),
    {
        PathBuilder { outline: O::empty(), contour: O::Contour::new(), state: PathState::Empty }
    }

    fn start(&mut self)
        requires
            old(self)@.can_draw(),
        ensures
            final(self)@ == old(self)@.materialize(),
    {
        match self.state {
            PathState::Empty => {},
            PathState::Start(p) => {
                // The buffer is copied out and emptied in place, so that one
                // allocation serves every contour.
                if !self.contour.is_empty() {
                    let contour = self.contour.clone();
                    proof {
                        O::Contour::clone_keeps_model(self.contour, contour);
                    }
                    self.outline.add_contour(contour);
                    self.contour.clear();
                }
                self.contour.move_to(p);
            },
            PathState::End(_) => {},
        }
    }

    /// Whether a drawing command is valid now.
    pub fn can_draw(&self) -> (b: bool)
        ensures
            b == self@.can_draw(),
    {
        match self.state {
            PathState::Empty => false,
            PathState::Start(p) => point_is_defined(p),
            PathState::End(_) => true,
        }
    }

    /// Sets the point at which the next contour starts. Nothing is drawn.
    pub fn move_to(&mut self, p: Vector)
        ensures
            final(self)@ == old(self)@.move_to(vector_coords(p)),
    {
        self.state = PathState::Start(p);
    }

    /// Draws a straight segment to `p`.
    pub fn line_to(&mut self, p: Vector)
        requires
            old(self)@.can_draw(),
            coords_defined(vector_coords(p)),
        ensures
            final(self)@ == old(self)@.line_to(vector_coords(p)),
    {
        self.start();
        self.contour.line_to(p);
        self.state = PathState::End(p);
    }

    /// Draws a quadratic curve to `p` with the control point `c`.
    pub fn quadratic_curve_to(&mut self, c: Vector, p: Vector)
        requires
            old(self)@.can_draw(),
            coords_defined(vector_coords(c)),
            coords_defined(vector_coords(p)),
        ensures
            final(self)@ == old(self)@.quadratic_curve_to(vector_coords(c), vector_coords(p)),
    {
        self.start();
        self.contour.quadratic_curve_to(c, p);
        self.state = PathState::End(p);
    }

    /// Draws a cubic curve to `p` with the control points `c1` and `c2`.
    pub fn cubic_curve_to(&mut self, c1: Vector, c2: Vector, p: Vector)
        requires
            old(self)@.can_draw(),
            coords_defined(vector_coords(c1)),
            coords_defined(vector_coords(c2)),
            coords_defined(vector_coords(p)),
        ensures
            final(self)@ == old(self)@.cubic_curve_to(
                vector_coords(c1),
                vector_coords(c2),
                vector_coords(p),
            ),
    {
        self.start();
        self.contour.cubic_curve_to(c1, c2, p);
        self.state = PathState::End(p);
    }

    /// Draws a closed rectangle as a contour of its own, and leaves the
    /// builder at the rectangle's lower left corner.
    pub fn rect(&mut self, rect: Rect)
        requires
            edges_defined(rect_edges(rect)),
        ensures
            final(self)@ == old(self)@.rect(rect_edges(rect)),
    {
        self.move_to(rect_origin(rect));
        self.line_to(rect_upper_right(rect));
        self.line_to(rect_lower_right(rect));
        let last = rect_lower_left(rect);
        self.line_to(last);
        self.close();
        self.state = PathState::End(last);
    }

    fn draw_arc(&mut self, transform: Transform)
        requires
            entries_moderate(transform_entries(transform)),
        ensures
            final(self)@ == old(self)@.arc(
                <O::Contour as Contour>::arc_points(transform_entries(transform)),
            ),
    {
        self.contour.arc(transform);
        self.contour.close();
    }

    /// Draws an ellipse around `center` with the radii `radius`, turned by
    /// `rotation`, into the buffer and closes it. The start point and the
    /// last point stay as they are: an ellipse stands for itself.
    ///
    /// The ellipse has to lie within the range of coordinates: see
    /// `try_ellipse`.
    pub fn ellipse(&mut self, center: Vector, radius: Vector, rotation: Transform)
        requires
            entries_moderate(
                placement_entries(
                    vector_coords(center),
                    transform_entries(rotation),
                    vector_coords(radius),
                ),
            ),
        ensures
            final(self)@ == old(self)@.arc(
                <O::Contour as Contour>::arc_points(
                    placement_entries(
                        vector_coords(center),
                        transform_entries(rotation),
                        vector_coords(radius),
                    ),
                ),
            ),
    {
        let transform = compose(compose(translation(center), rotation), scale(radius));
        self.draw_arc(transform);
    }

    /// Draws an ellipse as `ellipse` does, if its placement has only finite
    /// entries of a magnitude below 2^64, and tells whether it did. If not,
    /// the builder stays as it is.
    pub fn try_ellipse(&mut self, center: Vector, radius: Vector, rotation: Transform) -> (drawn:
        bool)
        ensures
            drawn == entries_moderate(
                placement_entries(
                    vector_coords(center),
                    transform_entries(rotation),
                    vector_coords(radius),
                ),
            ),
            drawn ==> final(self)@ == old(self)@.arc(
                <O::Contour as Contour>::arc_points(
                    placement_entries(
                        vector_coords(center),
                        transform_entries(rotation),
                        vector_coords(radius),
                    ),
                ),
            ),
            !drawn ==> final(self)@ == old(self)@,
    {
        let transform = compose(compose(translation(center), rotation), scale(radius));
        if transform_is_moderate(&transform) {
            self.draw_arc(transform);
            true
        } else {
            false
        }
    }

    /// Closes the contour that is being drawn. The next drawing command
    /// still continues it.
    pub fn close(&mut self)
        ensures
            final(self)@ == old(self)@.close(),
    {
        self.contour.close();
    }

    /// Ends the building and hands out all that was drawn.
    pub fn into_outline(self) -> (outline: O)
        ensures
            outline.model() == self@.into_outline(),
    {
        let mut this = self;
        if !this.contour.is_empty() {
            this.outline.add_contour(this.contour);
        }
        this.outline
    }

    /// Hands out all that was drawn so far and goes on with an empty
    /// outline. The last point is kept as the start of the next contour.
    pub fn take(&mut self) -> (outline: O)
        ensures
            outline.model() == old(self)@.into_outline(),
            final(self)@ == old(self)@.taken(),
    {
        if !self.contour.is_empty() {
            let contour = self.contour.clone();
            proof {
                O::Contour::clone_keeps_model(self.contour, contour);
            }
            self.outline.add_contour(contour);
            self.contour.clear();
        }
        let outline = self.outline.clone();
        proof {
            O::clone_keeps_contours(self.outline, outline);
        }
        self.outline.clear();

        self.state = match self.state {
            PathState::End(p) => PathState::Start(p),
            s => s,
        };

        outline
    }

    /// Forgets everything: what was drawn and where the builder stood.
    pub fn clear(&mut self)
        ensures
            final(self)@ == BuilderModel::new(),
    {
        self.contour.clear();
        self.outline.clear();
        self.state = PathState::Empty;
    }

    /// The last known point: the end of the last segment, or the start
    /// point that was set after it.
    pub fn pos(&self) -> (p: Option<Vector>)
        ensures
            p is Some <==> self@.pos() is Some,
            p matches Some(v) ==> self@.pos() == Some(vector_coords(v)),
    {
        match self.state {
            PathState::Empty => None,
            PathState::Start(p) => Some(p),
            PathState::End(p) => Some(p),
        }
    }
}

} // verus!
