//! What holds of every builder, whatever was drawn with it.
//!
//! The laws are stated over `BuilderModel`, the value that the contract of
//! each method of `PathBuilder` relates the builder to.

use vstd::prelude::*;
use crate::builder::{BuilderModel, Phase};
use crate::geometry::{
    lower_left_of, lower_right_of, origin_of, upper_right_of, Coords, Edges,
};
use crate::path::{endpoint, ContourModel, PathPoint};

verus! {

/// What can be done to a builder.
pub enum Command {
    MoveTo(Coords),
    LineTo(Coords),
    QuadraticCurveTo(Coords, Coords),
    CubicCurveTo(Coords, Coords, Coords),
    Close,
    Rect(Edges),
    /// An ellipse, given by the points that the backend renders it with.
    Ellipse(Seq<PathPoint>),
    /// Taking the outline.
    Take,
    Clear,
}

impl Command {
    /// The commands that draw a segment from the last point.
    pub open spec fn draws_segment(self) -> bool {
        self is LineTo || self is QuadraticCurveTo || self is CubicCurveTo
    }

    /// The commands that leave what was drawn before in the builder.
    pub open spec fn keeps_drawing(self) -> bool {
        !(self is Take || self is Clear)
    }
}

impl BuilderModel {
    pub open spec fn apply(self, command: Command) -> BuilderModel {
        match command {
            Command::MoveTo(p) => self.move_to(p),
            Command::LineTo(p) => self.line_to(p),
            Command::QuadraticCurveTo(c, p) => self.quadratic_curve_to(c, p),
            Command::CubicCurveTo(c0, c1, p) => self.cubic_curve_to(c0, c1, p),
            Command::Close => self.close(),
            Command::Rect(e) => self.rect(e),
            Command::Ellipse(arc) => self.arc(arc),
            Command::Take => self.taken(),
            Command::Clear => BuilderModel::new(),
        }
    }

    /// The builder after `commands`, one after the other.
    pub open spec fn run(self, commands: Seq<Command>) -> BuilderModel
        decreases commands.len(),
    {
        if commands.len() == 0 {
            self
        } else {
            self.run(commands.drop_last()).apply(commands.last())
        }
    }

    /// No contour without points was handed to the outline, and where the
    /// builder stands at the end of a segment, the buffer holds points.
    pub open spec fn is_sound(self) -> bool {
        &&& forall|i: int| 0 <= i < self.outline.len() ==> !(#[trigger] self.outline[i]).is_empty()
        &&& self.phase is End ==> !self.contour.is_empty()
    }

    /// The first contour that an outline made now would hold starts at `p`.
    pub open spec fn begins_at(self, p: Coords) -> bool {
        if self.outline.len() > 0 {
            self.outline[0].points.len() > 0 && self.outline[0].points[0] == endpoint(p)
        } else {
            self.contour.points.len() > 0 && self.contour.points[0] == endpoint(p)
        }
    }
}

/// The closed contour through the four corners of a rectangle, from the
/// origin along the top, the right and the bottom edge.
pub open spec fn rect_contour(e: Edges) -> ContourModel {
    ContourModel {
        points: seq![
            endpoint(origin_of(e)),
            endpoint(upper_right_of(e)),
            endpoint(lower_right_of(e)),
            endpoint(lower_left_of(e)),
        ],
        closed: true,
    }
}

/// A start point that nothing is drawn from leaves no trace in the outline.
pub proof fn law_move_to_draws_nothing(m: BuilderModel, p: Coords)
    ensures
        m.move_to(p).into_outline() == m.into_outline(),
{
}

/// However many start points are set on a new builder, with nothing drawn
/// in between, the outline has no contour.
pub proof fn law_moves_leave_no_contour(commands: Seq<Command>)
    requires
        forall|i: int| 0 <= i < commands.len() ==> commands[i] is MoveTo,
    ensures
        BuilderModel::new().run(commands).into_outline() == Seq::<ContourModel>::empty(),
{
    lemma_moves_keep_geometry(BuilderModel::new(), commands);
}

proof fn lemma_moves_keep_geometry(m: BuilderModel, commands: Seq<Command>)
    requires
        forall|i: int| 0 <= i < commands.len() ==> commands[i] is MoveTo,
    ensures
        m.run(commands).outline == m.outline,
        m.run(commands).contour == m.contour,
    decreases commands.len(),
{
    if commands.len() > 0 {
        lemma_moves_keep_geometry(m, commands.drop_last());
    }
}

/// Three points joined and closed, drawn with a new builder, make one
/// closed contour of exactly these points.
pub proof fn law_closed_path_is_one_contour(a: Coords, b: Coords, c: Coords)
    ensures
        BuilderModel::new().move_to(a).line_to(b).line_to(c).close().into_outline() == seq![
            ContourModel { points: seq![endpoint(a), endpoint(b), endpoint(c)], closed: true },
        ],
{
    let m = BuilderModel::new().move_to(a).line_to(b).line_to(c).close();
    assert(m.contour.points =~= seq![endpoint(a), endpoint(b), endpoint(c)]);
    assert(m.into_outline() =~= seq![m.contour]);
}

/// A rectangle adds one closed contour through its four corners, in the
/// order origin, upper right, lower right, lower left, behind all that was
/// drawn before.
pub proof fn law_rect_is_one_contour(m: BuilderModel, e: Edges)
    ensures
        m.rect(e).into_outline() == m.into_outline().push(rect_contour(e)),
        m.rect(e).phase == Phase::End(lower_left_of(e)),
{
    let r = m.rect(e);
    assert(r.contour.points =~= rect_contour(e).points);
    assert(r.outline =~= m.into_outline());
}

/// Closing twice is closing once.
pub proof fn law_close_is_idempotent(m: BuilderModel)
    ensures
        m.close().close() == m.close(),
{
}

/// Whatever a builder held, after `clear` it knows no point and hands out an
/// outline without contours, as a new builder does.
pub proof fn law_clear_forgets_everything(m: BuilderModel)
    ensures
        m.apply(Command::Clear) == BuilderModel::new(),
        m.apply(Command::Clear).pos() is None,
        m.apply(Command::Clear).into_outline() == Seq::<ContourModel>::empty(),
{
}

/// Taking the outline leaves nothing drawn behind and keeps the last point.
pub proof fn law_take_keeps_position(m: BuilderModel)
    ensures
        m.taken().into_outline() == Seq::<ContourModel>::empty(),
        m.taken().pos() == m.pos(),
{
}

/// After the outline was taken, drawing goes on from the last point: the
/// first contour of the next outline starts at the point that `pos` gave
/// before, whatever is drawn after the first segment.
pub proof fn law_take_keeps_continuity(
    m: BuilderModel,
    p: Coords,
    first: Command,
    rest: Seq<Command>,
)
    requires
        m.pos() == Some(p),
        first.draws_segment(),
        forall|i: int| 0 <= i < rest.len() ==> rest[i].keeps_drawing(),
    ensures
        ({
            let outline = m.taken().apply(first).run(rest).into_outline();
            outline.len() > 0 && outline[0].points.len() > 0 && outline[0].points[0] == endpoint(p)
        }),
{
    let drawn = m.taken().apply(first);
    assert(drawn.begins_at(p));
    lemma_run_keeps_beginning(drawn, p, rest);
}

proof fn lemma_apply_keeps_beginning(m: BuilderModel, p: Coords, command: Command)
    requires
        m.begins_at(p),
        command.keeps_drawing(),
    ensures
        m.apply(command).begins_at(p),
{
    lemma_materialize_keeps_beginning(m, p);
    match command {
        Command::Rect(e) => {
            let a = m.move_to(origin_of(e));
            lemma_materialize_keeps_beginning(a, p);
            let b = a.line_to(upper_right_of(e));
            lemma_materialize_keeps_beginning(b, p);
            let c = b.line_to(lower_right_of(e));
            lemma_materialize_keeps_beginning(c, p);
        },
        _ => {},
    }
}

proof fn lemma_materialize_keeps_beginning(m: BuilderModel, p: Coords)
    requires
        m.begins_at(p),
    ensures
        m.materialize().begins_at(p),
        m.materialize().contour.points.len() > 0 ==> forall|more: Seq<PathPoint>|
            (BuilderModel {
                contour: #[trigger] m.materialize().contour.extend(more),
                ..m.materialize()
            }).begins_at(p),
{
}

proof fn lemma_run_keeps_beginning(m: BuilderModel, p: Coords, commands: Seq<Command>)
    requires
        m.begins_at(p),
        forall|i: int| 0 <= i < commands.len() ==> commands[i].keeps_drawing(),
    ensures
        m.run(commands).begins_at(p),
    decreases commands.len(),
{
    if commands.len() > 0 {
        lemma_run_keeps_beginning(m, p, commands.drop_last());
        lemma_apply_keeps_beginning(m.run(commands.drop_last()), p, commands.last());
    }
}

/// Whatever is done to a new builder, an outline that it hands out holds no
/// contour without points, and a builder that stands at the end of a
/// segment has points in its buffer.
pub proof fn law_outline_has_no_empty_contour(commands: Seq<Command>)
    ensures
        BuilderModel::new().run(commands).is_sound(),
        forall|i: int|
            0 <= i < BuilderModel::new().run(commands).into_outline().len() ==> !(
            #[trigger] BuilderModel::new().run(commands).into_outline()[i]).is_empty(),
    decreases commands.len(),
{
    if commands.len() > 0 {
        law_outline_has_no_empty_contour(commands.drop_last());
        lemma_apply_keeps_sound(BuilderModel::new().run(commands.drop_last()), commands.last());
    }
}

proof fn lemma_apply_keeps_sound(m: BuilderModel, command: Command)
    requires
        m.is_sound(),
    ensures
        m.apply(command).is_sound(),
{
    match command {
        Command::Rect(e) => {
            let a = m.move_to(origin_of(e));
            let b = a.line_to(upper_right_of(e));
            let c = b.line_to(lower_right_of(e));
            let d = c.line_to(lower_left_of(e));
            assert(a.is_sound());
            assert(b.is_sound());
            assert(c.is_sound());
            assert(d.is_sound());
        },
        _ => {},
    }
}

} // verus!
