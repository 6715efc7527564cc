use pathfinder_content::outline::Outline as SceneOutline;
use pathfinder_geometry::rect::RectF;
use pathfinder_geometry::transform2d::Transform2F;
use pathfinder_geometry::vector::{vec2f, Vector2F};
use vector::PathBuilder;

fn builder() -> PathBuilder<SceneOutline> {
    PathBuilder::new()
}

fn points(outline: &SceneOutline, contour: usize) -> Vec<(f32, f32)> {
    let contour = &outline.contours()[contour];
    (0..contour.len()).map(|i| (contour.position_of(i).x(), contour.position_of(i).y())).collect()
}

#[test]
fn new_builder_has_no_position_and_no_contours() {
    let b = builder();
    assert!(b.pos().is_none());
    assert_eq!(b.into_outline().contours().len(), 0);
}

#[test]
fn moves_without_drawing_leave_no_contour() {
    let mut b = builder();
    b.move_to(vec2f(1.0, 2.0));
    b.move_to(vec2f(3.0, 4.0));
    b.move_to(vec2f(5.0, 6.0));
    assert_eq!(b.pos(), Some(vec2f(5.0, 6.0)));
    assert_eq!(b.into_outline().contours().len(), 0);
}

#[test]
fn closed_triangle_is_one_contour_of_three_points() {
    let mut b = builder();
    b.move_to(vec2f(0.0, 0.0));
    b.line_to(vec2f(10.0, 0.0));
    b.line_to(vec2f(10.0, 10.0));
    b.close();
    assert_eq!(b.pos(), Some(vec2f(10.0, 10.0)));
    let outline = b.into_outline();
    assert_eq!(outline.contours().len(), 1);
    assert_eq!(points(&outline, 0), vec![(0.0, 0.0), (10.0, 0.0), (10.0, 10.0)]);
    assert!(outline.contours()[0].is_closed());
    assert_eq!(format!("{:?}", outline), "M 0 0 L 10 0 L 10 10 z");
}

#[test]
fn open_path_stays_open() {
    let mut b = builder();
    b.move_to(vec2f(0.0, 0.0));
    b.line_to(vec2f(1.0, 1.0));
    let outline = b.into_outline();
    assert_eq!(outline.contours().len(), 1);
    assert!(!outline.contours()[0].is_closed());
}

#[test]
fn rect_visits_the_corners_in_order() {
    let mut b = builder();
    b.rect(RectF::new(vec2f(0.0, 0.0), vec2f(4.0, 2.0)));
    assert_eq!(b.pos(), Some(vec2f(0.0, 2.0)));
    let outline = b.into_outline();
    assert_eq!(outline.contours().len(), 1);
    assert_eq!(points(&outline, 0), vec![(0.0, 0.0), (4.0, 0.0), (4.0, 2.0), (0.0, 2.0)]);
    assert!(outline.contours()[0].is_closed());
}

#[test]
fn rect_with_an_offset_origin() {
    let mut b = builder();
    b.rect(RectF::new(vec2f(1.0, 2.0), vec2f(3.0, 5.0)));
    let outline = b.into_outline();
    assert_eq!(points(&outline, 0), vec![(1.0, 2.0), (4.0, 2.0), (4.0, 7.0), (1.0, 7.0)]);
}

#[test]
fn rect_after_a_path_adds_a_second_contour() {
    let mut b = builder();
    b.move_to(vec2f(0.0, 0.0));
    b.line_to(vec2f(1.0, 0.0));
    b.rect(RectF::new(vec2f(5.0, 5.0), vec2f(1.0, 1.0)));
    let outline = b.into_outline();
    assert_eq!(outline.contours().len(), 2);
    assert_eq!(points(&outline, 0), vec![(0.0, 0.0), (1.0, 0.0)]);
    assert!(!outline.contours()[0].is_closed());
    assert_eq!(points(&outline, 1), vec![(5.0, 5.0), (6.0, 5.0), (6.0, 6.0), (5.0, 6.0)]);
    assert!(outline.contours()[1].is_closed());
}

#[test]
fn move_to_between_segments_starts_a_new_contour() {
    let mut b = builder();
    b.move_to(vec2f(0.0, 0.0));
    b.line_to(vec2f(1.0, 0.0));
    b.move_to(vec2f(5.0, 5.0));
    b.line_to(vec2f(6.0, 5.0));
    b.line_to(vec2f(6.0, 6.0));
    let outline = b.into_outline();
    assert_eq!(outline.contours().len(), 2);
    assert_eq!(points(&outline, 0), vec![(0.0, 0.0), (1.0, 0.0)]);
    assert_eq!(points(&outline, 1), vec![(5.0, 5.0), (6.0, 5.0), (6.0, 6.0)]);
}

#[test]
fn drawing_after_close_continues_the_contour() {
    let mut b = builder();
    b.move_to(vec2f(0.0, 0.0));
    b.line_to(vec2f(1.0, 0.0));
    b.close();
    b.line_to(vec2f(1.0, 1.0));
    let outline = b.into_outline();
    assert_eq!(outline.contours().len(), 1);
    assert_eq!(points(&outline, 0), vec![(0.0, 0.0), (1.0, 0.0), (1.0, 1.0)]);
    assert!(outline.contours()[0].is_closed());
}

#[test]
fn curves_keep_their_control_points() {
    let mut b = builder();
    b.move_to(vec2f(0.0, 0.0));
    b.quadratic_curve_to(vec2f(1.0, 2.0), vec2f(3.0, 4.0));
    b.cubic_curve_to(vec2f(5.0, 6.0), vec2f(7.0, 8.0), vec2f(9.0, 10.0));
    assert_eq!(b.pos(), Some(vec2f(9.0, 10.0)));
    let outline = b.into_outline();
    assert_eq!(outline.contours().len(), 1);
    assert_eq!(
        points(&outline, 0),
        vec![(0.0, 0.0), (1.0, 2.0), (3.0, 4.0), (5.0, 6.0), (7.0, 8.0), (9.0, 10.0)]
    );
    let contour = &outline.contours()[0];
    let endpoints: Vec<bool> = (0..contour.len()).map(|i| contour.point_is_endpoint(i)).collect();
    assert_eq!(endpoints, vec![true, false, true, false, false, true]);
    assert_eq!(format!("{:?}", outline), "M 0 0 Q 1 2 3 4 C 5 6 7 8 9 10");
}

#[test]
fn closing_twice_is_closing_once() {
    let mut once = builder();
    once.move_to(vec2f(0.0, 0.0));
    once.line_to(vec2f(10.0, 0.0));
    once.line_to(vec2f(10.0, 10.0));
    once.close();
    let mut twice = builder();
    twice.move_to(vec2f(0.0, 0.0));
    twice.line_to(vec2f(10.0, 0.0));
    twice.line_to(vec2f(10.0, 10.0));
    twice.close();
    twice.close();
    let (once, twice) = (once.into_outline(), twice.into_outline());
    assert_eq!(twice.contours().len(), 1);
    assert_eq!(points(&twice, 0), points(&once, 0));
    assert!(twice.contours()[0].is_closed());
    assert_eq!(format!("{:?}", twice), format!("{:?}", once));
    assert_eq!(format!("{:?}", twice).matches('z').count(), 1);
}

#[test]
fn take_hands_out_what_was_drawn_and_keeps_the_position() {
    let mut b = builder();
    b.move_to(vec2f(0.0, 0.0));
    b.line_to(vec2f(3.0, 4.0));
    let before = b.pos();
    let first = b.take();
    assert_eq!(first.contours().len(), 1);
    assert_eq!(points(&first, 0), vec![(0.0, 0.0), (3.0, 4.0)]);
    assert_eq!(b.pos(), before);

    b.line_to(vec2f(5.0, 6.0));
    let second = b.into_outline();
    assert_eq!(second.contours().len(), 1);
    assert_eq!(points(&second, 0), vec![(3.0, 4.0), (5.0, 6.0)]);
    assert_eq!(second.contours()[0].position_of(0), before.unwrap());
}

#[test]
fn take_with_nothing_drawn_is_empty() {
    let mut b = builder();
    assert_eq!(b.take().contours().len(), 0);
    assert!(b.pos().is_none());
    b.move_to(vec2f(1.0, 1.0));
    assert_eq!(b.take().contours().len(), 0);
    assert_eq!(b.pos(), Some(vec2f(1.0, 1.0)));
}

#[test]
fn take_twice_gives_nothing_the_second_time() {
    let mut b = builder();
    b.rect(RectF::new(vec2f(0.0, 0.0), vec2f(1.0, 1.0)));
    assert_eq!(b.take().contours().len(), 1);
    assert_eq!(b.take().contours().len(), 0);
    assert_eq!(b.pos(), Some(vec2f(0.0, 1.0)));
}

#[test]
fn take_opens_a_fresh_contour() {
    let mut b = builder();
    b.move_to(vec2f(0.0, 0.0));
    b.line_to(vec2f(1.0, 0.0));
    b.close();
    let _ = b.take();
    b.line_to(vec2f(2.0, 0.0));
    let outline = b.into_outline();
    assert_eq!(points(&outline, 0), vec![(1.0, 0.0), (2.0, 0.0)]);
    assert!(!outline.contours()[0].is_closed());
}

#[test]
fn clear_forgets_everything() {
    let mut b = builder();
    b.move_to(vec2f(0.0, 0.0));
    b.line_to(vec2f(3.0, 4.0));
    b.rect(RectF::new(vec2f(0.0, 0.0), vec2f(1.0, 1.0)));
    b.clear();
    assert!(b.pos().is_none());
    assert_eq!(b.into_outline().contours().len(), 0);
}

#[test]
fn clear_after_a_move_forgets_the_start_point() {
    let mut b = builder();
    b.move_to(vec2f(7.0, 7.0));
    b.clear();
    assert!(b.pos().is_none());
    assert_eq!(b.take().contours().len(), 0);
}

fn on_ellipse(p: Vector2F, center: Vector2F, radius: Vector2F) -> bool {
    let (x, y) = ((p.x() - center.x()) / radius.x(), (p.y() - center.y()) / radius.y());
    (x * x + y * y - 1.0).abs() < 1.0e-5
}

#[test]
fn ellipse_is_a_closed_contour_of_four_curves() {
    let mut b = builder();
    let (center, radius) = (vec2f(10.0, 20.0), vec2f(2.0, 3.0));
    assert!(b.try_ellipse(center, radius, Transform2F::default()));
    assert!(b.pos().is_none());
    let outline = b.into_outline();
    assert_eq!(outline.contours().len(), 1);
    let contour = &outline.contours()[0];
    assert_eq!(contour.len(), 16);
    assert!(contour.is_closed());
    let endpoints: Vec<bool> = (0..contour.len()).map(|i| contour.point_is_endpoint(i)).collect();
    assert_eq!(
        endpoints,
        vec![
            true, false, false, true, true, false, false, true, true, false, false, true, true,
            false, false, true
        ]
    );
    for i in 0..contour.len() {
        if contour.point_is_endpoint(i) {
            assert!(on_ellipse(contour.position_of(i), center, radius));
        }
    }
    let bounds = outline.bounds();
    assert!(bounds.min_x() >= 7.5 && bounds.max_x() <= 12.5);
    assert!(bounds.min_y() >= 16.5 && bounds.max_y() <= 23.5);
}

#[test]
fn ellipse_is_scaled_then_turned_then_moved() {
    let mut b = builder();
    let (center, radius) = (vec2f(10.0, 20.0), vec2f(2.0, 3.0));
    let quarter_turn = Transform2F::from_rotation(std::f32::consts::FRAC_PI_2);
    b.ellipse(center, radius, quarter_turn);
    let outline = b.into_outline();
    let contour = &outline.contours()[0];
    assert_eq!(contour.len(), 16);
    for i in 0..contour.len() {
        if contour.point_is_endpoint(i) {
            assert!(on_ellipse(contour.position_of(i), center, radius.yx()));
        }
    }
    let bounds = outline.bounds();
    assert!(bounds.min_x() >= 6.5 && bounds.max_x() <= 13.5);
    assert!(bounds.min_y() >= 17.5 && bounds.max_y() <= 22.5);
}

#[test]
fn ellipse_keeps_the_position() {
    let mut b = builder();
    b.move_to(vec2f(1.0, 1.0));
    b.line_to(vec2f(2.0, 2.0));
    b.ellipse(vec2f(0.0, 0.0), Vector2F::splat(1.0), Transform2F::default());
    assert_eq!(b.pos(), Some(vec2f(2.0, 2.0)));
    let outline = b.into_outline();
    assert_eq!(outline.contours().len(), 1);
    assert_eq!(outline.contours()[0].len(), 18);
    assert!(outline.contours()[0].is_closed());
}

#[test]
fn an_ellipse_out_of_range_is_not_drawn() {
    let mut b = builder();
    b.move_to(vec2f(1.0, 1.0));
    b.line_to(vec2f(2.0, 2.0));
    assert!(!b.try_ellipse(vec2f(0.0, 0.0), vec2f(1.0e30, 1.0), Transform2F::default()));
    assert!(!b.try_ellipse(vec2f(f32::NAN, 0.0), vec2f(1.0, 1.0), Transform2F::default()));
    assert!(!b.try_ellipse(vec2f(0.0, 0.0), vec2f(1.0, 1.0), Transform2F::from_scale(1.0e20)));
    assert_eq!(b.pos(), Some(vec2f(2.0, 2.0)));
    let outline = b.into_outline();
    assert_eq!(outline.contours().len(), 1);
    assert_eq!(outline.contours()[0].len(), 2);
    assert!(!outline.contours()[0].is_closed());
}

#[test]
fn drawing_needs_a_defined_start_point() {
    let mut b = builder();
    assert!(!b.can_draw());
    b.move_to(vec2f(f32::NAN, 0.0));
    assert!(!b.can_draw());
    b.move_to(vec2f(1.0, 0.0));
    assert!(b.can_draw());
    b.line_to(vec2f(2.0, 0.0));
    assert!(b.can_draw());
    let _ = b.take();
    assert!(b.can_draw());
    b.clear();
    assert!(!b.can_draw());
}

#[test]
fn an_empty_buffer_keeps_its_closing() {
    let mut b = builder();
    b.close();
    b.move_to(vec2f(0.0, 0.0));
    b.line_to(vec2f(1.0, 0.0));
    let outline = b.into_outline();
    assert_eq!(outline.contours().len(), 1);
    assert!(outline.contours()[0].is_closed());
}
