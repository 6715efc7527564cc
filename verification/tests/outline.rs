use pathfinder_content::outline::{Contour as SceneContour, Outline as SceneOutline};
use pathfinder_geometry::rect::RectF;
use pathfinder_geometry::transform2d::Transform2F;
use pathfinder_geometry::vector::{vec2f, Vector2F};
use vector::geometry::{point_is_defined, rect_is_defined, transform_is_moderate};
use vector::{Contour, Outline};

fn segment(from: Vector2F, to: Vector2F) -> SceneContour {
    let mut c = <SceneContour as Contour>::new();
    Contour::move_to(&mut c, from);
    Contour::line_to(&mut c, to);
    c
}

#[test]
fn new_contour_is_empty() {
    let c = <SceneContour as Contour>::new();
    assert!(Contour::is_empty(&c));
    assert_eq!(c.len(), 0);
    assert!(!c.is_closed());
}

#[test]
fn contour_takes_points_in_order() {
    let mut c = <SceneContour as Contour>::new();
    Contour::move_to(&mut c, vec2f(1.0, 2.0));
    Contour::line_to(&mut c, vec2f(3.0, 4.0));
    Contour::quadratic_curve_to(&mut c, vec2f(5.0, 6.0), vec2f(7.0, 8.0));
    Contour::cubic_curve_to(&mut c, vec2f(9.0, 10.0), vec2f(11.0, 12.0), vec2f(13.0, 14.0));
    assert!(!Contour::is_empty(&c));
    assert_eq!(c.len(), 7);
    assert_eq!(c.position_of(0), vec2f(1.0, 2.0));
    assert_eq!(c.position_of(6), vec2f(13.0, 14.0));
    assert_eq!(format!("{:?}", c), "M 1 2 L 3 4 Q 5 6 7 8 C 9 10 11 12 13 14");
}

#[test]
fn contour_close_and_clear() {
    let mut c = segment(vec2f(0.0, 0.0), vec2f(1.0, 1.0));
    Contour::close(&mut c);
    assert!(c.is_closed());
    assert_eq!(c.len(), 2);
    Contour::clear(&mut c);
    assert!(Contour::is_empty(&c));
    assert!(!c.is_closed());
}

#[test]
fn contour_arc_appends_sixteen_points() {
    let mut c = segment(vec2f(0.0, 0.0), vec2f(1.0, 1.0));
    Contour::arc(&mut c, Transform2F::from_scale(vec2f(2.0, 2.0)));
    assert_eq!(c.len(), 18);
    assert!(!c.is_closed());
    assert_eq!(c.position_of(0), vec2f(0.0, 0.0));
}

#[test]
fn empty_outline_has_no_bounding_box() {
    let o = <SceneOutline as Outline>::empty();
    assert_eq!(o.contours().len(), 0);
    assert!(Outline::bounding_box(&o).is_none());
}

#[test]
fn add_contour_skips_an_empty_contour() {
    let mut o = <SceneOutline as Outline>::empty();
    Outline::add_contour(&mut o, <SceneContour as Contour>::new());
    assert_eq!(o.contours().len(), 0);
    Outline::add_contour(&mut o, segment(vec2f(0.0, 0.0), vec2f(1.0, 1.0)));
    assert_eq!(o.contours().len(), 1);
}

#[test]
fn bounding_box_spans_the_points() {
    let mut o = <SceneOutline as Outline>::empty();
    Outline::add_contour(&mut o, segment(vec2f(1.0, 2.0), vec2f(5.0, 3.0)));
    Outline::add_contour(&mut o, segment(vec2f(-1.0, 0.0), vec2f(2.0, 7.0)));
    let b = Outline::bounding_box(&o).unwrap();
    assert_eq!(b, RectF::from_points(vec2f(-1.0, 0.0), vec2f(5.0, 7.0)));
}

#[test]
fn add_outline_appends_in_order() {
    let mut a = <SceneOutline as Outline>::empty();
    Outline::add_contour(&mut a, segment(vec2f(0.0, 0.0), vec2f(1.0, 0.0)));
    let mut b = <SceneOutline as Outline>::empty();
    Outline::add_contour(&mut b, segment(vec2f(2.0, 0.0), vec2f(3.0, 0.0)));
    Outline::add_contour(&mut b, segment(vec2f(4.0, 0.0), vec2f(5.0, 0.0)));
    Outline::add_outline(&mut a, b);
    assert_eq!(a.contours().len(), 3);
    assert_eq!(a.contours()[0].position_of(0), vec2f(0.0, 0.0));
    assert_eq!(a.contours()[1].position_of(0), vec2f(2.0, 0.0));
    assert_eq!(a.contours()[2].position_of(1), vec2f(5.0, 0.0));
}

#[test]
fn transform_moves_the_points_and_keeps_the_shape() {
    let mut o = <SceneOutline as Outline>::empty();
    let mut c = segment(vec2f(0.0, 0.0), vec2f(1.0, 2.0));
    Contour::close(&mut c);
    Outline::add_contour(&mut o, c);
    Outline::add_contour(&mut o, segment(vec2f(3.0, 3.0), vec2f(4.0, 4.0)));
    let moved = Outline::transform(o, Transform2F::from_translation(vec2f(10.0, 20.0)));
    assert_eq!(moved.contours().len(), 2);
    assert_eq!(moved.contours()[0].len(), 2);
    assert!(moved.contours()[0].is_closed());
    assert!(!moved.contours()[1].is_closed());
    assert_eq!(moved.contours()[0].position_of(1), vec2f(11.0, 22.0));
    assert_eq!(moved.contours()[1].position_of(0), vec2f(13.0, 23.0));
}

#[test]
fn clear_removes_all_contours() {
    let mut o = <SceneOutline as Outline>::empty();
    Outline::add_contour(&mut o, segment(vec2f(0.0, 0.0), vec2f(1.0, 0.0)));
    Outline::clear(&mut o);
    assert_eq!(o.contours().len(), 0);
    assert!(Outline::bounding_box(&o).is_none());
}

#[test]
fn a_point_with_an_undefined_coordinate_is_not_defined() {
    assert!(point_is_defined(vec2f(0.0, -3.5)));
    assert!(point_is_defined(vec2f(f32::INFINITY, f32::MAX)));
    assert!(!point_is_defined(vec2f(f32::NAN, 0.0)));
    assert!(!point_is_defined(vec2f(0.0, f32::NAN)));
    assert!(!point_is_defined(vec2f(0.0, -f32::NAN)));
}

#[test]
fn a_rect_with_an_undefined_edge_is_not_defined() {
    assert!(rect_is_defined(RectF::new(vec2f(0.0, 0.0), vec2f(4.0, 2.0))));
    assert!(!rect_is_defined(RectF::new(vec2f(0.0, f32::NAN), vec2f(4.0, 2.0))));
    assert!(!rect_is_defined(RectF::from_points(vec2f(0.0, 0.0), vec2f(f32::NAN, 2.0))));
}

#[test]
fn a_transform_is_moderate_below_two_to_the_sixty_fourth() {
    assert!(transform_is_moderate(&Transform2F::default()));
    assert!(transform_is_moderate(&Transform2F::from_translation(vec2f(-1.0e19, 1.0e19))));
    assert!(!transform_is_moderate(&Transform2F::from_translation(vec2f(1.9e19, 0.0))));
    assert!(!transform_is_moderate(&Transform2F::from_scale(vec2f(1.0, f32::INFINITY))));
    assert!(!transform_is_moderate(&Transform2F::from_scale(vec2f(f32::NAN, 1.0))));
    assert!(!transform_is_moderate(&Transform2F::row_major(1.0, 0.0, 0.0, -1.0e30, 0.0, 0.0)));
}
