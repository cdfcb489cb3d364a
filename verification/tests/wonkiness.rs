use kurbo::BezPath;
use wonky::path::{PathPoint, Paths};
use wonky::wonkiness::wonkiness;

fn pt(p: kurbo::Point) -> PathPoint {
    PathPoint { x: p.x.to_bits(), y: p.y.to_bits() }
}

fn path_from_svg(svg: &str) -> Paths {
    let bez = BezPath::from_svg(svg).unwrap();
    let mut paths = Paths::default();
    for el in bez.elements() {
        match el {
            kurbo::PathEl::MoveTo(p) => paths.move_to(pt(*p)),
            kurbo::PathEl::LineTo(p) => paths.line_to(pt(*p)),
            kurbo::PathEl::QuadTo(c, p) => paths.quad_to(pt(*c), pt(*p)),
            kurbo::PathEl::CurveTo(c0, c1, p) => paths.curve_to(pt(*c0), pt(*c1), pt(*p)),
            kurbo::PathEl::ClosePath => paths.close(),
        }
    }
    paths
}

fn wonk(svg: &str) -> f32 {
    let path = path_from_svg(svg);
    f64::from_bits(wonkiness(&path)) as f32
}

fn approx_zero(x: f32) -> bool {
    x.abs() <= f32::EPSILON
}

#[test]
fn test_wonk_colinear() {
    // Colinear lines are not wonky
    assert!(approx_zero(wonk("M 0 0 L 1 1 L 2 2")));
}

#[test]
fn test_wonk_right_angle() {
    // Right angles are not wonky
    assert!(approx_zero(wonk("M 0 0 L 1 0 L 1 1")));
}

#[test]
fn test_wonk_sharp1() {
    // Sharper angles are wonkier than wider angles
    let wonk1 = wonk("M 0 0 L 1 1 L 1.5 0");
    let wonk2 = wonk("M 0 0 L 1 1 L 2.5 0");
    assert!(wonk1 > wonk2);
}

#[test]
fn test_wonk_short() {
    // Shorter segments are wonkier than longer segments
    let wonk1 = wonk("M 0 1 L 1 0 L 0 2");
    let wonk2 = wonk("M 0 2 L 2 0 L 0 4");
    assert!(wonk1 > wonk2);
}

#[test]
fn test_wonk_g2() {
    // G2 continuous segments are not (very) wonky
    assert!(wonk("M 0 0 C 0 0.3 0.3 1 1 1 C 1.7 1 2 0.3 2 0") < 0.1);
}

#[test]
fn test_wonk_not_g2() {
    // But non-G2 continuous segments are much wonkier
    let wonk1 = wonk("M 0 0 C 0 0.3 0.3 1 1 1 C 1.7 1 2 0.3 2 0");
    let wonk2 = wonk("M 0 0 C 0 0.3 0.6 1 1 1 C 2 1 2 0.3 2 0");
    assert!(wonk2 > 2.0 * wonk1);
}

#[test]
fn test_add_good_point() {
    // Adding a good-ish point doesn't make the path much wonkier
    let wonk1 = wonk("M 0 0 L 1 2 L 2 0");
    let wonk2 = wonk("M 0 0 L 0.45 1 L 1 2 L 2 0");
    assert!(wonk2 > 0.9 * wonk1);
    assert!(wonk2 < 1.5 * wonk1);
}

#[test]
fn test_add_bad_point() {
    // But adding wobbly bits to a path makes it a lot wonkier
    let wonk1 = wonk("M 0 0 L 0.5 0.5 L 1 1 L 1.5 0.5 L 2 0");
    let wonk2 = wonk("M 0 0 L 0.5 0.5 L  0.8 0.9 L 1 1 L 1.5 0.5 L 1.7 0.2 L 2 0");
    assert!(wonk2 > 4.0 * wonk1);
}

#[test]
fn test_quad_to_line() {
    // Turning quadratics into lines shouldn't make it wonkier
    let wonk1 = wonk("M1 20Q0 51 0 51Q0 51 19 51Q38 51 38 51Q38 51 38 51L38 0Q0 0 0 0L1 20Z");
    let wonk2 = wonk("M0 51L1 20L0 0L38 0L38 51L0 51Z");
    assert!(wonk2 < 1.1 * wonk1);
}

#[test]
fn test_single_segment_scores_zero() {
    // Fewer than two non-degenerate segments: roughness is exactly zero
    let path = path_from_svg("M 0 0 L 5 0");
    assert_eq!(f64::from_bits(wonkiness(&path)), 0.0);
    let empty = path_from_svg("M 3 4");
    assert_eq!(f64::from_bits(wonkiness(&empty)), 0.0);
}

#[test]
fn test_degenerate_segments_are_ignored() {
    // A zero-length segment carries no geometry and changes nothing
    let with_dup = path_from_svg("M 0 0 L 1 1 L 1 1 L 2 0");
    let without = path_from_svg("M 0 0 L 1 1 L 2 0");
    assert_eq!(wonkiness(&with_dup), wonkiness(&without));
}

#[test]
fn test_smooth_junction_vs_corner() {
    // A tangent-continuous junction scores near zero; breaking the tangent
    // at the same junction costs far more than double
    let smooth = wonk("M 0 0 C 0 0.3 0.3 1 1 1 C 1.7 1 2 0.3 2 0");
    let broken = wonk("M 0 0 C 0 0.3 0.3 1 1 1 C 1.5 0.5 2 0.3 2 0");
    assert!(smooth < 0.1);
    assert!(broken > 2.0 * smooth);
}

#[test]
fn test_whole_drawing_sums_subpaths() {
    // The drawing's score is the sum over its subpaths
    let mut both = path_from_svg("M 0 0 L 1 1 L 1.5 0");
    let second = path_from_svg("M 10 0 L 11 1 L 11.5 0");
    for c in &second.cmds {
        both.cmds.push(*c);
    }
    let w_one = f64::from_bits(wonkiness(&path_from_svg("M 0 0 L 1 1 L 1.5 0")));
    let w_both = f64::from_bits(both.wonkiness());
    assert!((w_both - 2.0 * w_one).abs() < 1e-12);
}
