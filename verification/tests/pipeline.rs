use wonky::backend::{buffers_to_path, path_to_buffers, simplified_or_original};
use wonky::path::{PathCmd, PathPoint, Paths};
use wonky::pipeline::{compare_scores, reportable};

fn p(x: f64, y: f64) -> PathPoint {
    PathPoint { x: x.to_bits(), y: y.to_bits() }
}

fn rectangle(x0: f64, y0: f64, x1: f64, y1: f64) -> Vec<PathCmd> {
    vec![
        PathCmd::MoveTo(p(x0, y0)),
        PathCmd::LineTo(p(x0, y1)),
        PathCmd::LineTo(p(x1, y1)),
        PathCmd::LineTo(p(x1, y0)),
        PathCmd::LineTo(p(x0, y0)),
        PathCmd::Close,
    ]
}

#[test]
fn test_compare_within_tolerance() {
    // before=10.0, after=11.0, tolerance=0.25: within tolerance, reports 0
    let r = compare_scores(10.0f64.to_bits(), 11.0f64.to_bits(), 0.25f64.to_bits());
    assert_eq!(f64::from_bits(r), 0.0);
}

#[test]
fn test_compare_reports_increase() {
    // before=10.0, after=13.0, tolerance=0.25: reports a 30 percent increase
    let r = compare_scores(10.0f64.to_bits(), 13.0f64.to_bits(), 0.25f64.to_bits());
    assert_eq!(f64::from_bits(r) as f32, 30.0);
}

#[test]
fn test_compare_flags_regression_from_zero() {
    // A perfectly smooth original that turns rough is always flagged
    let r = compare_scores(0.0f64.to_bits(), 1.0f64.to_bits(), 0.25f64.to_bits());
    assert!(f64::from_bits(r) > 0.0);
}

#[test]
fn test_round_trip_preserves_path() {
    let mut path = Paths::default();
    path.move_to(p(1.0, 20.0));
    path.quad_to(p(0.0, 51.0), p(0.5, 51.25));
    path.curve_to(p(19.0, 51.0), p(38.0, 51.0), p(38.0, 0.0));
    path.line_to(p(0.0, 0.0));
    path.close();
    let (verbs, pts) = path_to_buffers(&path);
    let back = buffers_to_path(&verbs, &pts).unwrap();
    assert_eq!(back.cmds, path.cmds);
}

#[test]
fn test_buffers_reject_missing_points() {
    // A verb that asks for more points than the buffer holds is refused
    let verbs: Vec<u8> = vec![0, 2];
    let pts: Vec<PathPoint> = vec![p(0.0, 0.0), p(1.0, 1.0)];
    assert!(buffers_to_path(&verbs, &pts).is_none());
}

#[test]
fn test_unknown_verbs_are_skipped() {
    // The conic and done codes consume nothing and decode to nothing
    let verbs: Vec<u8> = vec![0, 3, 1, 6];
    let pts: Vec<PathPoint> = vec![p(0.0, 0.0), p(2.0, 2.0)];
    let back = buffers_to_path(&verbs, &pts).unwrap();
    assert_eq!(
        back.cmds,
        vec![PathCmd::MoveTo(p(0.0, 0.0)), PathCmd::LineTo(p(2.0, 2.0))]
    );
}

#[test]
fn test_fallback_keeps_original_without_result() {
    let path = Paths { cmds: rectangle(0.0, 0.0, 10.0, 10.0) };
    let kept = simplified_or_original(&path, None);
    assert_eq!(kept.cmds, path.cmds);
}

#[test]
fn test_fallback_keeps_original_on_bad_result() {
    let path = Paths { cmds: rectangle(0.0, 0.0, 10.0, 10.0) };
    let verbs: Vec<u8> = vec![4];
    let pts: Vec<PathPoint> = vec![p(1.0, 1.0)];
    let kept = simplified_or_original(&path, Some((verbs, pts)));
    assert_eq!(kept.cmds, path.cmds);
}

#[test]
fn test_usable_result_replaces_original() {
    let path = Paths { cmds: rectangle(0.0, 0.0, 10.0, 10.0) };
    let replacement = Paths { cmds: rectangle(2.0, 2.0, 8.0, 8.0) };
    let (verbs, pts) = path_to_buffers(&replacement);
    let simplified = simplified_or_original(&path, Some((verbs, pts)));
    assert_eq!(simplified.cmds, replacement.cmds);
}

#[test]
fn test_square_stays_smooth_through_pipeline() {
    // A square is roughness 0 before, and after a no-result simplification
    let path = Paths { cmds: rectangle(100.0, 100.0, 200.0, 200.0) };
    let before = f64::from_bits(path.wonkiness());
    assert!(before.abs() <= f32::EPSILON as f64);
    let after_path = simplified_or_original(&path, None);
    let after = f64::from_bits(after_path.wonkiness());
    assert!(after.abs() <= f32::EPSILON as f64);
}

#[test]
fn test_cross_is_smooth_before_simplification() {
    // Two overlapping rectangles forming a cross: right angles only
    let mut cmds = rectangle(100.0, 100.0, 120.0, 200.0);
    cmds.extend(rectangle(75.0, 150.0, 150.0, 175.0));
    let cross = Paths { cmds };
    let w = f64::from_bits(cross.wonkiness()) as f32;
    assert!(w.abs() <= f32::EPSILON);
}

#[test]
fn test_builder_records_drawing_order() {
    let mut path = Paths::default();
    path.move_to(p(0.0, 0.0));
    path.line_to(p(1.0, 0.0));
    path.quad_to(p(2.0, 0.0), p(2.0, 1.0));
    path.curve_to(p(2.0, 2.0), p(1.0, 3.0), p(0.0, 3.0));
    path.close();
    assert_eq!(
        path.cmds,
        vec![
            PathCmd::MoveTo(p(0.0, 0.0)),
            PathCmd::LineTo(p(1.0, 0.0)),
            PathCmd::QuadTo(p(2.0, 0.0), p(2.0, 1.0)),
            PathCmd::CubicTo(p(2.0, 2.0), p(1.0, 3.0), p(0.0, 3.0)),
            PathCmd::Close,
        ]
    );
}

#[test]
fn test_subpaths_split_at_moves() {
    let mut cmds = rectangle(0.0, 0.0, 1.0, 1.0);
    cmds.extend(rectangle(5.0, 5.0, 6.0, 6.0));
    let path = Paths { cmds: cmds.clone() };
    let subs = path.subpaths();
    assert_eq!(subs.len(), 2);
    assert_eq!(subs[0].cmds, cmds[0..6].to_vec());
    assert_eq!(subs[1].cmds, cmds[6..12].to_vec());
}

#[test]
fn test_reporting_window() {
    // Printed only when strictly positive and strictly below 1000 percent
    assert!(!reportable(0.0f64.to_bits()));
    assert!(reportable(30.0f64.to_bits()));
    assert!(reportable(999.9f64.to_bits()));
    assert!(!reportable(1000.0f64.to_bits()));
    assert!(!reportable(4321.0f64.to_bits()));
}

#[test]
fn test_huge_regression_is_suppressed() {
    // A pathological measurement far past the cutoff is not reportable
    let r = compare_scores(0.001f64.to_bits(), 1.0f64.to_bits(), 0.25f64.to_bits());
    assert!(f64::from_bits(r) > 1000.0);
    assert!(!reportable(r));
}

#[test]
fn test_empty_drawing_scores_zero() {
    let empty = Paths::default();
    assert_eq!(f64::from_bits(empty.wonkiness()), 0.0);
    assert_eq!(empty.subpaths().len(), 0);
}
