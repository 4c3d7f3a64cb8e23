use passive::collision::check_point_collision;
use passive::collision::check_segment_collision;
use passive::collision::check_segment_collision_checked;

#[test]
fn vertical_segment_crossing_circle_hits() {
    // The parametric form has no vertical-line singularity.
    assert!(check_segment_collision((0, 0), (0, -5), (0, 5), 2));
}

#[test]
fn horizontal_segment_crossing_circle_hits() {
    assert!(check_segment_collision((0, 0), (-5, 0), (5, 0), 2));
}

#[test]
fn tangent_segment_hits_boundary_inclusive() {
    // Line y = 2 touches the circle of radius 2 at exactly one point.
    assert!(check_segment_collision((0, 0), (-3, 2), (3, 2), 2));
}

#[test]
fn endpoint_exactly_on_circle_hits() {
    // t == 1 counts as intersecting.
    assert!(check_segment_collision((0, 0), (10, 0), (3, 0), 3));
}

#[test]
fn segment_strictly_inside_circle_misses() {
    // Both endpoints strictly inside: the segment crosses no boundary.
    assert!(!check_segment_collision((0, 0), (0, -1), (0, 1), 2));
}

#[test]
fn far_segment_misses() {
    assert!(!check_segment_collision((0, 0), (5, 0), (6, 0), 1));
}

#[test]
fn near_miss_parallel_segment_misses() {
    // Line y = 3 stays strictly outside the circle of radius 2.
    assert!(!check_segment_collision((0, 0), (-3, 3), (3, 3), 2));
}

#[test]
fn segment_short_of_circle_misses() {
    // The infinite line would cross, but the segment stops short.
    assert!(!check_segment_collision((0, 0), (10, 0), (4, 0), 3));
}

#[test]
fn swap_endpoints_same_answer() {
    let cases: [((i64, i64), (i64, i64), (i64, i64), i64); 5] = [
        ((0, 0), (0, -5), (0, 5), 2),
        ((0, 0), (-3, 2), (3, 2), 2),
        ((0, 0), (5, 0), (6, 0), 1),
        ((7, -3), (-11, 4), (13, 9), 6),
        ((1, 2), (3, 4), (5, 6), 3),
    ];
    for (z, p, q, r) in cases {
        assert_eq!(
            check_segment_collision(z, p, q, r),
            check_segment_collision(z, q, p, r),
        );
    }
}

#[test]
fn degenerate_segment_is_rejected() {
    // Coinciding endpoints violate the primary test's precondition; the
    // checked variant reports that instead of answering.
    assert_eq!(check_segment_collision_checked((0, 0), (4, 4), (4, 4), 5), None);
    assert_eq!(
        check_segment_collision_checked((0, 0), (0, -5), (0, 5), 2),
        Some(true),
    );
    assert_eq!(
        check_segment_collision_checked((0, 0), (5, 0), (6, 0), 1),
        Some(false),
    );
}

#[test]
fn point_on_boundary_hits() {
    // |P - C| == R exactly.
    assert!(check_point_collision((0, 0), (3, 4), 5));
    assert!(check_point_collision((1, 1), (1, 6), 5));
}

#[test]
fn point_inside_hits() {
    assert!(check_point_collision((0, 0), (1, 1), 5));
    assert!(check_point_collision((2, 2), (2, 2), 0));
}

#[test]
fn point_outside_misses() {
    // |P - C| > R.
    assert!(!check_point_collision((0, 0), (3, 4), 4));
    assert!(!check_point_collision((0, 0), (6, 0), 5));
}
