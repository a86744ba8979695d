use ang::circle::{circ_min_dist, normalize_value};

#[test]
fn test_normalize_value() {
    assert_eq!(normalize_value(0, 360), 0);
    assert_eq!(normalize_value(359, 360), 359);
    assert_eq!(normalize_value(360, 360), 0);
    assert_eq!(normalize_value(-1, 360), 359);
    assert_eq!(normalize_value(-360, 360), 0);
    assert_eq!(normalize_value(721, 360), 1);
    assert_eq!(normalize_value(-721, 360), 359);
}

#[test]
fn test_circ_min_dist_whole_degrees() {
    assert_eq!(circ_min_dist(180, 0, 360), 180);
    assert_eq!(circ_min_dist(1, 2, 360), 1);
    assert_eq!(circ_min_dist(359, 1, 360), 2);
    assert_eq!(circ_min_dist(0, 0, 360), 0);
}

#[test]
fn test_circ_min_dist_tenths_of_a_degree() {
    // At a period of 3600 the circle is graded in tenths of a degree:
    // 0.1 degrees and 359.9 degrees lie 0.2 degrees apart across the wrap.
    assert_eq!(circ_min_dist(1, 3599, 3600), 2);
    assert_eq!(circ_min_dist(1800, 0, 3600), 1800);
    assert_eq!(circ_min_dist(10, 20, 3600), 10);
}

#[test]
fn test_circ_min_dist_unnormalized() {
    // Operands outside [0, p) take the folding path.
    assert_eq!(circ_min_dist(-90, 90, 360), 180);
    assert_eq!(circ_min_dist(720, 0, 360), 0);
    assert_eq!(circ_min_dist(730, -10, 360), 20);
}
