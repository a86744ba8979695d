use ang::{Angle, Degrees, Radians};
use std::cmp::Ordering;

#[test]
fn test_angle_conversions() {
    // Reading the payload in the angle's own unit and rebuilding the angle
    // restores it exactly.
    let a = Degrees(90);
    assert_eq!(a.in_degrees(), 90);
    assert_eq!(Degrees(a.in_degrees()), a);

    let b = Radians(-3);
    assert_eq!(b.in_radians(), -3);
    assert_eq!(Radians(b.in_radians()), b);
}

#[test]
fn test_angle_math_multiplicative() {
    // Scaling is unit-preserving, and the in-place and the value-returning
    // forms agree.
    let a = Radians(7);
    assert_eq!(a.scale(3), Radians(21));
    assert_eq!(a.div_scalar(2), Radians(3));
    let mut a1 = a;
    a1.scale_assign(3);
    assert_eq!(a1, a.scale(3));
    let mut a2 = a;
    a2.div_scalar_assign(2);
    assert_eq!(a2, a.div_scalar(2));

    let d = Degrees(30);
    assert_eq!(d.scale(4), Degrees(120));
    assert_eq!(d.div_scalar(4), Degrees(7));
    let mut d1 = d;
    d1.scale_assign(4);
    assert_eq!(d1, d.scale(4));
    let mut d2 = d;
    d2.div_scalar_assign(4);
    assert_eq!(d2, d.div_scalar(4));

    // Machine division rounds toward zero, also for negative payloads.
    assert_eq!(Degrees(-7).div_scalar(2), Degrees(-3));
    assert_eq!(Degrees(7).div_scalar(-2), Degrees(-3));
    assert_eq!(Degrees(-7).div_scalar(-2), Degrees(3));
}

#[test]
fn test_angle_math_additive() {
    // Two degree values combine as degrees, two radian values as radians;
    // in-place and value-returning forms agree.
    let (x, y) = (Degrees(100), Degrees(280));
    assert_eq!(x.add(y), Degrees(380));
    assert_eq!(x.sub(y), Degrees(-180));
    let mut x1 = x;
    x1.add_assign(y);
    assert_eq!(x1, x.add(y));
    let mut x2 = x;
    x2.sub_assign(y);
    assert_eq!(x2, x.sub(y));

    let (r, s) = (Radians(2), Radians(5));
    assert_eq!(r.add(s), Radians(7));
    assert_eq!(r.sub(s), Radians(-3));
    let mut r1 = r;
    r1.add_assign(s);
    assert_eq!(r1, r.add(s));
    let mut r2 = r;
    r2.sub_assign(s);
    assert_eq!(r2, r.sub(s));
}

#[test]
fn test_angle_normalization() {
    // A degree payload is folded into [0, 360); a payload already in range
    // is returned unchanged.
    assert_eq!(Degrees(-90).normalized(), Degrees(270));
    assert_eq!(Degrees(360).normalized(), Degrees(0));
    assert_eq!(Degrees(725).normalized(), Degrees(5));
    assert_eq!(Degrees(-725).normalized(), Degrees(355));
    assert_eq!(Degrees(45).normalized(), Degrees(45));
    assert_eq!(Degrees(0).normalized(), Degrees(0));

    let n = Degrees(-123456).normalized();
    let v = n.in_degrees();
    assert!(0 <= v && v < 360);
    // The fold keeps the residue class: the original and the result differ
    // by a whole number of turns.
    assert_eq!((-123456i64 - v).rem_euclid(360), 0);
}

#[test]
fn test_angle_minimal_distance() {
    assert_eq!(Degrees(180).min_dist(Degrees(0)), Degrees(180));
    assert_eq!(Degrees(1).min_dist(Degrees(2)), Degrees(1));
    assert_eq!(Degrees(345).min_dist(Degrees(15)), Degrees(30));

    // Unnormalized operands take the folding path and stay within half a
    // turn of distance.
    assert_eq!(Degrees(-1000).min_dist(Degrees(500)), Degrees(60));
    let d = Degrees(123456).min_dist(Degrees(-654321)).in_degrees();
    assert!(0 <= d && d <= 180);
    // The distance is symmetric.
    assert_eq!(
        Degrees(123456).min_dist(Degrees(-654321)),
        Degrees(-654321).min_dist(Degrees(123456))
    );
    // The distance sees only the direction: normalizing the operands
    // first changes nothing.
    assert_eq!(
        Degrees(-1000).normalized().min_dist(Degrees(500).normalized()),
        Degrees(-1000).min_dist(Degrees(500))
    );
}

#[test]
fn test_constants() {
    assert_eq!(Angle::eighth(), Degrees(45));
    assert_eq!(Angle::quarter(), Degrees(90));
    assert_eq!(Angle::half(), Degrees(180));
    assert_eq!(Angle::full(), Degrees(360));
    assert_eq!(Angle::zero(), Radians(0));
}

#[test]
fn test_sign_queries() {
    assert!(Angle::zero().is_zero());
    assert!(Degrees(0).is_zero());
    assert!(!Degrees(1).is_zero());

    assert_eq!(Degrees(-45).abs(), Degrees(45));
    assert_eq!(Radians(3).abs(), Radians(3));
    assert_eq!(Degrees(-45).signum(), Degrees(-1));
    assert_eq!(Radians(17).signum(), Radians(1));
    assert_eq!(Radians(0).signum(), Radians(0));
    assert!(Degrees(2).is_positive());
    assert!(!Degrees(0).is_positive());
    assert!(Degrees(-2).is_negative());
    assert!(!Degrees(0).is_negative());
    assert_eq!(Degrees(-45).neg(), Degrees(45));
    assert_eq!(Radians(3).neg(), Radians(-3));
}

#[test]
fn test_equality_is_unit_aware() {
    assert_eq!(Degrees(90), Degrees(90));
    assert_ne!(Degrees(90), Degrees(91));
    assert_eq!(Radians(2), Radians(2));
    // The zero angle is the same direction in either unit.
    assert_eq!(Degrees(0), Radians(0));
    assert_eq!(Radians(0), Degrees(0));
    // A nonzero payload in one unit never lands exactly on an integer
    // payload of the other.
    assert_ne!(Degrees(90), Radians(90));
    assert_ne!(Radians(1), Degrees(57));
}

#[test]
fn test_ordering() {
    // Values of one unit are ordered by their payloads.
    assert!(Degrees(1) < Degrees(2));
    assert!(Radians(-3) < Radians(2));
    assert_eq!(Degrees(5).partial_cmp(&Degrees(5)), Some(Ordering::Equal));

    // Mixed units are ordered by sign; equal signs stay undecided.
    assert_eq!(Radians(0).partial_cmp(&Degrees(0)), Some(Ordering::Equal));
    assert_eq!(Radians(-1).partial_cmp(&Degrees(5)), Some(Ordering::Less));
    assert_eq!(Degrees(5).partial_cmp(&Radians(-1)), Some(Ordering::Greater));
    assert_eq!(Radians(1).partial_cmp(&Degrees(50)), None);
    assert_eq!(Radians(-1).partial_cmp(&Degrees(-50)), None);

    // On pairs of one unit the comparison is total.
    assert_eq!(Degrees(1).cmp(&Degrees(2)), Ordering::Less);
    assert_eq!(Radians(3).cmp(&Radians(3)), Ordering::Equal);
    assert_eq!(Radians(4).cmp(&Radians(-4)), Ordering::Greater);
}

#[test]
fn test_abs_diff_eq() {
    assert!(Degrees(100).abs_diff_eq(&Degrees(98), 3));
    assert!(!Degrees(100).abs_diff_eq(&Degrees(98), 1));
    assert!(Radians(-5).abs_diff_eq(&Radians(-5), 0));
}
