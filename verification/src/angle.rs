//! The tagged angle value and its unit-aware operations.
//!
//! Radians and degrees are incommensurable at exact precision: one degree is
//! pi/180 radians, and pi is irrational, so no integer payload in one unit
//! can be rewritten in the other. The operations here are therefore the ones
//! that never cross units: unit-preserving arithmetic, sign queries, the
//! combination of two values of one unit, normalization and circular
//! distance in degrees, and unit-aware comparison. Crossing the units by an
//! approximate factor is the business of a floating point layer on top.

use crate::circle::{circ_dist, circ_min_dist, normalize_value};
use core::cmp::Ordering;
use vstd::arithmetic::div_mod::{lemma_basic_div, lemma_div_is_ordered_by_denominator};
use vstd::pervasive::unreached;
use vstd::prelude::*;
use vstd::std_specs::cmp::PartialOrdSpec;

verus! {

/// An angle.
///
/// Might be a value in degrees or in radians. The payload is an exact
/// integer; no invariant constrains its range, so unnormalized values
/// (negative, or of a whole turn and more) are valid and meaningful, for
/// instance as cumulative rotations.
#[derive(Clone, Copy, Debug, Eq, Hash)]
pub enum Angle {
    /// The angle value in radians.
    Radians(i64),
    /// The angle value in degrees.
    Degrees(i64),
}

/// The magnitude of `x`.
pub open spec fn abs_int(x: int) -> int {
    if x < 0 {
        -x
    } else {
        x
    }
}

/// Quotient of `a` by `b` rounded toward zero, as machine division rounds.
pub open spec fn trunc_div(a: int, b: int) -> int
    recommends
        b != 0,
{
    let q = abs_int(a) / abs_int(b);
    if (a < 0) != (b < 0) {
        -q
    } else {
        q
    }
}

/// How two real measures compare when they are known only through exact
/// payloads of different units. The sign of a measure is the sign of its
/// payload, so pairs of different sign are ordered by sign alone, and the
/// measures coincide only when both are zero; payloads of one strict sign
/// would need the irrational unit ratio to separate, and stay undecided.
pub open spec fn cross_unit_cmp(a: int, b: int) -> Option<Ordering> {
    if a == 0 && b == 0 {
        Some(Ordering::Equal)
    } else if (a < 0 && b >= 0) || (a == 0 && b > 0) {
        Some(Ordering::Less)
    } else if (a > 0 && b <= 0) || (a == 0 && b < 0) {
        Some(Ordering::Greater)
    } else {
        None
    }
}

impl Angle {
    /// The payload, whatever the unit.
    pub open spec fn value(self) -> int {
        match self {
            Angle::Radians(v) => v as int,
            Angle::Degrees(v) => v as int,
        }
    }

    /// Whether the value is tagged as degrees.
    pub open spec fn is_degrees(self) -> bool {
        match self {
            Angle::Radians(_) => false,
            Angle::Degrees(_) => true,
        }
    }

    /// Whether the value is tagged as radians.
    pub open spec fn is_radians(self) -> bool {
        !self.is_degrees()
    }

    /// Whether two angles carry the same unit tag.
    pub open spec fn same_unit(self, other: Angle) -> bool {
        self.is_degrees() == other.is_degrees()
    }

    /// Yield the value encoded in radians.
    ///
    /// A value tagged as radians is its own radian measure and is returned
    /// unchanged. Rewriting a degree payload in radians multiplies by the
    /// irrational pi/180, which exact arithmetic cannot do; that conversion
    /// belongs to the floating point layer.
    pub fn in_radians(self) -> (r: i64)
        requires
            self.is_radians(),
        ensures
            r as int == self.value(),
    {
        match self {
            Angle::Radians(v) => v,
            Angle::Degrees(_) => unreached(),
        }
    }

    /// Yield the value encoded in degrees.
    ///
    /// A value tagged as degrees is its own degree measure and is returned
    /// unchanged; the converse conversion belongs to the floating point
    /// layer, as with [`Angle::in_radians`].
    pub fn in_degrees(self) -> (r: i64)
        requires
            self.is_degrees(),
        ensures
            r as int == self.value(),
    {
        match self {
            Angle::Radians(_) => unreached(),
            Angle::Degrees(v) => v,
        }
    }

    /// An angle of 45° (half of a right angle).
    pub fn eighth() -> (a: Angle)
        ensures
            a == Angle::Degrees(45i64),
    {
        Angle::Degrees(45)
    }

    /// An angle of 90° (right angle).
    pub fn quarter() -> (a: Angle)
        ensures
            a == Angle::Degrees(90i64),
    {
        Angle::Degrees(90)
    }

    /// An angle of 180° (straight).
    pub fn half() -> (a: Angle)
        ensures
            a == Angle::Degrees(180i64),
    {
        Angle::Degrees(180)
    }

    /// An angle of 360° (perigon).
    pub fn full() -> (a: Angle)
        ensures
            a == Angle::Degrees(360i64),
    {
        Angle::Degrees(360)
    }

    /// The zero angle, tagged as radians.
    pub fn zero() -> (a: Angle)
        ensures
            a == Angle::Radians(0i64),
    {
        Angle::Radians(0)
    }

    /// Whether the payload is zero, whatever the unit.
    pub fn is_zero(&self) -> (r: bool)
        ensures
            r == (self.value() == 0),
    {
        match *self {
            Angle::Radians(v) => v == 0,
            Angle::Degrees(v) => v == 0,
        }
    }

    /// Compute the absolute angle. The unit is kept; only the payload loses
    /// its sign.
    pub fn abs(&self) -> (r: Angle)
        requires
            self.value() != i64::MIN,
        ensures
            r.is_degrees() == self.is_degrees(),
            r.value() == abs_int(self.value()),
    {
        match *self {
            Angle::Radians(v) => Angle::Radians(if v < 0 { -v } else { v }),
            Angle::Degrees(v) => Angle::Degrees(if v < 0 { -v } else { v }),
        }
    }

    /// An angle of the same unit whose payload represents the sign of the
    /// payload of `self`: 1 if it is positive, -1 if it is negative, 0 if it
    /// is zero.
    pub fn signum(&self) -> (r: Angle)
        ensures
            r.is_degrees() == self.is_degrees(),
            r.value() == (if self.value() > 0 {
                1int
            } else if self.value() < 0 {
                -1int
            } else {
                0int
            }),
    {
        match *self {
            Angle::Radians(v) => Angle::Radians(if v > 0 { 1 } else if v < 0 { -1 } else { 0 }),
            Angle::Degrees(v) => Angle::Degrees(if v > 0 { 1 } else if v < 0 { -1 } else { 0 }),
        }
    }

    /// Returns `true` if the payload is positive and `false` if it is zero
    /// or negative.
    pub fn is_positive(&self) -> (r: bool)
        ensures
            r == (self.value() > 0),
    {
        match *self {
            Angle::Radians(v) => v > 0,
            Angle::Degrees(v) => v > 0,
        }
    }

    /// Returns `true` if the payload is negative and `false` if it is zero
    /// or positive.
    pub fn is_negative(&self) -> (r: bool)
        ensures
            r == (self.value() < 0),
    {
        match *self {
            Angle::Radians(v) => v < 0,
            Angle::Degrees(v) => v < 0,
        }
    }

    /// Negation keeps the unit and negates the payload.
    pub fn neg(self) -> (r: Angle)
        requires
            self.value() != i64::MIN,
        ensures
            r.is_degrees() == self.is_degrees(),
            r.value() == -self.value(),
    {
        match self {
            Angle::Radians(v) => Angle::Radians(-v),
            Angle::Degrees(v) => Angle::Degrees(-v),
        }
    }

    /// The sum of two angles of one unit, in that unit: two degree values
    /// add as degrees, two radian values as radians, with no conversion and
    /// no rounding. Mixed pairs combine in radians after an approximate
    /// conversion, which is the floating point layer's.
    pub fn add(self, rhs: Angle) -> (r: Angle)
        requires
            self.same_unit(rhs),
            i64::MIN <= self.value() + rhs.value() <= i64::MAX,
        ensures
            r.is_degrees() == self.is_degrees(),
            r.value() == self.value() + rhs.value(),
    {
        match (self, rhs) {
            (Angle::Degrees(x), Angle::Degrees(y)) => Angle::Degrees(x + y),
            (Angle::Radians(x), Angle::Radians(y)) => Angle::Radians(x + y),
            _ => unreached(),
        }
    }

    /// The difference of two angles of one unit, in that unit, under the
    /// same unit selection as [`Angle::add`].
    pub fn sub(self, rhs: Angle) -> (r: Angle)
        requires
            self.same_unit(rhs),
            i64::MIN <= self.value() - rhs.value() <= i64::MAX,
        ensures
            r.is_degrees() == self.is_degrees(),
            r.value() == self.value() - rhs.value(),
    {
        match (self, rhs) {
            (Angle::Degrees(x), Angle::Degrees(y)) => Angle::Degrees(x - y),
            (Angle::Radians(x), Angle::Radians(y)) => Angle::Radians(x - y),
            _ => unreached(),
        }
    }

    /// In-place addition; it lands in the same unit and at the same payload
    /// as the value-returning [`Angle::add`].
    pub fn add_assign(&mut self, rhs: Angle)
        requires
            old(self).same_unit(rhs),
            i64::MIN <= old(self).value() + rhs.value() <= i64::MAX,
        ensures
            final(self).is_degrees() == old(self).is_degrees(),
            final(self).value() == old(self).value() + rhs.value(),
    {
        *self = (*self).add(rhs);
    }

    /// In-place subtraction; it lands in the same unit and at the same
    /// payload as the value-returning [`Angle::sub`].
    pub fn sub_assign(&mut self, rhs: Angle)
        requires
            old(self).same_unit(rhs),
            i64::MIN <= old(self).value() - rhs.value() <= i64::MAX,
        ensures
            final(self).is_degrees() == old(self).is_degrees(),
            final(self).value() == old(self).value() - rhs.value(),
    {
        *self = (*self).sub(rhs);
    }

    /// Multiplication by a bare scalar is unit-preserving: the payload is
    /// scaled and the tag is kept.
    pub fn scale(self, rhs: i64) -> (r: Angle)
        requires
            i64::MIN <= self.value() * rhs <= i64::MAX,
        ensures
            r.is_degrees() == self.is_degrees(),
            r.value() == self.value() * rhs,
    {
        match self {
            Angle::Radians(v) => Angle::Radians(v * rhs),
            Angle::Degrees(v) => Angle::Degrees(v * rhs),
        }
    }

    /// In-place scaling; it lands in the same unit and at the same payload
    /// as the value-returning [`Angle::scale`].
    pub fn scale_assign(&mut self, rhs: i64)
        requires
            i64::MIN <= old(self).value() * rhs <= i64::MAX,
        ensures
            final(self).is_degrees() == old(self).is_degrees(),
            final(self).value() == old(self).value() * rhs,
    {
        *self = (*self).scale(rhs);
    }

    /// Division by a bare scalar is unit-preserving; the payload quotient is
    /// rounded toward zero, as machine division of integers rounds.
    pub fn div_scalar(self, rhs: i64) -> (r: Angle)
        requires
            rhs != 0,
            !(self.value() == i64::MIN && rhs == -1),
        ensures
            r.is_degrees() == self.is_degrees(),
            r.value() == trunc_div(self.value(), rhs as int),
    {
        match self {
            Angle::Radians(v) => Angle::Radians(div_trunc_exec(v, rhs)),
            Angle::Degrees(v) => Angle::Degrees(div_trunc_exec(v, rhs)),
        }
    }

    /// In-place division by a scalar; it lands in the same unit and at the
    /// same payload as the value-returning [`Angle::div_scalar`].
    pub fn div_scalar_assign(&mut self, rhs: i64)
        requires
            rhs != 0,
            !(old(self).value() == i64::MIN && rhs == -1),
        ensures
            final(self).is_degrees() == old(self).is_degrees(),
            final(self).value() == trunc_div(old(self).value(), rhs as int),
    {
        *self = (*self).div_scalar(rhs);
    }

    /// Create a new angle by normalizing the value into the range of one
    /// turn, `[0, 360)`°. A payload already in range is returned unchanged;
    /// otherwise the remainder modulo the turn is taken, and a negative
    /// remainder is folded into range by one more turn. The unit tag is
    /// kept. A radian payload would need the irrational period 2·pi, so
    /// normalizing it is the floating point layer's.
    pub fn normalized(self) -> (r: Angle)
        requires
            self.is_degrees(),
        ensures
            r.is_degrees(),
            0 <= r.value() < 360,
            r.value() % 360 == self.value() % 360,
            0 <= self.value() < 360 ==> r == self,
    {
        match self {
            Angle::Radians(_) => unreached(),
            Angle::Degrees(v) => Angle::Degrees(normalize_value(v, 360)),
        }
    }

    /// Computes the minimal unsigned distance between two angles along the
    /// circle: the smaller of the two arcs that join them, at most half a
    /// turn. The operands need not be normalized. The result is returned in
    /// degrees, in `[0, 180]`; radian operands would need the irrational
    /// period and belong to the floating point layer.
    pub fn min_dist(self, other: Angle) -> (d: Angle)
        requires
            self.is_degrees(),
            other.is_degrees(),
            -(i64::MAX as int) <= self.value() - other.value() <= i64::MAX as int,
        ensures
            d.is_degrees(),
            0 <= d.value() <= 180,
            d.value() == circ_dist(self.value(), other.value(), 360),
    {
        match (self, other) {
            (Angle::Degrees(x), Angle::Degrees(y)) => Angle::Degrees(circ_min_dist(x, y, 360)),
            _ => unreached(),
        }
    }

    /// Total comparison of two angles of one unit, by their payloads
    /// directly: on such pairs the partial order always decides. (Ordering
    /// a mixed pair totally would take the irrational unit ratio; the
    /// partial order answers what can be answered exactly.)
    pub fn cmp(&self, other: &Angle) -> (r: Ordering)
        requires
            self.same_unit(*other),
        ensures
            Some(r) == self.partial_cmp_spec(other),
            r == Ordering::Equal <==> self.value() == other.value(),
            r == Ordering::Less <==> self.value() < other.value(),
            r == Ordering::Greater <==> self.value() > other.value(),
    {
        let a: i64 = match *self {
            Angle::Radians(v) => v,
            Angle::Degrees(v) => v,
        };
        let b: i64 = match *other {
            Angle::Radians(v) => v,
            Angle::Degrees(v) => v,
        };
        if a < b {
            Ordering::Less
        } else if a == b {
            Ordering::Equal
        } else {
            Ordering::Greater
        }
    }

    /// Approximate equality within an absolute tolerance on the payloads,
    /// compared directly in the shared unit: two radian values compare as
    /// radians, two degree values as degrees, with no conversion error.
    pub fn abs_diff_eq(&self, other: &Angle, epsilon: i64) -> (r: bool)
        requires
            self.same_unit(*other),
            epsilon >= 0,
            -(i64::MAX as int) <= self.value() - other.value() <= i64::MAX as int,
        ensures
            r == (abs_int(self.value() - other.value()) <= epsilon),
    {
        let a: i64 = match *self {
            Angle::Radians(v) => v,
            Angle::Degrees(v) => v,
        };
        let b: i64 = match *other {
            Angle::Radians(v) => v,
            Angle::Degrees(v) => v,
        };
        let d: i64 = if a >= b { a - b } else { b - a };
        d <= epsilon
    }
}

/// Machine division of two payloads, with its quotient pinned to the
/// rounded-toward-zero description that [`trunc_div`] gives. A negative
/// divisor is rewritten as a negated quotient by a positive one.
fn div_trunc_exec(v: i64, k: i64) -> (q: i64)
    requires
        k != 0,
        !(v == i64::MIN && k == -1),
    ensures
        q as int == trunc_div(v as int, k as int),
{
    if k > 0 {
        let q: i64 = v / k;
        proof {
            assert(v >= 0 ==> q as int == v as int / k as int);
            assert(v < 0 ==> q as int == -((-(v as int)) / (k as int)));
        }
        q
    } else if k == i64::MIN {
        proof {
            if v != i64::MIN {
                lemma_basic_div(abs_int(v as int), -(i64::MIN as int));
            }
        }
        if v == i64::MIN {
            1
        } else {
            0
        }
    } else {
        let q0: i64 = v / (-k);
        proof {
            assert(v >= 0 ==> q0 as int == v as int / (-(k as int)));
            assert(v < 0 ==> q0 as int == -((-(v as int)) / (-(k as int))));
            if k < -1 {
                lemma_div_is_ordered_by_denominator(abs_int(v as int), 2, -(k as int));
                assert(abs_int(q0 as int) <= abs_int(v as int) / 2);
            }
            assert(q0 as int != i64::MIN as int);
        }
        -q0
    }
}

/// Strict equality is unit-agnostic: two values of one unit compare by
/// their payloads directly, and a mixed pair compares by its exact real
/// measures, which (the unit ratio being irrational) coincide exactly when
/// both payloads are zero.
impl PartialEq for Angle {
    fn eq(&self, other: &Angle) -> (r: bool) {
        match (*self, *other) {
            (Angle::Degrees(a), Angle::Degrees(b)) => a == b,
            (Angle::Radians(a), Angle::Radians(b)) => a == b,
            (Angle::Radians(a), Angle::Degrees(b)) => a == 0 && b == 0,
            (Angle::Degrees(a), Angle::Radians(b)) => a == 0 && b == 0,
        }
    }
}

impl vstd::std_specs::cmp::PartialEqSpecImpl for Angle {
    open spec fn obeys_eq_spec() -> bool {
        true
    }

    open spec fn eq_spec(&self, other: &Angle) -> bool {
        if self.same_unit(*other) {
            self.value() == other.value()
        } else {
            self.value() == 0 && other.value() == 0
        }
    }
}

/// Ordering is unit-agnostic in the same way: two values of one unit are
/// ordered by their payloads directly; a mixed pair is ordered by the signs
/// of its payloads where the signs differ, and left undecided (`None`)
/// where deciding would take the irrational unit ratio.
impl PartialOrd for Angle {
    fn partial_cmp(&self, other: &Angle) -> (r: Option<Ordering>) {
        match (*self, *other) {
            (Angle::Radians(a), Angle::Radians(b)) => {
                if a < b {
                    Some(Ordering::Less)
                } else if a == b {
                    Some(Ordering::Equal)
                } else {
                    Some(Ordering::Greater)
                }
            },
            (Angle::Degrees(a), Angle::Degrees(b)) => {
                if a < b {
                    Some(Ordering::Less)
                } else if a == b {
                    Some(Ordering::Equal)
                } else {
                    Some(Ordering::Greater)
                }
            },
            (Angle::Radians(a), Angle::Degrees(b)) => cross_cmp_exec(a, b),
            (Angle::Degrees(a), Angle::Radians(b)) => cross_cmp_exec(a, b),
        }
    }
}

impl vstd::std_specs::cmp::PartialOrdSpecImpl for Angle {
    open spec fn obeys_partial_cmp_spec() -> bool {
        true
    }

    open spec fn partial_cmp_spec(&self, other: &Angle) -> Option<Ordering> {
        if self.same_unit(*other) {
            if self.value() < other.value() {
                Some(Ordering::Less)
            } else if self.value() == other.value() {
                Some(Ordering::Equal)
            } else {
                Some(Ordering::Greater)
            }
        } else {
            cross_unit_cmp(self.value(), other.value())
        }
    }
}

/// Order two payloads of different units by sign alone, as
/// [`cross_unit_cmp`] describes.
fn cross_cmp_exec(a: i64, b: i64) -> (r: Option<Ordering>)
    ensures
        r == cross_unit_cmp(a as int, b as int),
{
    if a == 0 && b == 0 {
        Some(Ordering::Equal)
    } else if (a < 0 && b >= 0) || (a == 0 && b > 0) {
        Some(Ordering::Less)
    } else if (a > 0 && b <= 0) || (a == 0 && b < 0) {
        Some(Ordering::Greater)
    } else {
        None
    }
}

} // verus!
