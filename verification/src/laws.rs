//! Laws that relate the operations of the crate to one another.
//!
//! Each proof function here states a property of the angle abstraction as a
//! whole, beyond the contract of any single operation.

use crate::angle::Angle;
use crate::circle::{circ_dist, lemma_circ_dist_congruent};
use core::cmp::Ordering;
use vstd::prelude::*;
use vstd::std_specs::cmp::{PartialEqSpec, PartialOrdSpec};

verus! {

/// Round trip: reading an angle's payload in the angle's own unit and
/// rebuilding an angle of that unit restores the angle exactly. (Reading it
/// in the other unit goes through an approximate conversion and restores
/// the angle only to within a tolerance; that is the floating point
/// layer's round trip.)
pub proof fn lemma_round_trip(a: Angle)
    ensures
        a.is_degrees() ==> Angle::Degrees(a.value() as i64) == a,
        a.is_radians() ==> Angle::Radians(a.value() as i64) == a,
{
}

/// An angle is nothing but its unit tag and its payload: two angles that
/// agree on both are the same angle. This is what lets the in-place and the
/// value-returning form of an arithmetic operation, whose contracts pin the
/// same tag and the same payload, be used interchangeably.
pub proof fn lemma_forms_agree(a: Angle, b: Angle)
    requires
        a.is_degrees() == b.is_degrees(),
        a.value() == b.value(),
    ensures
        a == b,
{
}

/// For two degree values, equality and ordering go by the degree payloads
/// directly: no conversion, and so no conversion round-trip error, enters
/// the comparison.
pub proof fn lemma_degrees_compare_directly(a: Angle, b: Angle)
    requires
        a.is_degrees(),
        b.is_degrees(),
    ensures
        a.eq_spec(&b) <==> a.value() == b.value(),
        a.partial_cmp_spec(&b) == Some(Ordering::Less) <==> a.value() < b.value(),
        a.partial_cmp_spec(&b) == Some(Ordering::Equal) <==> a.value() == b.value(),
        a.partial_cmp_spec(&b) == Some(Ordering::Greater) <==> a.value() > b.value(),
{
}

/// The minimal distance between two degree angles does not change when an
/// operand is replaced by one of the same direction, that is, by one whose
/// payload agrees modulo one turn — as an angle and its normalized form
/// do. Together with the contract of [`Angle::min_dist`], whose result is
/// exactly the circular distance of the payloads, this says that
/// normalizing the operands first cannot change the distance.
pub proof fn lemma_min_dist_ignores_turns(a: Angle, b: Angle, a2: Angle, b2: Angle)
    requires
        a.is_degrees(),
        b.is_degrees(),
        a2.is_degrees(),
        b2.is_degrees(),
        a2.value() % 360 == a.value() % 360,
        b2.value() % 360 == b.value() % 360,
    ensures
        circ_dist(a2.value(), b2.value(), 360) == circ_dist(a.value(), b.value(), 360),
{
    lemma_circ_dist_congruent(a.value(), b.value(), a2.value(), b2.value(), 360);
}

/// Equality and ordering agree wherever ordering decides: two angles are
/// equal exactly when they compare as `Equal`.
pub proof fn lemma_eq_matches_ordering(a: Angle, b: Angle)
    ensures
        a.eq_spec(&b) <==> a.partial_cmp_spec(&b) == Some(Ordering::Equal),
{
}

} // verus!
