//! Unit-tagged angles with exact integer payloads.
//!
//! An [`Angle`] is either a number of radians or a number of degrees, and
//! every operation keeps track of which, so that the two units can never be
//! confused. This crate is the exact core of the abstraction: representation,
//! unit bookkeeping, arithmetic, comparison, normalization and minimal
//! circular distance, all verified over integer payloads. Operations that
//! need irrational constants or transcendental functions (unit conversion by
//! a factor of pi, trigonometry, the circular mean) belong to a floating
//! point layer built on top of this core.

pub mod angle;
pub mod circle;
pub mod laws;

pub use angle::Angle;
pub use angle::Angle::Degrees;
pub use angle::Angle::Radians;
