//! Verified discrete core of a projectile-flight model.
//!
//! Real quantities are carried as IEEE 754 binary64 bit patterns
//! ([`binary64::Binary64`]), and everything here is decided by comparing
//! them:
//!
//! - [`atmosphere`] conditions the inputs of an atmosphere and chooses the
//!   coefficients of the Tetens equation;
//! - [`kinematics`] settles the azimuth of a velocity that has none;
//! - [`integrator`] steps a flight until its stopping rule is met.
//!
//! Evaluating the physical formulas is the caller's part: the integrator is
//! handed the function that advances a state by one time step.

pub mod atmosphere;
pub mod binary64;
pub mod integrator;
pub mod kinematics;
pub mod vector3;
