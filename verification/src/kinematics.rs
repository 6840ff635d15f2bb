//! Rules for the angles derived from a velocity.

use vstd::prelude::*;
use crate::binary64::Binary64;

verus! {

/// The azimuth recorded for a velocity: the angle of its horizontal part,
/// as the caller computed it, or 0 where the velocity has no horizontal
/// part and so no azimuth.
pub open spec fn spec_azimuth_or_zero(horizontal_speed: Binary64, azimuth: Binary64) -> Binary64 {
    if horizontal_speed.spec_is_zero() {
        Binary64::spec_zero()
    } else {
        azimuth
    }
}

/// The azimuth to record for a velocity with the given horizontal speed.
/// `azimuth` is the angle computed from the components; it is passed over
/// when the horizontal speed is zero, whatever it holds.
#[verifier::when_used_as_spec(spec_azimuth_or_zero)]
pub fn azimuth_or_zero(horizontal_speed: Binary64, azimuth: Binary64) -> (recorded: Binary64)
    ensures
        recorded == spec_azimuth_or_zero(horizontal_speed, azimuth),
{
    if horizontal_speed.is_zero() {
        Binary64::zero()
    } else {
        azimuth
    }
}

} // verus!
