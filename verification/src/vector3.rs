//! Three binary64 components.

use vstd::prelude::*;
use crate::binary64::Binary64;

verus! {

/// A vector of three binary64 components.  Its arithmetic is the caller's;
/// here it is carried and taken apart.
#[derive(Clone, Copy, Debug)]
pub struct Vector3 {
    pub x: Binary64,
    pub y: Binary64,
    pub z: Binary64,
}

impl Vector3 {
    /// The vector with the given components.
    pub fn new(x: Binary64, y: Binary64, z: Binary64) -> (v: Vector3)
        ensures
            v.x == x,
            v.y == y,
            v.z == z,
    {
        Vector3 { x, y, z }
    }
}

} // verus!
