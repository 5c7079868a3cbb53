//! Per-instance transforms: a position, a rotation, and the policy that
//! picks the rotation for a freshly generated grid position.
//!
//! A grid cell's rotation is derived from its position: the identity
//! rotation when the position compares equal to the zero vector (a rotation
//! axis cannot be normalized out of it), otherwise a fixed-angle rotation
//! about the normalized position. The floating-point construction of that
//! non-degenerate rotation happens outside the library; the policy choice
//! between the two, and the exact identity pattern, are owned and proved
//! here.

use vstd::prelude::*;

use crate::fbits::F32_ONE_BITS;
use crate::fbits::F32_POS_ZERO_BITS;
use crate::fbits::is_zero_bits;
use crate::fbits::word_is_zero;

verus! {

/// A 3-component vector of binary32 scalars, each carried as its bit
/// pattern.
#[derive(Clone, Copy, Debug, PartialEq, Eq, Structural)]
pub struct Vec3Bits {
    pub x: u32,
    pub y: u32,
    pub z: u32,
}

/// A quaternion of binary32 scalars carried as bit patterns, in `(x, y, z)`
/// vector-part, `w` scalar-part form.
#[derive(Clone, Copy, Debug, PartialEq, Eq, Structural)]
pub struct QuatBits {
    pub x: u32,
    pub y: u32,
    pub z: u32,
    pub w: u32,
}

/// One grid cell's spatial transform.
#[derive(Clone, Copy, Debug, PartialEq, Eq, Structural)]
pub struct Instance {
    pub position: Vec3Bits,
    pub rotation: QuatBits,
}

/// A vector compares equal to the zero vector exactly when every component
/// is a signed-zero pattern.
pub open spec fn spec_is_zero_vec(v: Vec3Bits) -> bool {
    is_zero_bits(v.x) && is_zero_bits(v.y) && is_zero_bits(v.z)
}

/// Runtime test for `spec_is_zero_vec`.
pub fn vec_is_zero(v: &Vec3Bits) -> (r: bool)
    ensures
        r == spec_is_zero_vec(*v),
{
    word_is_zero(v.x) && word_is_zero(v.y) && word_is_zero(v.z)
}

/// The identity rotation: a zero-angle turn about the z unit axis, whose
/// quaternion is `(+0, +0, +0)` with scalar part `1.0`.
pub open spec fn spec_identity_rotation() -> QuatBits {
    QuatBits {
        x: F32_POS_ZERO_BITS,
        y: F32_POS_ZERO_BITS,
        z: F32_POS_ZERO_BITS,
        w: F32_ONE_BITS,
    }
}

/// Builds the identity rotation.
pub fn identity_rotation() -> (q: QuatBits)
    ensures
        q == spec_identity_rotation(),
{
    QuatBits {
        x: F32_POS_ZERO_BITS,
        y: F32_POS_ZERO_BITS,
        z: F32_POS_ZERO_BITS,
        w: F32_ONE_BITS,
    }
}

/// The rotation a generated instance receives: the identity when its
/// position is degenerate (equal to the zero vector), otherwise the
/// caller-supplied candidate built about the normalized position.
pub open spec fn spec_rotation_for(position: Vec3Bits, candidate: QuatBits) -> QuatBits {
    if spec_is_zero_vec(position) {
        spec_identity_rotation()
    } else {
        candidate
    }
}

impl Instance {
    /// Assembles one instance, applying the degenerate-position policy: a
    /// position equal to the zero vector never keeps the candidate rotation
    /// (which would have come from normalizing a zero-length axis) but gets
    /// the identity instead.
    pub fn new(position: Vec3Bits, candidate_rotation: QuatBits) -> (inst: Instance)
        ensures
            inst.position == position,
            inst.rotation == spec_rotation_for(position, candidate_rotation),
    {
        let rotation = if vec_is_zero(&position) {
            identity_rotation()
        } else {
            candidate_rotation
        };
        Instance { position, rotation }
    }
}

} // verus!
