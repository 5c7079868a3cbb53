//! Grid-instance transform generation and GPU-ready raw encoding.
//!
//! The library produces an ordered set of per-instance spatial transforms
//! (position plus rotation) laid out on a square grid, and encodes each one
//! as a 4x4 homogeneous matrix in a flat, byte-exact layout meant for an
//! instanced vertex stream.
//!
//! Every scalar here is the raw bit pattern of an IEEE-754 binary32 value,
//! carried as a `u32`. The floating-point evaluation itself (vector
//! subtraction, axis normalization, quaternion construction) is performed by
//! the surrounding application; the library owns and verifies everything
//! discrete: grid enumeration order, the degenerate-zero rotation policy,
//! matrix assembly, and the byte layout of the encoded buffer.

pub mod component;
pub mod fbits;
pub mod laws;
pub mod raw;
pub mod transform;
