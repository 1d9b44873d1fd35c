//! Deriving the device limits a render negotiates for.
//!
//! The adapter reports what the hardware can do; the render requests a
//! device whose resolution limits match the adapter's and whose
//! inline-parameter capacity is widened to a fixed 128 bytes: the 16-byte
//! parameter block plus headroom. Every other requested limit stays at its
//! default and is outside this model.

use vstd::prelude::*;

use crate::params::PUSH_BLOCK_BYTES;

verus! {

/// Inline-parameter capacity demanded of the device.
pub const REQUIRED_PUSH_CAPACITY: u32 = 128;

/// The device limits this render reads or sets: the three texture
/// resolution limits and the inline-parameter capacity.
#[derive(Clone, Copy, Debug, PartialEq, Eq, Structural)]
pub struct DeviceLimits {
    /// Largest 1D texture extent the device takes.
    pub max_texture_dimension_1d: u32,
    /// Largest 2D texture extent the device takes.
    pub max_texture_dimension_2d: u32,
    /// Largest 3D texture extent the device takes.
    pub max_texture_dimension_3d: u32,
    /// Largest inline parameter block the device takes, in bytes.
    pub max_push_constant_size: u32,
}

/// The limits to request for the logical device: the adapter's reported
/// resolution limits, and an inline-parameter capacity of 128 bytes, which
/// covers the 16-byte parameter block.
pub fn request_limits(adapter: &DeviceLimits) -> (r: DeviceLimits)
    ensures
        r.max_texture_dimension_1d == adapter.max_texture_dimension_1d,
        r.max_texture_dimension_2d == adapter.max_texture_dimension_2d,
        r.max_texture_dimension_3d == adapter.max_texture_dimension_3d,
        r.max_push_constant_size == REQUIRED_PUSH_CAPACITY,
        r.max_push_constant_size >= PUSH_BLOCK_BYTES,
{
    DeviceLimits {
        max_texture_dimension_1d: adapter.max_texture_dimension_1d,
        max_texture_dimension_2d: adapter.max_texture_dimension_2d,
        max_texture_dimension_3d: adapter.max_texture_dimension_3d,
        max_push_constant_size: REQUIRED_PUSH_CAPACITY,
    }
}

/// Whether a device with these limits can run one render at the given
/// pixel dimensions: the output image fits the 2D texture limit and the
/// parameter block fits the inline-parameter capacity.
pub fn limits_admit(limits: &DeviceLimits, width: u32, height: u32) -> (r: bool)
    ensures
        r == (width <= limits.max_texture_dimension_2d && height
            <= limits.max_texture_dimension_2d && limits.max_push_constant_size
            >= PUSH_BLOCK_BYTES),
{
    width <= limits.max_texture_dimension_2d && height <= limits.max_texture_dimension_2d
        && limits.max_push_constant_size as usize >= PUSH_BLOCK_BYTES
}

} // verus!
