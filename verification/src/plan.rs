//! The per-call render plan: every size, count and pitch that the GPU-side
//! stages are driven with.
//!
//! A plan is computed once from the requested pixel dimensions and the
//! parameter payload, before any device resource exists. It fixes the
//! workgroup grid that covers the image, the copy row pitch rounded up to
//! the device's copy alignment, the staging-buffer size, and the tight size
//! of the pixel buffer handed back to the caller.

use vstd::prelude::*;

use crate::error::RenderError;
use crate::params::PushParams;

verus! {

/// Pixels per workgroup along each axis of the compute grid.
pub const WORKGROUP_DIM: u32 = 8;

/// Bytes per texel of the 4-channel, 8-bit output image.
pub const BYTES_PER_PIXEL: u32 = 4;

/// The alignment the device demands of a row pitch in an image-to-buffer copy.
pub const ROW_PITCH_ALIGN: u32 = 256;

/// How many workgroups of 8 pixels cover `extent` pixels: the ceiling of
/// `extent / 8`.
pub open spec fn workgroups_for(extent: u32) -> int {
    (extent + 7) / 8
}

/// The tight row size `4 * width`, rounded up to the 256-byte copy alignment.
pub open spec fn padded_row_bytes(width: u32) -> int {
    let tight = 4 * width;
    if tight % 256 == 0 {
        tight
    } else {
        tight + 256 - (tight % 256)
    }
}

/// Number of workgroups that cover `extent` pixels at 8 pixels per group.
pub fn workgroup_count(extent: u32) -> (r: u32)
    ensures
        r == workgroups_for(extent),
        8 * r >= extent,
        extent > 0 ==> 8 * (r - 1) < extent,
{
    if extent % WORKGROUP_DIM == 0 {
        extent / WORKGROUP_DIM
    } else {
        extent / WORKGROUP_DIM + 1
    }
}

/// The copy row pitch for an image `width` pixels wide: at least the tight
/// `4 * width` bytes, aligned up to 256.
pub fn aligned_bytes_per_row(width: u32) -> (r: u32)
    requires
        4 * width + 256 <= u32::MAX,
    ensures
        r == padded_row_bytes(width),
        r % 256 == 0,
        4 * width <= r < 4 * width + 256,
{
    let tight: u32 = BYTES_PER_PIXEL * width;
    let rem: u32 = tight % ROW_PITCH_ALIGN;
    let r: u32 = if rem == 0 {
        tight
    } else {
        tight + (ROW_PITCH_ALIGN - rem)
    };
    proof {
        if rem != 0 {
            let t = tight as int;
            let q = t / 256;
            vstd::arithmetic::div_mod::lemma_fundamental_div_mod(t, 256);
            assert(r == 256 * (q + 1));
            vstd::arithmetic::div_mod::lemma_mod_multiples_basic(q + 1, 256);
        }
    }
    r
}

/// One render call's worth of derived quantities. All device-side stages
/// are driven from these fields alone.
#[derive(Clone, Copy, Debug, PartialEq, Eq, Structural)]
pub struct RenderPlan {
    /// Output image width in pixels.
    pub width: u32,
    /// Output image height in pixels.
    pub height: u32,
    /// Workgroups dispatched along the x axis.
    pub workgroups_x: u32,
    /// Workgroups dispatched along the y axis.
    pub workgroups_y: u32,
    /// Row pitch of the image-to-buffer copy, aligned to 256 bytes.
    pub bytes_per_row: u32,
    /// Rows per image of the copy: the image height.
    pub rows_per_image: u32,
    /// Size of the host-readable staging buffer: `bytes_per_row * height`.
    pub staging_bytes: u64,
    /// Size of the tight pixel buffer returned to the caller: `4 * width * height`.
    pub pixel_bytes: u64,
    /// The inline parameter payload pushed with the dispatch.
    pub params: PushParams,
}

/// The internal consistency of a plan: the grid covers the image, the pitch
/// is aligned and at least tight, and the two byte sizes follow from the
/// dimensions.
pub open spec fn plan_wf(p: RenderPlan) -> bool {
    &&& p.width > 0
    &&& p.height > 0
    &&& p.workgroups_x == workgroups_for(p.width)
    &&& p.workgroups_y == workgroups_for(p.height)
    &&& 8 * p.workgroups_x >= p.width
    &&& 8 * p.workgroups_y >= p.height
    &&& p.bytes_per_row == padded_row_bytes(p.width)
    &&& 4 * p.width <= p.bytes_per_row < 4 * p.width + 256
    &&& p.bytes_per_row % 256 == 0
    &&& p.rows_per_image == p.height
    &&& p.staging_bytes == p.bytes_per_row * p.height
    &&& p.pixel_bytes == 4 * p.width * p.height
    &&& p.pixel_bytes <= p.staging_bytes
    &&& p.pixel_bytes <= usize::MAX
}

/// Builds the plan for one render call, or rejects a zero-pixel request.
///
/// The preconditions are the machine limits of the copy interface and of
/// host memory: the row pitch is a 32-bit quantity, and the tight pixel
/// buffer must be addressable.
pub fn build_plan(width: u32, height: u32, params: PushParams) -> (r: Result<
    RenderPlan,
    RenderError,
>)
    requires
        4 * width + 256 <= u32::MAX,
        4 * width * height <= usize::MAX,
    ensures
        r is Ok <==> (width > 0 && height > 0),
        r is Err ==> r->Err_0 == RenderError::InvalidResolution,
        r is Ok ==> {
            let p = r->Ok_0;
            &&& plan_wf(p)
            &&& p.width == width
            &&& p.height == height
            &&& p.params == params
        },
{
    if width == 0 || height == 0 {
        return Err(RenderError::InvalidResolution);
    }
    let workgroups_x = workgroup_count(width);
    let workgroups_y = workgroup_count(height);
    let bytes_per_row = aligned_bytes_per_row(width);
    proof {
        lemma_mul_le_mono(4 * width as int, bytes_per_row as int, height as int);
        lemma_mul_le_mono(
            bytes_per_row as int,
            u32::MAX as int,
            height as int,
        );
        lemma_mul_le_mono(height as int, u32::MAX as int, u32::MAX as int);
    }
    let staging_bytes: u64 = (bytes_per_row as u64) * (height as u64);
    let pixel_bytes: u64 = (4u64 * (width as u64)) * (height as u64);
    Ok(
        RenderPlan {
            width,
            height,
            workgroups_x,
            workgroups_y,
            bytes_per_row,
            rows_per_image: height,
            staging_bytes,
            pixel_bytes,
            params,
        },
    )
}

/// Multiplying both sides of `a <= b` by a nonnegative `c` keeps the order.
pub(crate) proof fn lemma_mul_le_mono(a: int, b: int, c: int)
    requires
        a <= b,
        0 <= c,
    ensures
        a * c <= b * c,
{
    assert(a * c <= b * c) by (nonlinear_arith)
        requires
            a <= b,
            0 <= c,
    ;
}

/// Every pixel of the image lies inside the dispatched workgroup grid: the
/// group `(x / 8, y / 8)` exists in the grid and its invocation `(x, y)`
/// falls inside the image bounds it is given.
pub proof fn lemma_grid_covers_image(p: RenderPlan, x: u32, y: u32)
    requires
        plan_wf(p),
        x < p.width,
        y < p.height,
    ensures
        x / 8 < p.workgroups_x,
        y / 8 < p.workgroups_y,
        x < 8 * p.workgroups_x,
        y < 8 * p.workgroups_y,
{
    assert(x / 8 < p.workgroups_x && y / 8 < p.workgroups_y) by (nonlinear_arith)
        requires
            x < 8 * p.workgroups_x,
            y < 8 * p.workgroups_y,
    ;
}

} // verus!
