//! Turning the mapped staging bytes into the tight pixel buffer.
//!
//! The image-to-buffer copy writes each row at a pitch that the device's
//! copy alignment may have padded beyond the tight `4 * width` bytes. The
//! caller is promised a row-major RGBA8 buffer with no padding between
//! rows, so the readback step keeps the first `4 * width` bytes of each row
//! and drops the pad.

use vstd::prelude::*;

use crate::plan::RenderPlan;
use crate::plan::lemma_mul_le_mono;
use crate::plan::plan_wf;

verus! {

/// Byte `i` of row `row` of a tightly packed RGBA8 buffer `width` pixels wide.
pub open spec fn tight_byte(s: Seq<u8>, width: u32, row: u32, i: int) -> u8 {
    s[row * (4 * width) + i]
}

/// Byte `i` of row `row` of a buffer whose rows sit `pitch` bytes apart.
pub open spec fn staged_byte(s: Seq<u8>, pitch: u32, row: u32, i: int) -> u8 {
    s[row * pitch + i]
}

/// Repacks `height` rows read at pitch `bytes_per_row` into the tight,
/// row-major pixel buffer: byte `i` of row `row` of the result is byte `i`
/// of row `row` of the staging data, and nothing else is kept.
pub fn tighten_rows(data: &Vec<u8>, width: u32, height: u32, bytes_per_row: u32) -> (r: Vec<u8>)
    requires
        4 * width <= bytes_per_row,
        bytes_per_row * height <= data@.len(),
    ensures
        r@.len() == 4 * width * height,
        forall|row: u32, i: int|
            row < height && 0 <= i < 4 * width ==> #[trigger] tight_byte(r@, width, row, i)
                == staged_byte(data@, bytes_per_row, row, i),
{
    let w4: u32 = 4 * width;
    let mut out: Vec<u8> = Vec::new();
    let mut row: u32 = 0;
    while row < height
        invariant
            row <= height,
            w4 == 4 * width,
            4 * width <= bytes_per_row,
            bytes_per_row * height <= data@.len(),
            out@.len() == row * (4 * width),
            forall|r2: u32, j: int|
                r2 < row && 0 <= j < 4 * width ==> #[trigger] tight_byte(out@, width, r2, j)
                    == staged_byte(data@, bytes_per_row, r2, j),
        decreases height - row,
    {
        let n: usize = data.len();
        proof {
            lemma_mul_le_mono(row as int, height as int, bytes_per_row as int);
            lemma_mul_le_mono(row as int + 1, height as int, bytes_per_row as int);
            assert((row + 1) * bytes_per_row == row * bytes_per_row + bytes_per_row)
                by (nonlinear_arith);
            assert(row * bytes_per_row + bytes_per_row <= n);
        }
        let base: usize = (row as usize) * (bytes_per_row as usize);
        let mut i: u32 = 0;
        while i < w4
            invariant
                i <= w4,
                row < height,
                w4 == 4 * width,
                4 * width <= bytes_per_row,
                bytes_per_row * height <= data@.len(),
                base == row * bytes_per_row,
                n == data@.len(),
                base + bytes_per_row <= n,
                out@.len() == row * (4 * width) + i,
                forall|r2: u32, j: int|
                    r2 < row && 0 <= j < 4 * width ==> #[trigger] tight_byte(out@, width, r2, j)
                        == staged_byte(data@, bytes_per_row, r2, j),
                forall|j: int|
                    0 <= j < i ==> #[trigger] tight_byte(out@, width, row, j) == staged_byte(
                        data@,
                        bytes_per_row,
                        row,
                        j,
                    ),
            decreases w4 - i,
        {
            let b: u8 = data[base + i as usize];
            let ghost pre: Seq<u8> = out@;
            out.push(b);
            i = i + 1;
            proof {
                assert forall|r2: u32, j: int|
                    r2 < row && 0 <= j < 4 * width implies #[trigger] tight_byte(
                    out@,
                    width,
                    r2,
                    j,
                ) == staged_byte(data@, bytes_per_row, r2, j) by {
                    lemma_index_in_earlier_row(r2 as int, j, row as int, 4 * width as int);
                    assert(tight_byte(pre, width, r2, j) == staged_byte(
                        data@,
                        bytes_per_row,
                        r2,
                        j,
                    ));
                    assert(out@[r2 * (4 * width) + j] == pre[r2 * (4 * width) + j]);
                }
                assert forall|j: int| 0 <= j < i implies #[trigger] tight_byte(out@, width, row, j)
                    == staged_byte(data@, bytes_per_row, row, j) by {
                    if j < i - 1 {
                        assert(tight_byte(pre, width, row, j) == staged_byte(
                            data@,
                            bytes_per_row,
                            row,
                            j,
                        ));
                        assert(out@[row * (4 * width) + j] == pre[row * (4 * width) + j]);
                    } else {
                        assert(out@[row * (4 * width) + j] == b);
                        assert(staged_byte(data@, bytes_per_row, row, j) == data@[base + j]);
                    }
                }
            }
        }
        row = row + 1;
        proof {
            assert(row * (4 * width) == (row - 1) * (4 * width) + (4 * width)) by (nonlinear_arith);
            assert forall|r2: u32, j: int|
                r2 < row && 0 <= j < 4 * width implies #[trigger] tight_byte(out@, width, r2, j)
                == staged_byte(data@, bytes_per_row, r2, j) by {
                assert(r2 < row - 1 || r2 == row - 1);
            }
        }
    }
    proof {
        assert(out@.len() == height * (4 * width));
        assert(height * (4 * width) == 4 * width * height) by (nonlinear_arith);
    }
    out
}

/// The Synchronizer's last step on the mapped staging bytes of a planned
/// render: yields the pixel buffer owed to the caller, exactly
/// `plan.pixel_bytes` long, each pixel byte taken from its staged row.
pub fn readback_pixels(plan: &RenderPlan, data: &Vec<u8>) -> (r: Vec<u8>)
    requires
        plan_wf(*plan),
        data@.len() >= plan.staging_bytes,
    ensures
        r@.len() == plan.pixel_bytes,
        r@.len() == 4 * plan.width * plan.height,
        forall|row: u32, i: int|
            row < plan.height && 0 <= i < 4 * plan.width ==> #[trigger] tight_byte(
                r@,
                plan.width,
                row,
                i,
            ) == staged_byte(data@, plan.bytes_per_row, row, i),
{
    tighten_rows(data, plan.width, plan.height, plan.bytes_per_row)
}

/// A byte index inside one of the first `row` tight rows lies below the
/// start of row `row`.
proof fn lemma_index_in_earlier_row(r2: int, j: int, row: int, w: int)
    requires
        0 <= r2 < row,
        0 <= j < w,
    ensures
        0 <= r2 * w + j < row * w,
{
    assert(0 <= r2 * w + j < row * w) by (nonlinear_arith)
        requires
            0 <= r2 < row,
            0 <= j < w,
    ;
}

} // verus!
