//! Copying an image row by row between buffers whose rows lie at
//! different distances, as when pixels read back from one API are handed
//! to a texture of another.

use vstd::prelude::*;
use vstd::arithmetic::mul::lemma_mul_inequality;

verus! {

/// `rows` rows of `row_bytes` bytes each, `pitch` bytes apart, lie within
/// a buffer of `len` bytes.
pub open spec fn rows_fit(len: int, pitch: int, row_bytes: int, rows: int) -> bool {
    rows > 0 ==> (rows - 1) * pitch + row_bytes <= len
}

/// `dst` with the `n` bytes from `at` on replaced by the bytes of `src`
/// from `from` on.
pub open spec fn with_bytes(dst: Seq<u8>, at: int, src: Seq<u8>, from: int, n: int) -> Seq<u8> {
    Seq::new(
        dst.len(),
        |i: int|
            if at <= i < at + n {
                src[from + (i - at)]
            } else {
                dst[i]
            },
    )
}

/// `dst` after the first `rows` rows of `src` have been copied into it one
/// after the other, row `y` from offset `y * src_pitch` to offset
/// `y * dst_pitch`.
pub open spec fn rows_copied(
    src: Seq<u8>,
    src_pitch: int,
    dst: Seq<u8>,
    dst_pitch: int,
    row_bytes: int,
    rows: int,
) -> Seq<u8>
    decreases rows,
{
    if rows <= 0 {
        dst
    } else {
        with_bytes(
            rows_copied(src, src_pitch, dst, dst_pitch, row_bytes, rows - 1),
            (rows - 1) * dst_pitch,
            src,
            (rows - 1) * src_pitch,
            row_bytes,
        )
    }
}

/// Copying rows leaves the length of the destination as it was.
pub proof fn rows_copied_keeps_length(
    src: Seq<u8>,
    src_pitch: int,
    dst: Seq<u8>,
    dst_pitch: int,
    row_bytes: int,
    rows: int,
)
    ensures
        rows_copied(src, src_pitch, dst, dst_pitch, row_bytes, rows).len() == dst.len(),
    decreases rows,
{
    if rows > 0 {
        rows_copied_keeps_length(src, src_pitch, dst, dst_pitch, row_bytes, rows - 1);
    }
}

/// Copies `rows` rows of `row_bytes` bytes from `src`, where they lie
/// `src_pitch` bytes apart, into `dst`, where they lie `dst_pitch` bytes
/// apart. The rows are written in order, so where rows of the destination
/// overlap the later row wins.
pub fn copy_rows(
    src: &[u8],
    src_pitch: usize,
    dst: &mut [u8],
    dst_pitch: usize,
    row_bytes: usize,
    rows: usize,
)
    requires
        rows_fit(src@.len() as int, src_pitch as int, row_bytes as int, rows as int),
        rows_fit(old(dst)@.len() as int, dst_pitch as int, row_bytes as int, rows as int),
    ensures
        final(dst)@ == rows_copied(
            src@,
            src_pitch as int,
            old(dst)@,
            dst_pitch as int,
            row_bytes as int,
            rows as int,
        ),
{
    let ghost before = dst@;
    let src_len: usize = src.len();
    let dst_len: usize = dst.len();
    let mut y: usize = 0;
    while y < rows
        invariant
            y <= rows,
            before == old(dst)@,
            src@.len() == src_len,
            dst@.len() == dst_len == before.len(),
            rows_fit(src@.len() as int, src_pitch as int, row_bytes as int, rows as int),
            rows_fit(before.len() as int, dst_pitch as int, row_bytes as int, rows as int),
            dst@ == rows_copied(
                src@,
                src_pitch as int,
                before,
                dst_pitch as int,
                row_bytes as int,
                y as int,
            ),
        decreases rows - y,
    {
        proof {
            lemma_mul_inequality(y as int, rows - 1, src_pitch as int);
            lemma_mul_inequality(y as int, rows - 1, dst_pitch as int);
        }
        let src_at: usize = y * src_pitch;
        let dst_at: usize = y * dst_pitch;
        let ghost row_start = dst@;
        let mut x: usize = 0;
        while x < row_bytes
            invariant
                x <= row_bytes,
                src_at + row_bytes <= src@.len() == src_len,
                dst_at + row_bytes <= dst@.len() == dst_len,
                dst@.len() == row_start.len(),
                dst@ == with_bytes(row_start, dst_at as int, src@, src_at as int, x as int),
            decreases row_bytes - x,
        {
            dst[dst_at + x] = src[src_at + x];
            x += 1;
            assert(dst@ =~= with_bytes(row_start, dst_at as int, src@, src_at as int, x as int));
        }
        y += 1;
    }
}

/// Where the rows of the destination do not overlap, each copied byte
/// stands where its row and column put it, and every byte outside the
/// copied rows is untouched.
pub proof fn rows_copied_bytewise(
    src: Seq<u8>,
    src_pitch: int,
    dst: Seq<u8>,
    dst_pitch: int,
    row_bytes: int,
    rows: int,
)
    requires
        0 <= row_bytes <= dst_pitch,
        0 <= rows,
        rows_fit(dst.len() as int, dst_pitch, row_bytes, rows),
    ensures
        forall|y: int, x: int|
            0 <= y < rows && 0 <= x < row_bytes ==> #[trigger] rows_copied(
                src,
                src_pitch,
                dst,
                dst_pitch,
                row_bytes,
                rows,
            )[y * dst_pitch + x] == src[#[trigger] (y * src_pitch) + x],
        forall|i: int|
            0 <= i < dst.len() && (forall|y: int|
                0 <= y < rows ==> !(#[trigger] (y * dst_pitch) <= i < y * dst_pitch + row_bytes))
                ==> #[trigger] rows_copied(src, src_pitch, dst, dst_pitch, row_bytes, rows)[i]
                == dst[i],
    decreases rows,
{
    if rows > 0 {
        let last = rows - 1;
        let earlier = rows_copied(src, src_pitch, dst, dst_pitch, row_bytes, last);
        let result = rows_copied(src, src_pitch, dst, dst_pitch, row_bytes, rows);
        rows_copied_keeps_length(src, src_pitch, dst, dst_pitch, row_bytes, last);
        if last > 0 {
            lemma_mul_inequality(last - 1, last, dst_pitch);
        }
        rows_copied_bytewise(src, src_pitch, dst, dst_pitch, row_bytes, last);
        assert forall|y: int, x: int| 0 <= y < rows && 0 <= x < row_bytes implies #[trigger] result[y
            * dst_pitch + x] == src[#[trigger] (y * src_pitch) + x] by {
            lemma_mul_inequality(y, last, dst_pitch);
            if y < last {
                lemma_mul_inequality(y + 1, last, dst_pitch);
                assert((y + 1) * dst_pitch == y * dst_pitch + dst_pitch) by (nonlinear_arith);
                assert(earlier[y * dst_pitch + x] == src[(y * src_pitch) + x]);
            }
        }
        assert forall|i: int|
            0 <= i < dst.len() && (forall|y: int|
                0 <= y < rows ==> !(#[trigger] (y * dst_pitch) <= i < y * dst_pitch
                    + row_bytes)) implies #[trigger] result[i] == dst[i] by {
            assert(!(last * dst_pitch <= i < last * dst_pitch + row_bytes));
            assert(earlier[i] == dst[i]);
        }
    }
}

} // verus!
