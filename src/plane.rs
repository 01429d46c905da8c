//! Stride-aware plane copies.
//!
//! A plane is `height` rows of `width` bytes. Packed, row `r` starts at
//! `r * width`; laid out with a stride, it starts at `r * stride`, and the
//! `stride - width` bytes after each row are padding.
use vstd::prelude::*;

verus! {

/// `src`, a packed plane, laid out with `stride` bytes per row and zero padding.
pub open spec fn strided_of(src: Seq<u8>, width: int, height: int, stride: int) -> Seq<u8> {
    Seq::new(
        (height * stride) as nat,
        |i: int| if i % stride < width { src[(i / stride) * width + i % stride] } else { 0u8 },
    )
}

/// The packed rows of `src`, a plane laid out with `stride` bytes per row.
pub open spec fn packed_of(src: Seq<u8>, stride: int, width: int, height: int) -> Seq<u8> {
    Seq::new((width * height) as nat, |i: int| src[(i / width) * stride + i % width])
}

/// Row and column of a position inside a plane of `rows` rows of `n` bytes.
proof fn lemma_row_col(i: int, n: int, rows: int)
    requires
        0 <= i < rows * n,
        0 < n,
    ensures
        0 <= i / n < rows,
        0 <= i % n < n,
        (i / n) * n + i % n == i,
{
    let q = i / n;
    let m = i % n;
    assert(i == n * q + m && 0 <= m < n) by {
        vstd::arithmetic::div_mod::lemma_fundamental_div_mod(i, n);
    }
    assert(0 <= q < rows) by (nonlinear_arith)
        requires
            i == n * q + m,
            0 <= m < n,
            0 <= i < rows * n,
    ;
}

/// A cell of a row inside the plane lies below the plane's end.
proof fn lemma_cell_in_plane(r: int, c: int, w: int, s: int, h: int)
    requires
        0 <= r < h,
        0 <= c < w <= s,
    ensures
        0 <= r * s + c < h * s,
        0 <= r * s + c < s * h,
{
    assert(0 <= r * s + c < h * s && h * s == s * h) by (nonlinear_arith)
        requires
            0 <= r < h,
            0 <= c < w <= s,
    ;
}

/// Lays out the packed plane `src` with `stride` bytes per row, padding each row with zeros.
pub fn to_strided(src: &[u8], width: usize, height: usize, stride: usize) -> (r: Vec<u8>)
    requires
        width <= stride,
        src@.len() == width * height,
        height * stride <= usize::MAX,
    ensures
        r@ == strided_of(src@, width as int, height as int, stride as int),
{
    let src_len: usize = src.len();
    let total: usize = height * stride;
    let mut out: Vec<u8> = Vec::with_capacity(total);
    let mut i: usize = 0;
    while i < total
        invariant
            i <= total,
            total == height * stride,
            width <= stride,
            src@.len() == width * height,
            src@.len() == src_len,
            out@.len() == i,
            forall|j: int| 0 <= j < i ==> out@[j] == strided_of(src@, width as int, height as int, stride as int)[j],
        decreases total - i,
    {
        proof {
            lemma_row_col(i as int, stride as int, height as int);
        }
        let row: usize = i / stride;
        let col: usize = i % stride;
        if col < width {
            proof {
                lemma_cell_in_plane(row as int, col as int, width as int, width as int, height as int);
            }
            out.push(src[row * width + col]);
        } else {
            out.push(0u8);
        }
        i += 1;
    }
    assert(out@ =~= strided_of(src@, width as int, height as int, stride as int));
    out
}

/// The packed rows of `src`, a plane laid out with `stride` bytes per row.
pub fn from_strided(src: &[u8], stride: usize, width: usize, height: usize) -> (r: Vec<u8>)
    requires
        width <= stride,
        height * stride <= src@.len(),
    ensures
        r@ == packed_of(src@, stride as int, width as int, height as int),
{
    let src_len: usize = src.len();
    proof {
        assert(width * height <= height * stride && width * height == height * width) by (nonlinear_arith)
            requires
                width <= stride,
        ;
    }
    let total: usize = width * height;
    let mut out: Vec<u8> = Vec::with_capacity(total);
    let mut i: usize = 0;
    while i < total
        invariant
            i <= total,
            total == width * height,
            width <= stride,
            height * stride <= src@.len(),
            src@.len() == src_len,
            width * height == height * width,
            out@.len() == i,
            forall|j: int| 0 <= j < i ==> out@[j] == packed_of(src@, stride as int, width as int, height as int)[j],
        decreases total - i,
    {
        proof {
            lemma_row_col(i as int, width as int, height as int);
        }
        let row: usize = i / width;
        let col: usize = i % width;
        proof {
            lemma_cell_in_plane(row as int, col as int, width as int, stride as int, height as int);
        }
        out.push(src[row * stride + col]);
        i += 1;
    }
    assert(out@ =~= packed_of(src@, stride as int, width as int, height as int));
    out
}

} // verus!
