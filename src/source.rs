//! The frame source: which input comes next, and how its bytes become a frame.
//!
//! The caller lists the inputs in a stable order and reads each one's bytes;
//! the source walks them in that order, once each, and splits raw 4:2:0 data
//! into the three planes of a frame.
use vstd::prelude::*;

use crate::error::PipelineError;
use crate::frame::{chroma_len, luma_len, Frame};

verus! {

/// The bytes of `src` from `start`, `len` of them.
pub fn copy_range(src: &[u8], start: usize, len: usize) -> (r: Vec<u8>)
    requires
        start + len <= src@.len(),
    ensures
        r@ == src@.subrange(start as int, start + len),
{
    let n: usize = src.len();
    let mut out: Vec<u8> = Vec::with_capacity(len);
    let mut i: usize = 0;
    while i < len
        invariant
            start + len <= src@.len(),
            n == src@.len(),
            i <= len,
            out@ == src@.subrange(start as int, start + i),
        decreases len - i,
    {
        out.push(src[start + i]);
        i += 1;
        assert(out@ =~= src@.subrange(start as int, start + i));
    }
    out
}

/// Whether `n` bytes hold exactly one raw 4:2:0 frame of `width` x `height`.
pub open spec fn planar_len_ok(width: u32, height: u32, n: int) -> bool {
    &&& width % 2 == 0
    &&& height % 2 == 0
    &&& n == luma_len(width, height) + 2 * chroma_len(width, height)
}

/// Splits raw 4:2:0 bytes (the luma plane, then the two chroma planes) into a
/// frame of `width` x `height`; `DecodeError` when the dimensions are odd or the
/// byte count is not that of one frame.
pub fn frame_from_planar(bytes: &[u8], width: u32, height: u32) -> (r: Result<Frame, PipelineError>)
    ensures
        r is Ok <==> planar_len_ok(width, height, bytes@.len() as int),
        r matches Err(e) ==> e == PipelineError::DecodeError,
        r matches Ok(f) ==> {
            let l = luma_len(width, height);
            let c = chroma_len(width, height);
            &&& f.wf()
            &&& f.width == width
            &&& f.height == height
            &&& f.y@ == bytes@.subrange(0, l)
            &&& f.u@ == bytes@.subrange(l, l + c)
            &&& f.v@ == bytes@.subrange(l + c, l + 2 * c)
        },
{
    if width % 2 != 0 || height % 2 != 0 {
        return Err(PipelineError::DecodeError);
    }
    proof {
        crate::frame::lemma_plane_sizes_fit(width, height);
    }
    let luma: u64 = width as u64 * height as u64;
    let chroma: u64 = (width / 2) as u64 * (height / 2) as u64;
    proof {
        assert(chroma * 4 == luma) by (nonlinear_arith)
            requires
                width % 2 == 0,
                height % 2 == 0,
                luma == width as int * height as int,
                chroma == (width / 2) as int * (height / 2) as int,
        ;
    }
    let n: usize = bytes.len();
    if (n as u64) < luma || n as u64 - luma != 2 * chroma {
        return Err(PipelineError::DecodeError);
    }
    let l: usize = luma as usize;
    let c: usize = chroma as usize;
    let y = copy_range(bytes, 0, l);
    let u = copy_range(bytes, l, c);
    let v = copy_range(bytes, l + c, c);
    Ok(Frame { width, height, y, u, v })
}

/// A finite, ordered walk over `count` inputs of frames of `width` x `height`.
#[derive(Clone, Copy, Debug)]
pub struct FrameSource {
    pub width: u32,
    pub height: u32,
    /// Number of inputs.
    pub count: usize,
    /// Index of the next input.
    pub position: usize,
}

impl FrameSource {
    pub open spec fn wf(&self) -> bool {
        self.position <= self.count
    }

    /// A source over `count` inputs, none consumed yet.
    pub fn open(width: u32, height: u32, count: usize) -> (r: FrameSource)
        ensures
            r.wf(),
            r.width == width,
            r.height == height,
            r.count == count,
            r.position == 0,
    {
        FrameSource { width, height, count, position: 0 }
    }

    /// The index of the next input to decode, or `None` once all are consumed.
    pub fn next_index(&mut self) -> (r: Option<usize>)
        requires
            old(self).wf(),
        ensures
            final(self).wf(),
            final(self).width == old(self).width,
            final(self).height == old(self).height,
            final(self).count == old(self).count,
            old(self).position < old(self).count ==> r == Some(old(self).position)
                && final(self).position == old(self).position + 1,
            old(self).position >= old(self).count ==> r is None && final(self).position == old(self).position,
    {
        if self.position < self.count {
            let i = self.position;
            self.position = self.position + 1;
            Some(i)
        } else {
            None
        }
    }

    /// Decodes the bytes of one input as a raw frame of the source's dimensions.
    pub fn decode(&self, bytes: &[u8]) -> (r: Result<Frame, PipelineError>)
        ensures
            r is Ok <==> planar_len_ok(self.width, self.height, bytes@.len() as int),
            r matches Err(e) ==> e == PipelineError::DecodeError,
            r matches Ok(f) ==> f.wf() && f.width == self.width && f.height == self.height,
    {
        frame_from_planar(bytes, self.width, self.height)
    }
}

} // verus!
