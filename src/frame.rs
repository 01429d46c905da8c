use vstd::prelude::*;

use crate::error::PipelineError;

verus! {

/// Number of bytes in the luma plane of a `width` x `height` frame.
pub open spec fn luma_len(width: u32, height: u32) -> int {
    width as int * height as int
}

/// Number of bytes in each chroma plane of a `width` x `height` 4:2:0 frame.
pub open spec fn chroma_len(width: u32, height: u32) -> int {
    (width / 2) as int * (height / 2) as int
}

/// Whether a frame of these dimensions and plane lengths has the 4:2:0 layout.
pub open spec fn layout_ok(width: u32, height: u32, y_len: int, u_len: int, v_len: int) -> bool {
    &&& width % 2 == 0
    &&& height % 2 == 0
    &&& y_len == luma_len(width, height)
    &&& u_len == chroma_len(width, height)
    &&& v_len == chroma_len(width, height)
}

/// One decoded planar image in 4:2:0 subsampling, each plane tightly packed.
#[derive(Clone, Debug)]
pub struct Frame {
    pub width: u32,
    pub height: u32,
    pub y: Vec<u8>,
    pub u: Vec<u8>,
    pub v: Vec<u8>,
}

impl Frame {
    pub open spec fn wf(&self) -> bool {
        layout_ok(self.width, self.height, self.y@.len() as int, self.u@.len() as int, self.v@.len() as int)
    }

    /// Builds a frame from its three planes; `DecodeError` unless they have the 4:2:0 layout.
    pub fn new(width: u32, height: u32, y: Vec<u8>, u: Vec<u8>, v: Vec<u8>) -> (r: Result<Frame, PipelineError>)
        ensures
            r is Ok <==> layout_ok(width, height, y@.len() as int, u@.len() as int, v@.len() as int),
            r matches Ok(f) ==> f.wf() && f.width == width && f.height == height && f.y@ == y@ && f.u@ == u@ && f.v@ == v@,
            r matches Err(e) ==> e == PipelineError::DecodeError,
    {
        if width % 2 != 0 || height % 2 != 0 {
            return Err(PipelineError::DecodeError);
        }
        proof {
            lemma_plane_sizes_fit(width, height);
        }
        let luma: u64 = width as u64 * height as u64;
        let chroma: u64 = (width / 2) as u64 * (height / 2) as u64;
        if y.len() as u64 != luma || u.len() as u64 != chroma || v.len() as u64 != chroma {
            return Err(PipelineError::DecodeError);
        }
        Ok(Frame { width, height, y, u, v })
    }

    /// A frame whose every plane byte is `value`.
    pub fn filled(width: u32, height: u32, value: u8) -> (r: Frame)
        requires
            width % 2 == 0,
            height % 2 == 0,
            luma_len(width, height) <= usize::MAX,
        ensures
            r.wf(),
            r.width == width,
            r.height == height,
            forall|i: int| 0 <= i < r.y@.len() ==> r.y@[i] == value,
            forall|i: int| 0 <= i < r.u@.len() ==> r.u@[i] == value,
            forall|i: int| 0 <= i < r.v@.len() ==> r.v@[i] == value,
    {
        proof {
            lemma_plane_sizes_fit(width, height);
        }
        let luma: usize = (width as usize) * (height as usize);
        let chroma: usize = ((width / 2) as usize) * ((height / 2) as usize);
        let y = filled_plane(luma, value);
        let u = filled_plane(chroma, value);
        let v = filled_plane(chroma, value);
        Frame { width, height, y, u, v }
    }

    /// A copy of this frame with the same dimensions and plane contents.
    pub fn duplicate(&self) -> (r: Frame)
        ensures
            r.width == self.width,
            r.height == self.height,
            r.y@ == self.y@,
            r.u@ == self.u@,
            r.v@ == self.v@,
    {
        let y = self.y.clone();
        let u = self.u.clone();
        let v = self.v.clone();
        assert(y@ =~= self.y@);
        assert(u@ =~= self.u@);
        assert(v@ =~= self.v@);
        Frame { width: self.width, height: self.height, y, u, v }
    }

    /// Whether two frames have the same width and height.
    pub fn same_dimensions(&self, other: &Frame) -> (r: bool)
        ensures
            r == (self.width == other.width && self.height == other.height),
    {
        self.width == other.width && self.height == other.height
    }
}

/// Both plane sizes of a frame fit in 64 bits, and a chroma plane is no larger than the luma plane.
pub proof fn lemma_plane_sizes_fit(width: u32, height: u32)
    ensures
        0 <= chroma_len(width, height) <= luma_len(width, height) <= u64::MAX,
{
    assert(0 <= (width / 2) as int * (height / 2) as int <= width as int * height as int) by (nonlinear_arith)
        requires
            width / 2 <= width,
            height / 2 <= height,
    ;
    assert(width as int * height as int <= u64::MAX) by (nonlinear_arith)
        requires
            width <= u32::MAX,
            height <= u32::MAX,
    ;
}

/// A plane of `len` bytes, each `value`.
pub fn filled_plane(len: usize, value: u8) -> (r: Vec<u8>)
    ensures
        r@.len() == len,
        forall|i: int| 0 <= i < len ==> r@[i] == value,
{
    let mut out: Vec<u8> = Vec::with_capacity(len);
    let mut i: usize = 0;
    while i < len
        invariant
            i <= len,
            out@.len() == i,
            forall|j: int| 0 <= j < i ==> out@[j] == value,
        decreases len - i,
    {
        out.push(value);
        i += 1;
    }
    out
}

} // verus!
