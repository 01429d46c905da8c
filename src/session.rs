//! Bookkeeping of an encoder session.
//!
//! The encoder itself is driven by the caller; this type decides what each of
//! its answers means: which setup failures are which errors, whether the
//! encoder's plane layout is the configured one, how a frame is staged, what an
//! encode call produced, and when draining the encoder stops.
use vstd::prelude::*;

use crate::config::{settings_of, EncoderConfig, Settings};
use crate::error::PipelineError;
use crate::frame::{chroma_len, luma_len, Frame};
use crate::plane::{from_strided, packed_of, strided_of, to_strided};

verus! {

/// Where a session stands in its lifecycle.
#[derive(Clone, Copy, Debug, PartialEq, Eq, Structural)]
pub enum SessionPhase {
    /// Frames are being fed.
    Feeding,
    /// The source is exhausted and buffered frames are being drained.
    Flushing,
    /// The encoder has been released.
    Closed,
}

/// One chunk of compressed bitstream produced by a single encode call.
#[derive(Clone, Debug)]
pub struct EncodedUnit {
    pub payload: Vec<u8>,
}

/// A frame's planes laid out in the encoder's staging strides, with its timestamp.
#[derive(Clone, Debug)]
pub struct StagedFrame {
    pub y: Vec<u8>,
    pub u: Vec<u8>,
    pub v: Vec<u8>,
    pub pts: i64,
}

/// The state of one encoder session.
#[derive(Clone, Copy, Debug)]
pub struct EncoderSession {
    pub settings: Settings,
    pub phase: SessionPhase,
    /// Timestamp of the next frame fed.
    pub next_pts: i64,
    /// Number of frames fed so far.
    pub fed: u64,
    /// Number of drain calls allowed so far.
    pub flushes: u64,
}

/// Whether settings describe frames whose storage can be addressed.
pub open spec fn settings_ok(s: Settings) -> bool {
    &&& s.width > 0
    &&& s.height > 0
    &&& luma_len(s.width, s.height) <= usize::MAX
}

/// What the encoder's setup steps reported, as the session's outcome:
/// a refused preset or profile is `ConfigError`, missing frame storage is
/// `AllocationError`, and an encoder that could not be constructed is `OpenError`.
pub open spec fn setup_result(param_status: i32, profile_status: i32, alloc_status: i32, opened: bool) -> Result<(), PipelineError> {
    if param_status != 0 || profile_status != 0 {
        Err(PipelineError::ConfigError)
    } else if alloc_status != 0 {
        Err(PipelineError::AllocationError)
    } else if !opened {
        Err(PipelineError::OpenError)
    } else {
        Ok(())
    }
}

/// Maps the statuses of the encoder's setup steps to the session's outcome.
pub fn setup_outcome(param_status: i32, profile_status: i32, alloc_status: i32, opened: bool) -> (r: Result<(), PipelineError>)
    ensures
        r == setup_result(param_status, profile_status, alloc_status, opened),
{
    if param_status != 0 || profile_status != 0 {
        Err(PipelineError::ConfigError)
    } else if alloc_status != 0 {
        Err(PipelineError::AllocationError)
    } else if !opened {
        Err(PipelineError::OpenError)
    } else {
        Ok(())
    }
}

/// The units that one encode call produced, from its status and the bytes it handed out.
pub open spec fn units_result(status: i32, payload: Seq<u8>) -> Option<Seq<Seq<u8>>> {
    if status < 0 || payload.len() != status {
        None
    } else if status == 0 {
        Some(Seq::empty())
    } else {
        Some(seq![payload])
    }
}

/// The payloads of a list of units.
pub open spec fn payloads(units: Seq<EncodedUnit>) -> Seq<Seq<u8>> {
    units.map_values(|u: EncodedUnit| u.payload@)
}

/// What one encode call produced: `EncodeError` on a negative status or a payload
/// whose length is not the status; nothing on status zero; else one unit.
pub fn units_of(status: i32, payload: Vec<u8>) -> (r: Result<Vec<EncodedUnit>, PipelineError>)
    ensures
        match units_result(status, payload@) {
            Some(p) => r matches Ok(units) && payloads(units@) == p,
            None => r == Err::<Vec<EncodedUnit>, PipelineError>(PipelineError::EncodeError),
        },
{
    if status < 0 || payload.len() != status as usize {
        return Err(PipelineError::EncodeError);
    }
    let mut units: Vec<EncodedUnit> = Vec::new();
    if status > 0 {
        let ghost bytes = payload@;
        units.push(EncodedUnit { payload });
        assert(payloads(units@) =~= seq![bytes]);
    } else {
        assert(payloads(units@) =~= Seq::<Seq<u8>>::empty());
    }
    Ok(units)
}

/// Whether the encoder's output picture of an encode call is the reconstruction of
/// the frame staged for that call: a unit was produced and its timestamp is the
/// staged frame's. Otherwise scoring of that frame is skipped.
pub fn reconstruction_applies(staged: &StagedFrame, status: i32, out_pts: i64) -> (r: bool)
    ensures
        r == (status > 0 && out_pts == staged.pts),
{
    status > 0 && out_pts == staged.pts
}

/// Whether another drain call is made, given how many frames the encoder still holds.
pub open spec fn flush_answer(s: EncoderSession, delayed: i32) -> bool {
    delayed > 0 && s.flushes < s.fed
}

/// The session after it answers a report of `delayed` buffered frames.
pub open spec fn flush_after(s: EncoderSession, delayed: i32) -> EncoderSession {
    EncoderSession {
        phase: SessionPhase::Flushing,
        flushes: if flush_answer(s, delayed) { (s.flushes + 1) as u64 } else { s.flushes },
        ..s
    }
}

/// How many more drain calls a session may still make.
pub open spec fn flush_budget(s: EncoderSession) -> nat {
    (s.fed - s.flushes) as nat
}

/// The session after answering each report of `reports` in turn.
pub open spec fn flush_run(s: EncoderSession, reports: Seq<i32>) -> EncoderSession
    decreases reports.len(),
{
    if reports.len() == 0 {
        s
    } else {
        flush_after(flush_run(s, reports.drop_last()), reports.last())
    }
}

impl EncoderSession {
    pub open spec fn wf(&self) -> bool {
        &&& settings_ok(self.settings)
        &&& self.flushes <= self.fed
        &&& 0 <= self.next_pts
    }

    /// Opens a session for `config`: fails as validating it fails, else starts feeding at timestamp zero.
    pub fn open(config: &EncoderConfig) -> (r: Result<EncoderSession, PipelineError>)
        ensures
            r is Ok <==> settings_of(*config) is Ok,
            r matches Err(e) ==> settings_of(*config) == Err::<Settings, PipelineError>(e),
            r matches Ok(s) ==> s.wf() && settings_of(*config) == Ok::<Settings, PipelineError>(s.settings)
                && s.phase == SessionPhase::Feeding && s.next_pts == 0 && s.fed == 0 && s.flushes == 0,
    {
        let settings = match config.validate() {
            Ok(s) => s,
            Err(e) => return Err(e),
        };
        Ok(EncoderSession { settings, phase: SessionPhase::Feeding, next_pts: 0, fed: 0, flushes: 0 })
    }

    /// Checks the encoder's plane layout: three planes, the luma stride equal to the
    /// width and each chroma stride equal to half of it; `LayoutError` otherwise.
    pub fn check_layout(&self, planes: i32, strides: &[i32]) -> (r: Result<(), PipelineError>)
        ensures
            r is Ok <==> (planes == 3 && strides@.len() >= 3 && strides@[0] == self.settings.width
                && strides@[1] == self.settings.width / 2 && strides@[2] == self.settings.width / 2),
            r matches Err(e) ==> e == PipelineError::LayoutError,
    {
        if planes != 3 || strides.len() < 3 {
            return Err(PipelineError::LayoutError);
        }
        let w: i64 = self.settings.width as i64;
        if strides[0] as i64 != w || strides[1] as i64 != w / 2 || strides[2] as i64 != w / 2 {
            return Err(PipelineError::LayoutError);
        }
        Ok(())
    }

    /// Stages `frame` for the next encode call: copies its planes into the staging
    /// strides and gives it the next timestamp. Fails with `EncodeError` unless the
    /// session is feeding, and with `DimensionMismatch` unless the frame has the
    /// configured dimensions.
    pub fn stage(&mut self, frame: &Frame) -> (r: Result<StagedFrame, PipelineError>)
        requires
            old(self).wf(),
            frame.wf(),
        ensures
            final(self).wf(),
            old(self).phase != SessionPhase::Feeding || old(self).next_pts == i64::MAX || old(self).fed == u64::MAX
                ==> r == Err::<StagedFrame, PipelineError>(PipelineError::EncodeError) && *final(self) == *old(self),
            old(self).phase == SessionPhase::Feeding && old(self).next_pts < i64::MAX && old(self).fed < u64::MAX
                && (frame.width != old(self).settings.width || frame.height != old(self).settings.height)
                ==> r == Err::<StagedFrame, PipelineError>(PipelineError::DimensionMismatch) && *final(self) == *old(self),
            r is Ok <==> (old(self).phase == SessionPhase::Feeding && old(self).next_pts < i64::MAX && old(self).fed < u64::MAX
                && frame.width == old(self).settings.width && frame.height == old(self).settings.height),
            r matches Ok(st) ==> {
                &&& st.pts == old(self).next_pts
                &&& st.y@ == strided_of(frame.y@, frame.width as int, frame.height as int, frame.width as int)
                &&& st.u@ == strided_of(frame.u@, (frame.width / 2) as int, (frame.height / 2) as int, (frame.width / 2) as int)
                &&& st.v@ == strided_of(frame.v@, (frame.width / 2) as int, (frame.height / 2) as int, (frame.width / 2) as int)
                &&& *final(self) == (EncoderSession { next_pts: (old(self).next_pts + 1) as i64, fed: (old(self).fed + 1) as u64, ..*old(self) })
            },
    {
        if self.phase != SessionPhase::Feeding || self.next_pts == i64::MAX || self.fed == u64::MAX {
            return Err(PipelineError::EncodeError);
        }
        if frame.width != self.settings.width || frame.height != self.settings.height {
            return Err(PipelineError::DimensionMismatch);
        }
        proof {
            crate::frame::lemma_plane_sizes_fit(frame.width, frame.height);
            let (fw, fh) = (frame.width as int, frame.height as int);
            assert(fh * fw == fw * fh && (fh / 2) * (fw / 2) == (fw / 2) * (fh / 2)) by (nonlinear_arith);
        }
        let w: usize = frame.width as usize;
        let h: usize = frame.height as usize;
        let y = to_strided(frame.y.as_slice(), w, h, w);
        let u = to_strided(frame.u.as_slice(), w / 2, h / 2, w / 2);
        let v = to_strided(frame.v.as_slice(), w / 2, h / 2, w / 2);
        let pts = self.next_pts;
        self.next_pts = self.next_pts + 1;
        self.fed = self.fed + 1;
        Ok(StagedFrame { y, u, v, pts })
    }

    /// Copies the encoder's reconstruction of a frame out of its plane memory, whose
    /// rows lie `luma_stride` and `chroma_stride` bytes apart. `LayoutError` when a
    /// stride is shorter than its row or a plane holds fewer than its rows.
    pub fn reconstruction(&self, y: &[u8], luma_stride: usize, u: &[u8], v: &[u8], chroma_stride: usize) -> (r: Result<Frame, PipelineError>)
        requires
            self.wf(),
        ensures
            ({
                let w = self.settings.width as int;
                let h = self.settings.height as int;
                r is Ok <==> (w % 2 == 0 && h % 2 == 0 && w <= luma_stride && w / 2 <= chroma_stride
                    && h * luma_stride <= y@.len() && (h / 2) * chroma_stride <= u@.len()
                    && (h / 2) * chroma_stride <= v@.len())
            }),
            r matches Err(e) ==> e == PipelineError::LayoutError,
            r matches Ok(f) ==> {
                let w = self.settings.width as int;
                let h = self.settings.height as int;
                &&& f.wf()
                &&& f.width == self.settings.width
                &&& f.height == self.settings.height
                &&& f.y@ == packed_of(y@, luma_stride as int, w, h)
                &&& f.u@ == packed_of(u@, chroma_stride as int, w / 2, h / 2)
                &&& f.v@ == packed_of(v@, chroma_stride as int, w / 2, h / 2)
            },
    {
        let width = self.settings.width;
        let height = self.settings.height;
        if width % 2 != 0 || height % 2 != 0 {
            return Err(PipelineError::LayoutError);
        }
        let w: usize = width as usize;
        let h: usize = height as usize;
        if w > luma_stride || w / 2 > chroma_stride {
            return Err(PipelineError::LayoutError);
        }
        proof {
            lemma_rows_fit(y@.len() as int, luma_stride as int, h as int);
            lemma_rows_fit(u@.len() as int, chroma_stride as int, (h / 2) as int);
            lemma_rows_fit(v@.len() as int, chroma_stride as int, (h / 2) as int);
        }
        if y.len() / luma_stride < h {
            return Err(PipelineError::LayoutError);
        }
        if u.len() / chroma_stride < h / 2 || v.len() / chroma_stride < h / 2 {
            return Err(PipelineError::LayoutError);
        }
        proof {
            lemma_rows_fit(y@.len() as int, luma_stride as int, h as int);
            lemma_rows_fit(u@.len() as int, chroma_stride as int, (h / 2) as int);
            lemma_rows_fit(v@.len() as int, chroma_stride as int, (h / 2) as int);
        }
        let py = from_strided(y, luma_stride, w, h);
        let pu = from_strided(u, chroma_stride, w / 2, h / 2);
        let pv = from_strided(v, chroma_stride, w / 2, h / 2);
        proof {
            assert((w / 2) * (h / 2) == chroma_len(width, height));
        }
        Ok(Frame { width, height, y: py, u: pu, v: pv })
    }

    /// Answers a report of `delayed` frames still buffered in the encoder: whether
    /// another drain call is made. The session turns to draining; a drain call is made
    /// only while frames are reported and fewer drain calls were made than frames fed:
    /// a drain call hands out a buffered frame, and no more frames are buffered than were fed.
    pub fn flush_step(&mut self, delayed: i32) -> (r: bool)
        requires
            old(self).wf(),
        ensures
            final(self).wf(),
            r == flush_answer(*old(self), delayed),
            *final(self) == flush_after(*old(self), delayed),
            r ==> flush_budget(*final(self)) < flush_budget(*old(self)),
    {
        self.phase = SessionPhase::Flushing;
        if delayed > 0 && self.flushes < self.fed {
            self.flushes = self.flushes + 1;
            true
        } else {
            false
        }
    }

    /// Releases the session.
    pub fn close(&mut self)
        ensures
            *final(self) == (EncoderSession { phase: SessionPhase::Closed, ..*old(self) }),
    {
        self.phase = SessionPhase::Closed;
    }
}

/// `h` rows of `stride` bytes fit in a buffer of `len` bytes exactly when `len / stride >= h`.
proof fn lemma_rows_fit(len: int, stride: int, h: int)
    requires
        0 <= len,
        0 < stride,
        0 <= h,
    ensures
        h * stride <= len <==> len / stride >= h,
{
    vstd::arithmetic::div_mod::lemma_fundamental_div_mod(len, stride);
    let q = len / stride;
    let m = len % stride;
    assert(h * stride <= len <==> q >= h) by (nonlinear_arith)
        requires
            len == stride * q + m,
            0 <= m < stride,
            stride > 0,
    ;
}

/// While every answer so far was "yes", each answer counted one drain call.
proof fn lemma_flush_run_counts(s: EncoderSession, reports: Seq<i32>, k: int)
    requires
        s.wf(),
        0 <= k <= reports.len(),
        forall|i: int| 0 <= i < k ==> flush_answer(#[trigger] flush_run(s, reports.take(i)), reports[i]),
    ensures
        flush_run(s, reports.take(k)).flushes == s.flushes + k,
        flush_run(s, reports.take(k)).fed == s.fed,
    decreases k,
{
    if k == 0 {
        assert(reports.take(0) =~= Seq::<i32>::empty());
    } else {
        lemma_flush_run_counts(s, reports, k - 1);
        assert(reports.take(k).drop_last() =~= reports.take(k - 1));
        assert(flush_answer(flush_run(s, reports.take(k - 1)), reports[k - 1]));
    }
}

/// Draining ends: whatever the encoder reports, a session answers "no more" within
/// one report more than the drain calls it may still make.
pub proof fn lemma_flush_ends(s: EncoderSession, reports: Seq<i32>)
    requires
        s.wf(),
        reports.len() > flush_budget(s),
    ensures
        exists|i: int| 0 <= i <= flush_budget(s) && !flush_answer(#[trigger] flush_run(s, reports.take(i)), reports[i]),
{
    let b = flush_budget(s) as int;
    if !exists|i: int| 0 <= i <= b && !flush_answer(#[trigger] flush_run(s, reports.take(i)), reports[i]) {
        lemma_flush_run_counts(s, reports, b);
        assert(!flush_answer(flush_run(s, reports.take(b)), reports[b]));
    }
}

} // verus!
