//! The frame side of quality scoring.
//!
//! The quality engine pulls frame pairs through a callback until told that no
//! more come. A comparison holds the one pair to deliver and whether it has
//! been delivered: the first pull hands out both luma planes, laid out in the
//! engine's row stride, and every later pull ends the stream.
use vstd::prelude::*;

use crate::error::PipelineError;
use crate::frame::Frame;
use crate::plane::{strided_of, to_strided};

verus! {

/// Checks that two frames can be compared; `DimensionMismatch` when their width or height differ.
pub fn check_dimensions(reference: &Frame, reconstructed: &Frame) -> (r: Result<(), PipelineError>)
    ensures
        r is Ok <==> (reference.width == reconstructed.width && reference.height == reconstructed.height),
        r matches Err(e) ==> e == PipelineError::DimensionMismatch,
{
    if reference.same_dimensions(reconstructed) {
        Ok(())
    } else {
        Err(PipelineError::DimensionMismatch)
    }
}

/// What a finished run of the engine means: `ModelUnavailable` when the model
/// resource was not found, `MetricEngineError` on a non-zero completion status,
/// and an error that a pull reported, if any, before those.
pub open spec fn engine_result(model_found: bool, pull_error: Option<PipelineError>, status: i32) -> Result<(), PipelineError> {
    if !model_found {
        Err(PipelineError::ModelUnavailable)
    } else if pull_error is Some {
        Err(pull_error.unwrap())
    } else if status != 0 {
        Err(PipelineError::MetricEngineError)
    } else {
        Ok(())
    }
}

/// Maps the engine's run to the outcome of scoring.
pub fn engine_outcome(model_found: bool, pull_error: Option<PipelineError>, status: i32) -> (r: Result<(), PipelineError>)
    ensures
        r == engine_result(model_found, pull_error, status),
{
    if !model_found {
        Err(PipelineError::ModelUnavailable)
    } else if let Some(e) = pull_error {
        Err(e)
    } else if status != 0 {
        Err(PipelineError::MetricEngineError)
    } else {
        Ok(())
    }
}

/// One frame pair handed to the engine: both luma planes in the engine's stride.
#[derive(Clone, Debug)]
pub struct FramePair {
    pub reference: Vec<u8>,
    pub reconstructed: Vec<u8>,
}

/// The pair of frames one scoring compares, and whether it has been delivered.
#[derive(Clone, Debug)]
pub struct Comparison {
    pub reference: Frame,
    pub reconstructed: Frame,
    pub delivered: bool,
}

impl Comparison {
    pub open spec fn wf(&self) -> bool {
        &&& self.reference.wf()
        &&& self.reconstructed.wf()
        &&& self.reference.width == self.reconstructed.width
        &&& self.reference.height == self.reconstructed.height
    }

    /// Takes both frames for one scoring; `DimensionMismatch` when their dimensions differ.
    pub fn new(reference: Frame, reconstructed: Frame) -> (r: Result<Comparison, PipelineError>)
        requires
            reference.wf(),
            reconstructed.wf(),
        ensures
            r is Ok <==> (reference.width == reconstructed.width && reference.height == reconstructed.height),
            r matches Err(e) ==> e == PipelineError::DimensionMismatch,
            r matches Ok(c) ==> c.wf() && !c.delivered && c.reference == reference && c.reconstructed == reconstructed,
    {
        match check_dimensions(&reference, &reconstructed) {
            Ok(()) => Ok(Comparison { reference, reconstructed, delivered: false }),
            Err(e) => Err(e),
        }
    }

    /// Answers one pull of the engine, which wants rows `out_stride` bytes apart.
    /// The first pull delivers both luma planes in that stride and marks the pair
    /// delivered; every later pull gives `None`, the end of the stream. A stride
    /// shorter than a row, or a plane that would not fit in memory, is `MetricEngineError`.
    pub fn pull(&mut self, out_stride: usize) -> (r: Result<Option<FramePair>, PipelineError>)
        requires
            old(self).wf(),
        ensures
            final(self).wf(),
            final(self).reference == old(self).reference,
            final(self).reconstructed == old(self).reconstructed,
            old(self).delivered ==> (r matches Ok(None) && final(self).delivered),
            !old(self).delivered ==> {
                let w = old(self).reference.width as int;
                let h = old(self).reference.height as int;
                if out_stride < w || h * out_stride > usize::MAX {
                    r == Err::<Option<FramePair>, PipelineError>(PipelineError::MetricEngineError)
                        && !final(self).delivered
                } else {
                    &&& final(self).delivered
                    &&& r matches Ok(Some(p))
                    &&& p.reference@ == delivered_planes(*old(self), out_stride as int).0
                    &&& p.reconstructed@ == delivered_planes(*old(self), out_stride as int).1
                }
            },
    {
        if self.delivered {
            return Ok(None);
        }
        let w: usize = self.reference.width as usize;
        let h: usize = self.reference.height as usize;
        if out_stride < w {
            return Err(PipelineError::MetricEngineError);
        }
        if h > 0 && out_stride > usize::MAX / h {
            proof {
                assert(h * out_stride > usize::MAX) by (nonlinear_arith)
                    requires
                        h > 0,
                        out_stride > usize::MAX / h,
                ;
            }
            return Err(PipelineError::MetricEngineError);
        }
        proof {
            assert(h * out_stride <= usize::MAX) by (nonlinear_arith)
                requires
                    h == 0 || out_stride <= usize::MAX / h,
            ;
        }
        let reference = to_strided(self.reference.y.as_slice(), w, h, out_stride);
        let reconstructed = to_strided(self.reconstructed.y.as_slice(), w, h, out_stride);
        self.delivered = true;
        Ok(Some(FramePair { reference, reconstructed }))
    }
}

/// The two planes the first pull of `c` delivers, in rows `out_stride` bytes apart.
pub open spec fn delivered_planes(c: Comparison, out_stride: int) -> (Seq<u8>, Seq<u8>) {
    let w = c.reference.width as int;
    let h = c.reference.height as int;
    (strided_of(c.reference.y@, w, h, out_stride), strided_of(c.reconstructed.y@, w, h, out_stride))
}

/// Comparing a frame with an identical one, the engine is handed two identical planes.
pub proof fn lemma_identical_frames_deliver_identical_planes(c: Comparison, out_stride: int)
    requires
        c.wf(),
        c.reference.y@ == c.reconstructed.y@,
    ensures
        delivered_planes(c, out_stride).0 == delivered_planes(c, out_stride).1,
{
}

} // verus!
