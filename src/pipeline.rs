//! The controller that drives a whole run, one event at a time.
//!
//! The caller performs each action that `run` returns (read a frame, feed it,
//! score it, drain the encoder, close it, persist the bitstream) and hands the
//! outcome back as the next event. The controller owns the bitstream
//! accumulator and the sequence of scored frame indices.
use vstd::prelude::*;

use crate::error::PipelineError;
use crate::session::EncodedUnit;

verus! {

/// Where a run stands.
#[derive(Clone, Copy, Debug, PartialEq, Eq, Structural)]
pub enum Stage {
    /// Waiting for the next source frame.
    Reading,
    /// Waiting for the encoder's answer to the frame just read.
    Encoding,
    /// Waiting for the score of the frame just encoded.
    Scoring,
    /// Draining the encoder's buffered frames.
    Flushing,
    /// Waiting for the encoder to be released.
    Closing,
    /// Releasing the encoder after a failure, which is reported next.
    Aborting(PipelineError),
    /// The run finished and the bitstream is to be persisted.
    Done,
    /// The run failed.
    Failed(PipelineError),
}

/// The outcome of the action last performed.
#[derive(Clone, Debug)]
pub enum Event {
    /// A source frame was read.
    FrameRead,
    /// The source is exhausted.
    SourceEnd,
    /// The frame was fed; the encoder produced `units`, and a reconstruction when `reconstructed`.
    Fed { units: Vec<EncodedUnit>, reconstructed: bool },
    /// The frame was scored.
    Scored,
    /// A drain call produced `units`.
    Flushed { units: Vec<EncodedUnit> },
    /// The encoder holds no more frames.
    Drained,
    /// The encoder was released.
    Closed,
    /// The action failed.
    Failed(PipelineError),
}

/// What the caller does next.
#[derive(Clone, Copy, Debug, PartialEq, Eq, Structural)]
pub enum Action {
    /// Read the next source frame.
    ReadNext,
    /// Feed the frame just read to the encoder.
    Feed,
    /// Score the frame of this index against its reconstruction.
    Score { index: u64 },
    /// Make one drain call.
    Flush,
    /// Release the encoder.
    Close,
    /// Write out the bitstream.
    Persist,
    /// Stop the run with this error.
    Abort(PipelineError),
    /// Nothing: the run is over.
    Idle,
}

/// The state of a run.
#[derive(Clone, Debug)]
pub struct Pipeline {
    pub stage: Stage,
    /// Index of the current source frame.
    pub frame_index: u64,
    /// Indices of the frames scored, in order.
    pub reports: Vec<u64>,
    /// Every unit payload produced so far, in call order.
    pub bitstream: Vec<u8>,
}

/// The state of a run, with its sequences as mathematical values.
pub struct PipelineView {
    pub stage: Stage,
    pub frame_index: u64,
    pub reports: Seq<u64>,
    pub bitstream: Seq<u8>,
}

impl View for Pipeline {
    type V = PipelineView;

    open spec fn view(&self) -> PipelineView {
        PipelineView { stage: self.stage, frame_index: self.frame_index, reports: self.reports@, bitstream: self.bitstream@ }
    }
}

/// Reports follow source order: strictly increasing frame indices, all before `next`.
pub open spec fn reports_in_source_order(reports: Seq<u64>, next: u64) -> bool {
    &&& forall|i: int, j: int| 0 <= i < j < reports.len() ==> reports[i] < reports[j]
    &&& forall|i: int| 0 <= i < reports.len() ==> reports[i] < next
}

/// The payloads of `units` concatenated in order.
pub open spec fn unit_bytes(units: Seq<EncodedUnit>) -> Seq<u8>
    decreases units.len(),
{
    if units.len() == 0 {
        Seq::empty()
    } else {
        unit_bytes(units.drop_last()) + units.last().payload@
    }
}

/// The run after a failure while the encoder is still open: release it first.
pub open spec fn aborting(p: PipelineView, err: PipelineError) -> (PipelineView, Action) {
    (PipelineView { stage: Stage::Aborting(err), ..p }, Action::Close)
}

/// The controller's answer to `e` in state `p`: the next state and action.
pub open spec fn step(p: PipelineView, e: Event) -> (PipelineView, Action) {
    match p.stage {
        Stage::Done | Stage::Failed(_) => (p, Action::Idle),
        Stage::Aborting(err) => (PipelineView { stage: Stage::Failed(err), ..p }, Action::Abort(err)),
        _ => match e {
            Event::Failed(err) => if p.stage == Stage::Closing {
                (PipelineView { stage: Stage::Failed(err), ..p }, Action::Abort(err))
            } else {
                aborting(p, err)
            },
            Event::FrameRead => if p.stage != Stage::Reading {
                aborting(p, PipelineError::EncodeError)
            } else if p.frame_index == u64::MAX {
                aborting(p, PipelineError::IoError)
            } else {
                (PipelineView { stage: Stage::Encoding, ..p }, Action::Feed)
            },
            Event::SourceEnd => if p.stage != Stage::Reading {
                aborting(p, PipelineError::EncodeError)
            } else {
                (PipelineView { stage: Stage::Flushing, ..p }, Action::Flush)
            },
            Event::Fed { units, reconstructed } => if p.stage != Stage::Encoding {
                aborting(p, PipelineError::EncodeError)
            } else if reconstructed {
                (
                    PipelineView { stage: Stage::Scoring, bitstream: p.bitstream + unit_bytes(units@), ..p },
                    Action::Score { index: p.frame_index },
                )
            } else {
                (
                    PipelineView {
                        stage: Stage::Reading,
                        frame_index: (p.frame_index + 1) as u64,
                        bitstream: p.bitstream + unit_bytes(units@),
                        ..p
                    },
                    Action::ReadNext,
                )
            },
            Event::Scored => if p.stage != Stage::Scoring {
                aborting(p, PipelineError::EncodeError)
            } else {
                (
                    PipelineView {
                        stage: Stage::Reading,
                        frame_index: (p.frame_index + 1) as u64,
                        reports: p.reports.push(p.frame_index),
                        ..p
                    },
                    Action::ReadNext,
                )
            },
            Event::Flushed { units } => if p.stage != Stage::Flushing {
                aborting(p, PipelineError::EncodeError)
            } else {
                (PipelineView { bitstream: p.bitstream + unit_bytes(units@), ..p }, Action::Flush)
            },
            Event::Drained => if p.stage != Stage::Flushing {
                aborting(p, PipelineError::EncodeError)
            } else {
                (PipelineView { stage: Stage::Closing, ..p }, Action::Close)
            },
            Event::Closed => if p.stage != Stage::Closing {
                aborting(p, PipelineError::EncodeError)
            } else {
                (PipelineView { stage: Stage::Done, ..p }, Action::Persist)
            },
        },
    }
}

/// Appends the payloads of `units`, in order, to `out`.
pub fn append_units(out: &mut Vec<u8>, units: &Vec<EncodedUnit>)
    ensures
        final(out)@ == old(out)@ + unit_bytes(units@),
{
    let n: usize = units.len();
    let mut k: usize = 0;
    while k < n
        invariant
            n == units@.len(),
            k <= n,
            out@ == old(out)@ + unit_bytes(units@.take(k as int)),
        decreases n - k,
    {
        let payload = &units[k].payload;
        let m: usize = payload.len();
        let ghost before = out@;
        let mut j: usize = 0;
        while j < m
            invariant
                m == payload@.len(),
                j <= m,
                out@ == before + payload@.take(j as int),
            decreases m - j,
        {
            out.push(payload[j]);
            j += 1;
            assert(out@ =~= before + payload@.take(j as int));
        }
        assert(units@.take(k + 1).drop_last() =~= units@.take(k as int));
        assert(payload@.take(m as int) =~= payload@);
        k += 1;
        assert(out@ =~= old(out)@ + unit_bytes(units@.take(k as int)));
    }
    assert(units@.take(n as int) =~= units@);
}

impl Pipeline {
    pub open spec fn wf(&self) -> bool {
        &&& (self.stage == Stage::Encoding || self.stage == Stage::Scoring) ==> self.frame_index < u64::MAX
        &&& reports_in_source_order(self.reports@, self.frame_index)
    }

    /// A run about to read its first frame, with nothing encoded or scored.
    pub fn new() -> (r: Pipeline)
        ensures
            r.wf(),
            r.stage == Stage::Reading,
            r.frame_index == 0,
            r.reports@.len() == 0,
            r.bitstream@.len() == 0,
    {
        Pipeline { stage: Stage::Reading, frame_index: 0, reports: Vec::new(), bitstream: Vec::new() }
    }

    fn abort_with(&mut self, err: PipelineError) -> (r: Action)
        ensures
            (final(self)@, r) == aborting(old(self)@, err),
    {
        self.stage = Stage::Aborting(err);
        Action::Close
    }
}

/// Advances `pipeline` by one event and says what the caller does next.
pub fn run(pipeline: &mut Pipeline, event: Event) -> (r: Action)
    requires
        old(pipeline).wf(),
    ensures
        final(pipeline).wf(),
        (final(pipeline)@, r) == step(old(pipeline)@, event),
{
    match pipeline.stage {
        Stage::Done | Stage::Failed(_) => return Action::Idle,
        Stage::Aborting(err) => {
            pipeline.stage = Stage::Failed(err);
            return Action::Abort(err);
        },
        _ => {},
    }
    match event {
        Event::Failed(err) => {
            if pipeline.stage == Stage::Closing {
                pipeline.stage = Stage::Failed(err);
                Action::Abort(err)
            } else {
                pipeline.abort_with(err)
            }
        },
        Event::FrameRead => {
            if pipeline.stage != Stage::Reading {
                pipeline.abort_with(PipelineError::EncodeError)
            } else if pipeline.frame_index == u64::MAX {
                pipeline.abort_with(PipelineError::IoError)
            } else {
                pipeline.stage = Stage::Encoding;
                Action::Feed
            }
        },
        Event::SourceEnd => {
            if pipeline.stage != Stage::Reading {
                pipeline.abort_with(PipelineError::EncodeError)
            } else {
                pipeline.stage = Stage::Flushing;
                Action::Flush
            }
        },
        Event::Fed { units, reconstructed } => {
            if pipeline.stage != Stage::Encoding {
                pipeline.abort_with(PipelineError::EncodeError)
            } else {
                append_units(&mut pipeline.bitstream, &units);
                if reconstructed {
                    pipeline.stage = Stage::Scoring;
                    Action::Score { index: pipeline.frame_index }
                } else {
                    pipeline.stage = Stage::Reading;
                    pipeline.frame_index = pipeline.frame_index + 1;
                    Action::ReadNext
                }
            }
        },
        Event::Scored => {
            if pipeline.stage != Stage::Scoring {
                pipeline.abort_with(PipelineError::EncodeError)
            } else {
                pipeline.reports.push(pipeline.frame_index);
                pipeline.stage = Stage::Reading;
                pipeline.frame_index = pipeline.frame_index + 1;
                Action::ReadNext
            }
        },
        Event::Flushed { units } => {
            if pipeline.stage != Stage::Flushing {
                pipeline.abort_with(PipelineError::EncodeError)
            } else {
                append_units(&mut pipeline.bitstream, &units);
                Action::Flush
            }
        },
        Event::Drained => {
            if pipeline.stage != Stage::Flushing {
                pipeline.abort_with(PipelineError::EncodeError)
            } else {
                pipeline.stage = Stage::Closing;
                Action::Close
            }
        },
        Event::Closed => {
            if pipeline.stage != Stage::Closing {
                pipeline.abort_with(PipelineError::EncodeError)
            } else {
                pipeline.stage = Stage::Done;
                Action::Persist
            }
        },
    }
}

/// The run after each event of `events` in turn.
pub open spec fn run_events(p: PipelineView, events: Seq<Event>) -> PipelineView
    decreases events.len(),
{
    if events.len() == 0 {
        p
    } else {
        step(run_events(p, events.drop_last()), events.last()).0
    }
}

/// The bytes that event `e` carries into the bitstream of a run in state `p`:
/// the units of a feed while encoding, or of a drain call while draining.
pub open spec fn accepted_bytes(p: PipelineView, e: Event) -> Seq<u8> {
    match e {
        Event::Fed { units, .. } => if p.stage == Stage::Encoding { unit_bytes(units@) } else { Seq::empty() },
        Event::Flushed { units } => if p.stage == Stage::Flushing { unit_bytes(units@) } else { Seq::empty() },
        _ => Seq::empty(),
    }
}

/// The bytes that `events` carry into the bitstream, concatenated in call order.
pub open spec fn emitted(p: PipelineView, events: Seq<Event>) -> Seq<u8>
    decreases events.len(),
{
    if events.len() == 0 {
        Seq::empty()
    } else {
        emitted(p, events.drop_last()) + accepted_bytes(run_events(p, events.drop_last()), events.last())
    }
}

/// The bitstream is the concatenation, in call order, of every unit payload of
/// every feed and drain call: nothing is reordered, dropped or repeated, so the
/// same encoder outputs always give the same bytes.
pub proof fn lemma_bitstream_in_call_order(p: PipelineView, events: Seq<Event>)
    ensures
        run_events(p, events).bitstream == p.bitstream + emitted(p, events),
    decreases events.len(),
{
    if events.len() == 0 {
        assert(p.bitstream + Seq::<u8>::empty() =~= p.bitstream);
    } else {
        let rest = events.drop_last();
        lemma_bitstream_in_call_order(p, rest);
        let q = run_events(p, rest);
        let extra = accepted_bytes(q, events.last());
        assert(step(q, events.last()).0.bitstream == q.bitstream + extra);
        assert(p.bitstream + emitted(p, rest) + extra =~= p.bitstream + (emitted(p, rest) + extra));
    }
}

} // verus!
