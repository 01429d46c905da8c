use imager_x264::error::PipelineError;
use imager_x264::frame::Frame;
use imager_x264::pipeline::{append_units, Action, Event, Pipeline, Stage};
use imager_x264::quality::{check_dimensions, engine_outcome, Comparison};
use imager_x264::run;
use imager_x264::session::EncodedUnit;

fn unit(bytes: &[u8]) -> EncodedUnit {
    EncodedUnit { payload: bytes.to_vec() }
}

#[test]
fn mismatched_frames_are_dimension_mismatch() {
    let a = Frame::filled(4, 4, 0);
    let b = Frame::filled(4, 2, 0);
    let c = Frame::filled(2, 4, 0);
    assert_eq!(check_dimensions(&a, &b), Err(PipelineError::DimensionMismatch));
    assert_eq!(check_dimensions(&a, &c), Err(PipelineError::DimensionMismatch));
    assert_eq!(check_dimensions(&a, &a.duplicate()), Ok(()));
    assert!(matches!(Comparison::new(a, b), Err(PipelineError::DimensionMismatch)));
}

#[test]
fn comparison_delivers_once_then_ends() {
    let a = Frame::new(2, 2, vec![1, 2, 3, 4], vec![0], vec![0]).unwrap();
    let b = Frame::new(2, 2, vec![5, 6, 7, 8], vec![0], vec![0]).unwrap();
    let mut c = Comparison::new(a, b).unwrap();
    let pair = c.pull(3).unwrap().unwrap();
    assert_eq!(pair.reference, vec![1, 2, 0, 3, 4, 0]);
    assert_eq!(pair.reconstructed, vec![5, 6, 0, 7, 8, 0]);
    assert!(c.delivered);
    assert!(c.pull(3).unwrap().is_none());
    assert!(c.pull(3).unwrap().is_none());
}

#[test]
fn identical_frames_deliver_identical_planes() {
    let a = Frame::filled(4, 2, 77);
    let mut c = Comparison::new(a.duplicate(), a).unwrap();
    let pair = c.pull(4).unwrap().unwrap();
    assert_eq!(pair.reference, pair.reconstructed);
}

#[test]
fn short_engine_stride_is_engine_error() {
    let a = Frame::filled(4, 2, 1);
    let mut c = Comparison::new(a.duplicate(), a).unwrap();
    assert_eq!(c.pull(3).err(), Some(PipelineError::MetricEngineError));
    assert!(!c.delivered);
}

#[test]
fn engine_outcomes_map_to_errors() {
    assert_eq!(engine_outcome(true, None, 0), Ok(()));
    assert_eq!(engine_outcome(false, None, 0), Err(PipelineError::ModelUnavailable));
    assert_eq!(engine_outcome(true, None, 1), Err(PipelineError::MetricEngineError));
    assert_eq!(
        engine_outcome(true, Some(PipelineError::MetricEngineError), 0),
        Err(PipelineError::MetricEngineError)
    );
}

#[test]
fn empty_source_goes_straight_to_flush() {
    let mut p = Pipeline::new();
    assert_eq!(run(&mut p, Event::SourceEnd), Action::Flush);
    assert_eq!(run(&mut p, Event::Flushed { units: vec![] }), Action::Flush);
    assert_eq!(run(&mut p, Event::Drained), Action::Close);
    assert_eq!(run(&mut p, Event::Closed), Action::Persist);
    assert_eq!(p.stage, Stage::Done);
    assert!(p.bitstream.is_empty());
    assert!(p.reports.is_empty());
    assert_eq!(run(&mut p, Event::Closed), Action::Idle);
}

fn drive(p: &mut Pipeline) -> Vec<Action> {
    vec![
        run(p, Event::FrameRead),
        run(p, Event::Fed { units: vec![], reconstructed: false }),
        run(p, Event::FrameRead),
        run(p, Event::Fed { units: vec![unit(&[0, 0, 1]), unit(&[9])], reconstructed: true }),
        run(p, Event::Scored),
        run(p, Event::SourceEnd),
        run(p, Event::Flushed { units: vec![unit(&[4, 5])] }),
        run(p, Event::Flushed { units: vec![unit(&[6])] }),
        run(p, Event::Drained),
        run(p, Event::Closed),
    ]
}

#[test]
fn bitstream_concatenates_units_in_call_order() {
    let mut p = Pipeline::new();
    let actions = drive(&mut p);
    assert_eq!(
        actions,
        vec![
            Action::Feed,
            Action::ReadNext,
            Action::Feed,
            Action::Score { index: 1 },
            Action::ReadNext,
            Action::Flush,
            Action::Flush,
            Action::Flush,
            Action::Close,
            Action::Persist,
        ]
    );
    assert_eq!(p.bitstream, vec![0, 0, 1, 9, 4, 5, 6]);
    assert_eq!(p.reports, vec![1]);
}

#[test]
fn same_outputs_give_same_bitstream() {
    let mut a = Pipeline::new();
    let mut b = Pipeline::new();
    drive(&mut a);
    drive(&mut b);
    assert_eq!(a.bitstream, b.bitstream);
}

#[test]
fn failure_closes_before_aborting() {
    let mut p = Pipeline::new();
    assert_eq!(run(&mut p, Event::FrameRead), Action::Feed);
    assert_eq!(run(&mut p, Event::Failed(PipelineError::EncodeError)), Action::Close);
    assert_eq!(p.stage, Stage::Aborting(PipelineError::EncodeError));
    assert_eq!(run(&mut p, Event::Closed), Action::Abort(PipelineError::EncodeError));
    assert_eq!(p.stage, Stage::Failed(PipelineError::EncodeError));
}

#[test]
fn out_of_order_event_aborts() {
    let mut p = Pipeline::new();
    assert_eq!(run(&mut p, Event::Scored), Action::Close);
    assert_eq!(p.stage, Stage::Aborting(PipelineError::EncodeError));
}

#[test]
fn append_units_keeps_order() {
    let mut out = vec![1u8];
    append_units(&mut out, &vec![unit(&[2, 3]), unit(&[]), unit(&[4])]);
    assert_eq!(out, vec![1, 2, 3, 4]);
}

#[test]
fn reports_follow_source_order() {
    let mut p = Pipeline::new();
    for _ in 0..3 {
        assert_eq!(run(&mut p, Event::FrameRead), Action::Feed);
        assert_eq!(run(&mut p, Event::Fed { units: vec![], reconstructed: true }), Action::Score { index: p.frame_index });
        assert_eq!(run(&mut p, Event::Scored), Action::ReadNext);
    }
    assert_eq!(p.reports, vec![0, 1, 2]);
    assert_eq!(p.frame_index, 3);
}
