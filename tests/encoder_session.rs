use imager_x264::config::{ColorFormat, EncoderConfig, Preset, Profile, RateControl, Tune};
use imager_x264::error::PipelineError;
use imager_x264::frame::Frame;
use imager_x264::session::{reconstruction_applies, setup_outcome, units_of, EncoderSession, SessionPhase};

const PRESETS: [&str; 10] = [
    "ultrafast", "superfast", "veryfast", "faster", "fast", "medium", "slow", "slower", "veryslow", "placebo",
];

#[test]
fn default_config_validates() {
    let s = EncoderConfig::new(1920, 818).validate().unwrap();
    assert_eq!(s.preset, Preset::Ultrafast);
    assert_eq!(s.tune, Some(Tune::Ssim));
    assert_eq!(s.profile, Some(Profile::High));
    assert_eq!(s.rate_control, RateControl::ConstantRateFactor(40));
    assert!(s.annexb && s.repeat_headers && s.full_recon && !s.vfr_input);
}

#[test]
fn unknown_preset_is_config_error() {
    let mut c = EncoderConfig::new(4, 4);
    c.preset = String::from("warpspeed");
    assert!(matches!(EncoderSession::open(&c), Err(PipelineError::ConfigError)));
}

#[test]
fn every_documented_preset_opens() {
    for name in PRESETS {
        let mut c = EncoderConfig::new(4, 4);
        c.preset = String::from(name);
        let s = EncoderSession::open(&c).unwrap();
        assert_eq!(s.settings.preset.name(), name);
    }
}

#[test]
fn preset_names_round_trip() {
    for name in PRESETS {
        assert_eq!(Preset::from_name(name).unwrap().name(), name);
    }
    assert_eq!(Preset::from_name("Ultrafast"), None);
    assert_eq!(Tune::from_name("zerolatency"), Some(Tune::ZeroLatency));
    assert_eq!(Profile::from_name("high10"), Some(Profile::High10));
}

#[test]
fn unknown_tune_or_profile_is_config_error() {
    let mut c = EncoderConfig::new(4, 4);
    c.tune = Some(String::from("cartoon"));
    assert!(matches!(c.validate(), Err(PipelineError::ConfigError)));
    let mut c = EncoderConfig::new(4, 4);
    c.profile = Some(String::from("extended"));
    assert!(matches!(c.validate(), Err(PipelineError::ConfigError)));
    let mut c = EncoderConfig::new(4, 4);
    c.tune = None;
    c.profile = None;
    assert!(c.validate().is_ok());
}

#[test]
fn zero_dimension_or_other_format_is_config_error() {
    assert!(matches!(EncoderConfig::new(0, 4).validate(), Err(PipelineError::ConfigError)));
    assert!(matches!(EncoderConfig::new(4, 0).validate(), Err(PipelineError::ConfigError)));
    let mut c = EncoderConfig::new(4, 4);
    c.color_format = ColorFormat::I444;
    assert!(matches!(c.validate(), Err(PipelineError::ConfigError)));
    let mut c = EncoderConfig::new(4, 4);
    c.bit_depth = 10;
    assert!(matches!(c.validate(), Err(PipelineError::ConfigError)));
}

#[test]
fn setup_statuses_map_to_errors() {
    assert_eq!(setup_outcome(0, 0, 0, true), Ok(()));
    assert_eq!(setup_outcome(-1, 0, 0, true), Err(PipelineError::ConfigError));
    assert_eq!(setup_outcome(0, -1, 0, true), Err(PipelineError::ConfigError));
    assert_eq!(setup_outcome(0, 0, -1, true), Err(PipelineError::AllocationError));
    assert_eq!(setup_outcome(0, 0, 0, false), Err(PipelineError::OpenError));
}

#[test]
fn layout_check_wants_configured_strides() {
    let s = EncoderSession::open(&EncoderConfig::new(8, 4)).unwrap();
    assert_eq!(s.check_layout(3, &[8, 4, 4]), Ok(()));
    assert_eq!(s.check_layout(3, &[16, 8, 8]), Err(PipelineError::LayoutError));
    assert_eq!(s.check_layout(2, &[8, 4, 4]), Err(PipelineError::LayoutError));
    assert_eq!(s.check_layout(3, &[8, 4]), Err(PipelineError::LayoutError));
}

#[test]
fn staging_assigns_increasing_timestamps() {
    let mut s = EncoderSession::open(&EncoderConfig::new(4, 2)).unwrap();
    let f = Frame::new(4, 2, (0..8).collect(), vec![1, 2], vec![3, 4]).unwrap();
    let a = s.stage(&f).unwrap();
    let b = s.stage(&f).unwrap();
    assert_eq!(a.pts, 0);
    assert_eq!(b.pts, 1);
    assert_eq!(a.y, f.y);
    assert_eq!(a.u, vec![1, 2]);
    assert_eq!(a.v, vec![3, 4]);
    assert_eq!(s.fed, 2);
}

#[test]
fn staging_a_frame_of_other_size_is_dimension_mismatch() {
    let mut s = EncoderSession::open(&EncoderConfig::new(4, 4)).unwrap();
    let f = Frame::filled(4, 2, 0);
    assert!(matches!(s.stage(&f), Err(PipelineError::DimensionMismatch)));
    assert_eq!(s.next_pts, 0);
}

#[test]
fn staging_after_close_is_encode_error() {
    let mut s = EncoderSession::open(&EncoderConfig::new(4, 4)).unwrap();
    s.close();
    assert_eq!(s.phase, SessionPhase::Closed);
    assert!(matches!(s.stage(&Frame::filled(4, 4, 0)), Err(PipelineError::EncodeError)));
}

#[test]
fn encode_status_gives_units() {
    assert!(matches!(units_of(-1, vec![]), Err(PipelineError::EncodeError)));
    assert!(units_of(0, vec![]).unwrap().is_empty());
    let units = units_of(3, vec![0, 0, 1]).unwrap();
    assert_eq!(units.len(), 1);
    assert_eq!(units[0].payload, vec![0, 0, 1]);
    assert!(matches!(units_of(2, vec![0, 0, 1]), Err(PipelineError::EncodeError)));
}

#[test]
fn reconstruction_is_copied_out_of_strided_planes() {
    let s = EncoderSession::open(&EncoderConfig::new(2, 2)).unwrap();
    let f = s.reconstruction(&[1, 2, 0, 3, 4, 0], 3, &[5, 0], &[6, 0], 2).unwrap();
    assert_eq!(f.y, vec![1, 2, 3, 4]);
    assert_eq!(f.u, vec![5]);
    assert_eq!(f.v, vec![6]);
    assert!(matches!(s.reconstruction(&[1, 2, 3], 2, &[5], &[6], 1), Err(PipelineError::LayoutError)));
    assert!(matches!(s.reconstruction(&[1, 2, 3, 4], 1, &[5], &[6], 1), Err(PipelineError::LayoutError)));
}

#[test]
fn flushing_stops_when_nothing_is_delayed() {
    let mut s = EncoderSession::open(&EncoderConfig::new(4, 4)).unwrap();
    s.stage(&Frame::filled(4, 4, 1)).unwrap();
    assert!(!s.flush_step(0));
    assert_eq!(s.phase, SessionPhase::Flushing);
}

#[test]
fn flushing_ends_within_frames_fed() {
    let mut s = EncoderSession::open(&EncoderConfig::new(4, 4)).unwrap();
    for _ in 0..3 {
        s.stage(&Frame::filled(4, 4, 1)).unwrap();
    }
    let mut calls = 0;
    while s.flush_step(5) {
        calls += 1;
    }
    assert_eq!(calls, 3);
    assert!(matches!(s.stage(&Frame::filled(4, 4, 1)), Err(PipelineError::EncodeError)));
}

#[test]
fn single_gray_frame_feeds_and_drains() {
    let mut s = EncoderSession::open(&EncoderConfig::new(4, 4)).unwrap();
    let staged = s.stage(&Frame::filled(4, 4, 128)).unwrap();
    assert_eq!(staged.y, vec![128; 16]);
    assert_eq!(staged.u, vec![128; 4]);
    assert!(units_of(0, vec![]).is_ok());
    let mut calls = 0;
    let mut delayed = 1;
    while s.flush_step(delayed) {
        calls += 1;
        delayed -= 1;
    }
    assert_eq!(calls, 1);
}

#[test]
fn reconstruction_applies_only_to_the_staged_frame() {
    let mut s = EncoderSession::open(&EncoderConfig::new(2, 2)).unwrap();
    let f = Frame::filled(2, 2, 5);
    s.stage(&f).unwrap();
    let staged = s.stage(&f).unwrap();
    assert!(reconstruction_applies(&staged, 10, 1));
    assert!(!reconstruction_applies(&staged, 10, 0));
    assert!(!reconstruction_applies(&staged, 0, 1));
}
