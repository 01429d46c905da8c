use imager_x264::error::PipelineError;
use imager_x264::frame::Frame;
use imager_x264::plane::{from_strided, to_strided};
use imager_x264::source::{frame_from_planar, FrameSource};

#[test]
fn frame_new_accepts_420_layout() {
    let f = Frame::new(4, 2, vec![1; 8], vec![2; 2], vec![3; 2]).unwrap();
    assert_eq!(f.width, 4);
    assert_eq!(f.height, 2);
    assert_eq!(f.y, vec![1; 8]);
    assert_eq!(f.u, vec![2; 2]);
    assert_eq!(f.v, vec![3; 2]);
}

#[test]
fn frame_new_rejects_odd_dimensions() {
    let r = Frame::new(3, 2, vec![0; 6], vec![0; 1], vec![0; 1]);
    assert!(matches!(r, Err(PipelineError::DecodeError)));
}

#[test]
fn frame_new_rejects_short_chroma() {
    let r = Frame::new(4, 4, vec![0; 16], vec![0; 3], vec![0; 4]);
    assert!(matches!(r, Err(PipelineError::DecodeError)));
}

#[test]
fn filled_frame_has_uniform_planes() {
    let f = Frame::filled(4, 4, 128);
    assert_eq!(f.y, vec![128; 16]);
    assert_eq!(f.u, vec![128; 4]);
    assert_eq!(f.v, vec![128; 4]);
}

#[test]
fn duplicate_keeps_planes() {
    let f = Frame::new(2, 2, vec![1, 2, 3, 4], vec![5], vec![6]).unwrap();
    let g = f.duplicate();
    assert_eq!(g.y, f.y);
    assert_eq!(g.u, f.u);
    assert_eq!(g.v, f.v);
    assert!(f.same_dimensions(&g));
}

#[test]
fn to_strided_pads_rows_with_zeros() {
    let out = to_strided(&[1, 2, 3, 4, 5, 6], 3, 2, 5);
    assert_eq!(out, vec![1, 2, 3, 0, 0, 4, 5, 6, 0, 0]);
}

#[test]
fn from_strided_drops_padding() {
    let out = from_strided(&[1, 2, 9, 9, 3, 4, 9, 9], 4, 2, 2);
    assert_eq!(out, vec![1, 2, 3, 4]);
}

#[test]
fn strided_round_trip_restores_plane() {
    let plane: Vec<u8> = (0..12).collect();
    let padded = to_strided(&plane, 4, 3, 7);
    assert_eq!(padded.len(), 21);
    assert_eq!(from_strided(&padded, 7, 4, 3), plane);
}

#[test]
fn equal_stride_copy_is_identity() {
    let plane: Vec<u8> = (10..18).collect();
    assert_eq!(to_strided(&plane, 4, 2, 4), plane);
}

#[test]
fn raw_frame_splits_into_planes() {
    let bytes: Vec<u8> = (0..12).collect();
    let f = frame_from_planar(&bytes, 4, 2).unwrap();
    assert_eq!(f.y, vec![0, 1, 2, 3, 4, 5, 6, 7]);
    assert_eq!(f.u, vec![8, 9]);
    assert_eq!(f.v, vec![10, 11]);
}

#[test]
fn raw_frame_of_wrong_size_is_decode_error() {
    let bytes = vec![0u8; 11];
    assert!(matches!(frame_from_planar(&bytes, 4, 2), Err(PipelineError::DecodeError)));
}

#[test]
fn empty_source_ends_at_once() {
    let mut s = FrameSource::open(4, 4, 0);
    assert_eq!(s.next_index(), None);
    assert_eq!(s.next_index(), None);
}

#[test]
fn source_walks_inputs_in_order_once() {
    let mut s = FrameSource::open(4, 4, 3);
    assert_eq!(s.next_index(), Some(0));
    assert_eq!(s.next_index(), Some(1));
    assert_eq!(s.next_index(), Some(2));
    assert_eq!(s.next_index(), None);
}

#[test]
fn source_decodes_with_its_dimensions() {
    let s = FrameSource::open(2, 2, 1);
    let f = s.decode(&[7, 7, 7, 7, 8, 9]).unwrap();
    assert_eq!(f.width, 2);
    assert_eq!(f.u, vec![8]);
    assert_eq!(f.v, vec![9]);
    assert!(matches!(s.decode(&[0; 5]), Err(PipelineError::DecodeError)));
}
