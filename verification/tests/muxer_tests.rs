use std::io::Cursor;

use trichloride::framerate::Framerate;
use trichloride::muxer::{Devout, DevoutError, MuxerState};

fn annexb(units: &[&[u8]]) -> Vec<u8> {
    let mut buf = Vec::new();
    for u in units {
        buf.extend_from_slice(&[0, 0, 1]);
        buf.extend_from_slice(u);
    }
    buf
}

fn read_back(bytes: &[u8]) -> mp4::Mp4Reader<Cursor<Vec<u8>>> {
    let size = bytes.len() as u64;
    mp4::Mp4Reader::read_header(Cursor::new(bytes.to_vec()), size).unwrap()
}

const SPS: &[u8] = &[0x67, 0x42, 0x00, 0x1f];
const PPS: &[u8] = &[0x68, 0xce, 0x3c, 0x80];
const IDR: &[u8] = &[0x65, 0x88, 0x84, 0x21];
const DELTA: &[u8] = &[0x41, 0x9a, 0x02];

#[test]
fn black_frame_scenario() {
    // One small RGB frame, all pixels black: the engine walks
    // Uninitialized -> EncoderReady -> ContainerReady, appends exactly one
    // sample starting at tick 0, and finalizes without error. (16x16 is the
    // smallest frame the external encoder accepts reliably.)
    let mut dev = Devout::new(Framerate::Thirty);
    assert_eq!(dev.state(), MuxerState::Uninitialized);
    let black = vec![0u8; 16 * 16 * 3];
    dev.frame(16, 16, &black).unwrap();
    assert_eq!(dev.state(), MuxerState::ContainerReady);
    assert_eq!(dev.frames_written(), 1);
    assert_eq!(dev.ticks(), 512);
    dev.done().unwrap();
    assert_eq!(dev.state(), MuxerState::Finalized);

    let bytes = dev.output().unwrap().clone();
    let mut reader = read_back(&bytes);
    assert_eq!(reader.sample_count(1).unwrap(), 1);
    let sample = reader.read_sample(1, 1).unwrap().unwrap();
    assert_eq!(sample.start_time, 0);
    assert!(sample.is_sync);
}

#[test]
fn thirty_frames_at_thirty_fps_scenario() {
    // 30 frames at 30 fps: start times 0, 512, ..., 14848, and a total
    // duration of 15360 ticks, exactly one second at that timescale.
    let mut dev = Devout::new(Framerate::Thirty);
    let black = vec![0u8; 16 * 16 * 3];
    for _ in 0..30 {
        dev.frame(16, 16, &black).unwrap();
    }
    assert_eq!(dev.frames_written(), 30);
    assert_eq!(dev.ticks(), 15360);
    dev.done().unwrap();

    let bytes = dev.output().unwrap().clone();
    let mut reader = read_back(&bytes);
    assert_eq!(reader.sample_count(1).unwrap(), 30);
    for k in 0..30u32 {
        let sample = reader.read_sample(1, k + 1).unwrap().unwrap();
        assert_eq!(sample.start_time, k as u64 * 512);
        assert_eq!(sample.duration, 512);
    }
    let track = &reader.tracks()[&1];
    assert_eq!(track.timescale(), 15360);
}

#[test]
fn dimension_mismatch_scenario() {
    // A second frame of different dimensions is rejected before any encode
    // attempt: nothing about the engine changes.
    let mut dev = Devout::new(Framerate::Thirty);
    let black16 = vec![0u8; 16 * 16 * 3];
    dev.frame(16, 16, &black16).unwrap();
    let black32 = vec![0u8; 32 * 32 * 3];
    let r = dev.frame(32, 32, &black32);
    assert_eq!(r, Err(DevoutError::DimensionMismatch));
    assert_eq!(dev.frames_written(), 1);
    assert_eq!(dev.ticks(), 512);
    assert_eq!(dev.state(), MuxerState::ContainerReady);
}

#[test]
fn dimension_mismatch_before_first_encode() {
    let mut dev = Devout::new_with_dimensions(Framerate::Thirty, 2, 2).unwrap();
    assert_eq!(dev.state(), MuxerState::EncoderReady);
    let black4 = vec![0u8; 4 * 4 * 3];
    let r = dev.frame(4, 4, &black4);
    assert_eq!(r, Err(DevoutError::DimensionMismatch));
    assert_eq!(dev.state(), MuxerState::EncoderReady);
    assert_eq!(dev.frames_written(), 0);
}

#[test]
fn finalize_is_idempotent() {
    // Finalizing twice yields the same container bytes as finalizing once,
    // and the second call never errors.
    let mut dev = Devout::new(Framerate::Thirty);
    let black = vec![0u8; 16 * 16 * 3];
    dev.frame(16, 16, &black).unwrap();
    dev.done().unwrap();
    let first = dev.output().unwrap().clone();
    let again = dev.done();
    assert!(again.is_ok());
    let second = dev.output().unwrap().clone();
    assert_eq!(first, second);
    assert_eq!(dev.state(), MuxerState::Finalized);
}

#[test]
fn finalize_without_frames_is_a_noop() {
    let mut dev = Devout::new(Framerate::Thirty);
    assert!(dev.done().is_ok());
    assert_eq!(dev.state(), MuxerState::Finalized);
    assert!(dev.output().is_none());
    // Finalizing again is still fine.
    assert!(dev.done().is_ok());
}

#[test]
fn finalize_before_container_is_a_noop() {
    let mut dev = Devout::new_with_dimensions(Framerate::Thirty, 2, 2).unwrap();
    assert!(dev.done().is_ok());
    assert_eq!(dev.state(), MuxerState::Finalized);
    assert!(dev.output().is_none());
}

#[test]
fn push_encoded_frames_only_non_parameter_units() {
    // Parameter-set bytes never appear inside a sample payload, even when
    // a later bitstream re-emits them.
    let mut dev = Devout::new_with_dimensions(Framerate::Thirty, 2, 2).unwrap();
    let first = annexb(&[SPS, PPS, IDR]);
    dev.push_encoded(&first).unwrap();
    // The second bitstream re-emits the parameter sets around a delta unit.
    let second = annexb(&[SPS, PPS, DELTA]);
    dev.push_encoded(&second).unwrap();
    dev.done().unwrap();

    let bytes = dev.output().unwrap().clone();
    let mut reader = read_back(&bytes);
    assert_eq!(reader.sample_count(1).unwrap(), 2);
    let s1 = reader.read_sample(1, 1).unwrap().unwrap();
    let mut expect1 = vec![0u8, 0, 0, IDR.len() as u8];
    expect1.extend_from_slice(IDR);
    assert_eq!(&s1.bytes[..], &expect1[..]);
    assert!(s1.is_sync);
    let s2 = reader.read_sample(1, 2).unwrap().unwrap();
    let mut expect2 = vec![0u8, 0, 0, DELTA.len() as u8];
    expect2.extend_from_slice(DELTA);
    assert_eq!(&s2.bytes[..], &expect2[..]);
    assert!(!s2.is_sync);
}

#[test]
fn push_encoded_rejects_unsplittable_bitstreams() {
    let mut dev = Devout::new_with_dimensions(Framerate::Thirty, 2, 2).unwrap();
    let garbage = vec![0xba, 0xad, 0xf0, 0x0d];
    assert_eq!(dev.push_encoded(&garbage), Err(DevoutError::BitstreamParseError));
    assert_eq!(dev.state(), MuxerState::EncoderReady);
    assert_eq!(dev.frames_written(), 0);
}

#[test]
fn push_encoded_reports_missing_parameter_sets() {
    let mut dev = Devout::new_with_dimensions(Framerate::Thirty, 2, 2).unwrap();
    let no_ps = annexb(&[IDR]);
    assert_eq!(dev.push_encoded(&no_ps), Err(DevoutError::MissingParameterSets));
    assert_eq!(dev.state(), MuxerState::EncoderReady);
}

#[test]
fn push_encoded_reports_short_parameter_sets() {
    // A sequence parameter set too short for the decoder configuration is
    // reported as a typed failure, never as an out-of-range index.
    let mut dev = Devout::new_with_dimensions(Framerate::Thirty, 2, 2).unwrap();
    let short_sps: &[u8] = &[0x67, 0x42];
    let stream = annexb(&[short_sps, PPS, IDR]);
    assert_eq!(dev.push_encoded(&stream), Err(DevoutError::MissingParameterSets));
}

#[test]
fn container_brands_and_timescale() {
    let mut dev = Devout::new_with_dimensions(Framerate::Whole(25), 2, 2).unwrap();
    let stream = annexb(&[SPS, PPS, IDR]);
    dev.push_encoded(&stream).unwrap();
    dev.done().unwrap();
    let bytes = dev.output().unwrap().clone();
    let reader = read_back(&bytes);
    assert_eq!(reader.major_brand().to_string(), "isom");
    assert_eq!(reader.minor_version(), 512);
    let brands: Vec<String> = reader.compatible_brands().iter().map(|b| b.to_string()).collect();
    assert_eq!(brands, vec!["isom", "iso2", "avc1", "mp41"]);
    assert_eq!(reader.timescale(), 1000);
    let track = &reader.tracks()[&1];
    assert_eq!(track.timescale(), 25_000);
}

#[test]
fn set_bitrate_applies_only_before_the_encoder_exists() {
    let mut dev = Devout::new(Framerate::Thirty);
    dev.set_bitrate(2500);
    let black = vec![0u8; 16 * 16 * 3];
    dev.frame(16, 16, &black).unwrap();
    // Changing it now is ignored; the call must still be harmless.
    dev.set_bitrate(9999);
    dev.frame(16, 16, &black).unwrap();
    assert_eq!(dev.frames_written(), 2);
}

#[test]
fn yuv420_frames_are_accepted() {
    let mut dev = Devout::new(Framerate::Sixty);
    // A 16x16 planar 4:2:0 frame: 256 luma bytes and 64 of each chroma.
    let mut yuv = vec![16u8; 256];
    yuv.extend_from_slice(&[128u8; 128]);
    dev.frame_yuv420(16, 16, &yuv).unwrap();
    assert_eq!(dev.frames_written(), 1);
    assert_eq!(dev.ticks(), 256);
    dev.done().unwrap();
    assert!(dev.output().is_some());
}

#[test]
fn oversized_frames_are_rejected_by_the_encoder() {
    // The external encoder caps its resolution; the failure surfaces as a
    // typed error and the engine stays where it was.
    let mut dev = Devout::new(Framerate::Thirty);
    let w: u32 = 3842;
    let h: u32 = 2162;
    let big = vec![0u8; (w * h * 3) as usize];
    let r = dev.frame(w, h, &big);
    assert_eq!(r, Err(DevoutError::EncoderInitError));
    assert_eq!(dev.frames_written(), 0);
    assert_eq!(dev.ticks(), 0);
}
