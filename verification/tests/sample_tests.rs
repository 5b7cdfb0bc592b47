use trichloride::nal::{split_annexb, NalKind, NalUnit};
use trichloride::pscache::ParameterSetCache;
use trichloride::sample::build_sample;

fn unit(bytes: &[u8]) -> NalUnit {
    let code = bytes[0] & 0x1f;
    let kind = if code == 7 {
        NalKind::SequenceParameterSet
    } else if code == 8 {
        NalKind::PictureParameterSet
    } else {
        NalKind::Other(code)
    };
    NalUnit { kind, payload: bytes.to_vec() }
}

#[test]
fn frames_units_with_big_endian_lengths() {
    let units = vec![unit(&[0x65, 0xaa, 0xbb]), unit(&[0x41, 0x01])];
    let s = build_sample(&units, 512, 512);
    assert_eq!(s.start_time, 512);
    assert_eq!(s.duration, 512);
    assert!(s.is_sync);
    assert_eq!(
        s.payload,
        vec![0, 0, 0, 3, 0x65, 0xaa, 0xbb, 0, 0, 0, 2, 0x41, 0x01]
    );
}

#[test]
fn parameter_sets_are_excluded_from_payload() {
    let units = vec![
        unit(&[0x67, 0x42, 0x00, 0x1f]),
        unit(&[0x68, 0xce]),
        unit(&[0x65, 0x88]),
    ];
    let s = build_sample(&units, 0, 100);
    // Only the refresh unit is framed; the parameter sets are not.
    assert_eq!(s.payload, vec![0, 0, 0, 2, 0x65, 0x88]);
}

#[test]
fn sync_flag_tracks_refresh_units() {
    let without = vec![unit(&[0x41, 0x9a])];
    assert!(!build_sample(&without, 0, 1).is_sync);
    let with = vec![unit(&[0x41, 0x9a]), unit(&[0x65, 0x00])];
    assert!(build_sample(&with, 0, 1).is_sync);
}

#[test]
fn no_units_gives_empty_payload() {
    let units: Vec<NalUnit> = Vec::new();
    let s = build_sample(&units, 7, 9);
    assert_eq!(s.payload, Vec::<u8>::new());
    assert!(!s.is_sync);
    assert_eq!(s.start_time, 7);
    assert_eq!(s.duration, 9);
}

#[test]
fn capture_takes_first_of_each_set() {
    let buf = vec![
        0, 0, 1, 0x67, 0x01, 0, 0, 1, 0x68, 0x02, 0, 0, 1, 0x67, 0x03, 0, 0, 1, 0x68, 0x04,
    ];
    let units = split_annexb(&buf).unwrap();
    let mut cache = ParameterSetCache::new();
    assert!(cache.capture(&units).is_ok());
    assert!(cache.complete());
    assert_eq!(cache.sps().unwrap(), &vec![0x67, 0x01]);
    assert_eq!(cache.pps().unwrap(), &vec![0x68, 0x02]);
}

#[test]
fn capture_reports_missing_sets() {
    let only_sps = split_annexb(&[0, 0, 1, 0x67, 0x01]).unwrap();
    let mut cache = ParameterSetCache::new();
    assert!(cache.capture(&only_sps).is_err());
    assert!(!cache.complete());
    assert!(cache.sps().is_none());
    assert!(cache.pps().is_none());
}

#[test]
fn capture_is_frozen_once_complete() {
    let first = split_annexb(&[0, 0, 1, 0x67, 0x01, 0, 0, 1, 0x68, 0x02]).unwrap();
    let later = split_annexb(&[0, 0, 1, 0x67, 0x09, 0, 0, 1, 0x68, 0x0a]).unwrap();
    let mut cache = ParameterSetCache::new();
    assert!(cache.capture(&first).is_ok());
    assert!(cache.capture(&later).is_ok());
    // The cache keeps the first pair; it is never re-derived.
    assert_eq!(cache.sps().unwrap(), &vec![0x67, 0x01]);
    assert_eq!(cache.pps().unwrap(), &vec![0x68, 0x02]);
}
