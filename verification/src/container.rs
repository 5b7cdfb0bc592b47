//! Trusted boundary to the external box-structured container writer.
//!
//! The container grows in memory behind a seekable byte cursor, because
//! the format patches earlier-written size fields after later writes; the
//! finished bytes are handed out when the container is closed. What the
//! verified code relies on is the ordered record of samples the writer
//! holds, named by `track_samples`.

use vstd::prelude::*;

verus! {

#[verifier::external_type_specification]
#[verifier::external_body]
#[verifier::reject_recursive_types(W)]
pub struct ExMp4Writer<W>(mp4::Mp4Writer<W>);

#[verifier::external_type_specification]
#[verifier::external_body]
#[verifier::reject_recursive_types(T)]
pub struct ExCursor<T>(std::io::Cursor<T>);

#[verifier::external_type_specification]
#[verifier::external_body]
pub struct ExMp4Error(mp4::Error);

/// The ordered samples held by the container's video track: for each
/// sample its duration in ticks, its sync flag, and its bytes. The format
/// does not store start times; a sample's start time is the sum of the
/// durations before it.
pub uninterp spec fn track_samples(w: mp4::Mp4Writer<std::io::Cursor<Vec<u8>>>) -> Seq<
    (u32, bool, Seq<u8>),
>;

/// Relies on mp4's `Mp4Writer::write_start`: begins a container over a
/// fresh in-memory cursor, writing the file-type box with the given brand
/// identifiers and the movie header timescale. A brand that is not exactly
/// four bytes is reported as an error, not a panic. A fresh writer holds
/// no tracks and no samples.
#[verifier::external_body]
pub(crate) fn open_container(
    major_brand: &str,
    compat_a: &str,
    compat_b: &str,
    compat_c: &str,
    compat_d: &str,
    minor_version: u32,
    movie_timescale: u32,
) -> (r: Result<mp4::Mp4Writer<std::io::Cursor<Vec<u8>>>, mp4::Error>)
    ensures
        r matches Ok(w) ==> track_samples(w) == Seq::<(u32, bool, Seq<u8>)>::empty(),
{
    let config = mp4::Mp4Config {
        major_brand: major_brand.parse()?,
        minor_version,
        compatible_brands: vec![
            compat_a.parse()?,
            compat_b.parse()?,
            compat_c.parse()?,
            compat_d.parse()?,
        ],
        timescale: movie_timescale,
    };
    mp4::Mp4Writer::write_start(std::io::Cursor::new(Vec::new()), &config)
}

/// Relies on mp4's `Mp4Writer::add_track`: adds the single video track,
/// whose avc1 sample entry carries the two parameter sets in its decoder
/// configuration. The source reads the profile bytes at indexes 1 to 3 of
/// the sequence parameter set, so at least four bytes are demanded of it.
/// Adding a track writes no samples.
#[verifier::external_body]
pub(crate) fn add_video_track(
    w: &mut mp4::Mp4Writer<std::io::Cursor<Vec<u8>>>,
    width: u16,
    height: u16,
    track_timescale: u32,
    language: &str,
    sps: &Vec<u8>,
    pps: &Vec<u8>,
) -> (r: Result<(), mp4::Error>)
    requires
        sps@.len() >= 4,
    ensures
        track_samples(*final(w)) == track_samples(*old(w)),
{
    let track_config = mp4::TrackConfig {
        track_type: mp4::TrackType::Video,
        timescale: track_timescale,
        language: language.to_string(),
        media_conf: mp4::MediaConfig::AvcConfig(mp4::AvcConfig {
            width,
            height,
            seq_param_set: sps.clone(),
            pic_param_set: pps.clone(),
        }),
    };
    w.add_track(&track_config)
}

/// Relies on mp4's `Mp4Writer::write_sample` for the container's single
/// video track (the first track): on success, exactly one sample record
/// with the given duration, sync flag and bytes is appended, and its bytes
/// are written into the data box. The source derives each sample's start
/// time from the durations before it and ignores the start time passed
/// here, so the caller keeps its tick counter consistent itself.
#[verifier::external_body]
pub(crate) fn write_sample(
    w: &mut mp4::Mp4Writer<std::io::Cursor<Vec<u8>>>,
    start_time: u64,
    duration: u32,
    is_sync: bool,
    payload: Vec<u8>,
) -> (r: Result<(), mp4::Error>)
    ensures
        r is Ok ==> track_samples(*final(w)) == track_samples(*old(w)).push(
            (duration, is_sync, payload@),
        ),
{
    let sample = mp4::Mp4Sample {
        start_time,
        duration,
        rendering_offset: 0,
        is_sync,
        bytes: mp4::Bytes::from(payload),
    };
    w.write_sample(1, &sample)
}

/// Relies on mp4's `Mp4Writer::write_end`: writes the movie box, patches
/// the data box's size, and hands back the finished container bytes.
#[verifier::external_body]
pub(crate) fn finish_container(w: mp4::Mp4Writer<std::io::Cursor<Vec<u8>>>) -> (r: Result<
    Vec<u8>,
    mp4::Error,
>) {
    let mut w = w;
    match w.write_end() {
        Ok(()) => Ok(w.into_writer().into_inner()),
        Err(e) => Err(e),
    }
}

} // verus!
