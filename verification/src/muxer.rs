//! The packaging facade: a state machine from raw frames to a container.
//!
//! The engine starts with nothing constructed. The first ingested frame
//! builds the encoder; the first encoded frame yields the parameter sets
//! that let the container open; every frame after that appends one sample
//! whose start tick advances by the framerate's ticks per frame. Finalizing
//! closes the container exactly once and is afterwards a no-op.

use vstd::prelude::*;

use crate::container::{
    add_video_track, finish_container, open_container, track_samples, write_sample,
};
use crate::encoder::{encode_frame, new_encoder, rgb_frame_to_yuv, yuv420_frame_to_buffer};
use crate::framerate::Framerate;
use crate::nal::{parse_from, split_annexb};
use crate::pscache::{first_with_code, ParameterSetCache};
use crate::sample::{build_sample, contains_idr, framed_sample_bytes};

verus! {

/// The engine's lifecycle. Transitions only ever move forward:
/// `Uninitialized` to `EncoderReady` to `ContainerReady` to `Finalized`.
#[derive(Copy, Clone, Debug, PartialEq, Eq, Structural)]
pub enum MuxerState {
    /// No frame ingested yet; neither encoder nor container exists.
    Uninitialized,
    /// The encoder exists; the container does not.
    EncoderReady,
    /// Encoder and container both exist; samples are being appended.
    ContainerReady,
    /// The container has been closed; the engine is inert.
    Finalized,
}

/// The engine's typed failures.
#[derive(Copy, Clone, Debug, PartialEq, Eq, Structural)]
pub enum DevoutError {
    /// The external encoder could not be constructed for the given
    /// dimensions and bitrate, or refused a frame.
    EncoderInitError,
    /// The first encoded frame did not yield a usable pair of parameter
    /// sets, so the container cannot be opened.
    MissingParameterSets,
    /// The container writer failed; fatal for the current recording.
    ContainerWriteError,
    /// A later frame's dimensions differ from the encoder's.
    DimensionMismatch,
    /// An encoded bitstream could not be split into NAL units.
    BitstreamParseError,
}

/// The sequence parameter set the container would be opened with: the
/// cached one, or else the first in the given frame's units.
pub open spec fn effective_sps(cache: ParameterSetCache, payloads: Seq<Seq<u8>>) -> Option<
    Seq<u8>,
> {
    if cache.spec_complete() {
        cache.spec_sps()
    } else {
        first_with_code(payloads, 7u8)
    }
}

/// The picture parameter set the container would be opened with.
pub open spec fn effective_pps(cache: ParameterSetCache, payloads: Seq<Seq<u8>>) -> Option<
    Seq<u8>,
> {
    if cache.spec_complete() {
        cache.spec_pps()
    } else {
        first_with_code(payloads, 8u8)
    }
}

/// Both parameter sets are at hand and the sequence parameter set is long
/// enough to carry its profile bytes into the decoder configuration.
pub open spec fn parameter_sets_usable(cache: ParameterSetCache, payloads: Seq<Seq<u8>>) -> bool {
    &&& effective_sps(cache, payloads) matches Some(s) && s.len() >= 4
    &&& effective_pps(cache, payloads) is Some
}

/// The packaging engine. It exclusively owns its encoder and its container
/// writer for its whole lifetime.
pub struct Devout {
    framerate: Framerate,
    bitrate_kbps: u32,
    state: MuxerState,
    encoder: Option<openh264::encoder::Encoder>,
    width: u32,
    height: u32,
    pscache: ParameterSetCache,
    writer: Option<mp4::Mp4Writer<std::io::Cursor<Vec<u8>>>>,
    ticks: u64,
    frame_count: u64,
    output: Option<Vec<u8>>,
    sample_starts: Ghost<Seq<u64>>,
}

impl Devout {
    /// The current lifecycle state.
    pub closed spec fn spec_state(self) -> MuxerState {
        self.state
    }

    /// The framerate the engine was created with.
    pub closed spec fn spec_framerate(self) -> Framerate {
        self.framerate
    }

    /// The configured target bitrate in kilobits per second.
    pub closed spec fn spec_bitrate(self) -> u32 {
        self.bitrate_kbps
    }

    /// The dimensions the encoder was constructed with (meaningful from
    /// `EncoderReady` on).
    pub closed spec fn spec_dims(self) -> (u32, u32) {
        (self.width, self.height)
    }

    /// The running tick counter: the start tick of the next sample.
    pub closed spec fn spec_ticks(self) -> u64 {
        self.ticks
    }

    /// How many samples have been appended.
    pub closed spec fn spec_frames(self) -> u64 {
        self.frame_count
    }

    /// The parameter-set cache.
    pub closed spec fn spec_pscache(self) -> ParameterSetCache {
        self.pscache
    }

    /// The start ticks of the appended samples, in order.
    pub closed spec fn sample_starts(self) -> Seq<u64> {
        self.sample_starts@
    }

    /// The finished container bytes, present only after a successful
    /// finalize of an open container.
    pub closed spec fn spec_output(self) -> Option<Seq<u8>> {
        match self.output {
            Some(v) => Some(v@),
            None => None,
        }
    }

    /// The samples held by the container's video track so far: duration,
    /// sync flag, and bytes of each, in order. The container derives start
    /// times from the durations; the engine's own tick counter and ghost
    /// start record track them explicitly.
    pub closed spec fn container_samples(self) -> Seq<(u32, bool, Seq<u8>)> {
        match self.writer {
            Some(w) => track_samples(w),
            None => Seq::empty(),
        }
    }

    /// The engine's invariant: the resources match the state, and the tick
    /// counter is exactly the sample count times the ticks per frame, with
    /// the recorded start ticks forming that arithmetic progression.
    pub closed spec fn wf(self) -> bool {
        &&& self.framerate.wf()
        &&& self.pscache.wf()
        &&& self.ticks == self.frame_count * self.framerate.spec_tpf()
        &&& self.sample_starts@.len() == self.frame_count
        &&& forall|k: int|
            0 <= k < self.sample_starts@.len() ==> self.sample_starts@[k] == k
                * self.framerate.spec_tpf()
        &&& match self.state {
            MuxerState::Uninitialized => {
                &&& self.encoder is None
                &&& self.writer is None
                &&& self.ticks == 0
                &&& self.frame_count == 0
                &&& self.output is None
                &&& !self.pscache.spec_complete()
            },
            MuxerState::EncoderReady => {
                &&& self.encoder is Some
                &&& self.writer is None
                &&& self.ticks == 0
                &&& self.frame_count == 0
                &&& self.output is None
            },
            MuxerState::ContainerReady => {
                &&& self.encoder is Some
                &&& self.writer is Some
                &&& self.pscache.spec_complete()
                &&& self.output is None
            },
            MuxerState::Finalized => self.writer is None,
        }
    }

    /// A new engine in the `Uninitialized` state. Nothing is constructed
    /// until the first frame arrives; the target bitrate defaults to
    /// 1000 kilobits per second.
    pub fn new(framerate: Framerate) -> (r: Devout)
        requires
            framerate.wf(),
        ensures
            r.wf(),
            r.spec_state() is Uninitialized,
            r.spec_framerate() == framerate,
            r.spec_bitrate() == 1000u32,
            r.spec_ticks() == 0,
            r.spec_frames() == 0,
            r.sample_starts() == Seq::<u64>::empty(),
            r.spec_output() is None,
    {
        Devout {
            framerate,
            bitrate_kbps: 1000,
            state: MuxerState::Uninitialized,
            encoder: None,
            width: 0,
            height: 0,
            pscache: ParameterSetCache::new(),
            writer: None,
            ticks: 0,
            frame_count: 0,
            output: None,
            sample_starts: Ghost(Seq::empty()),
        }
    }

    /// A new engine whose encoder is constructed at once for the given
    /// dimensions, at the default bitrate of 1000 kilobits per second. The
    /// container is still deferred to the first frame, because its decoder
    /// configuration exists only after one frame has been encoded.
    pub fn new_with_dimensions(framerate: Framerate, width: u32, height: u32) -> (r: Result<
        Devout,
        DevoutError,
    >)
        requires
            framerate.wf(),
            width % 2 == 0,
            height % 2 == 0,
        ensures
            match r {
                Ok(m) => {
                    &&& m.wf()
                    &&& m.spec_state() is EncoderReady
                    &&& m.spec_framerate() == framerate
                    &&& m.spec_bitrate() == 1000u32
                    &&& m.spec_dims() == (width, height)
                    &&& m.spec_ticks() == 0
                    &&& m.spec_frames() == 0
                    &&& m.sample_starts() == Seq::<u64>::empty()
                    &&& m.spec_output() is None
                },
                Err(e) => e is EncoderInitError,
            },
    {
        let mut m = Devout::new(framerate);
        match new_encoder(1000 * 1000) {
            Ok(enc) => {
                m.encoder = Some(enc);
                m.width = width;
                m.height = height;
                m.state = MuxerState::EncoderReady;
                Ok(m)
            },
            Err(_) => Err(DevoutError::EncoderInitError),
        }
    }

    /// Set the target bitrate in kilobits per second. It applies only
    /// while no encoder exists yet; afterwards the value is ignored.
    pub fn set_bitrate(&mut self, kbps: u32)
        requires
            old(self).wf(),
        ensures
            final(self).wf(),
            final(self).spec_bitrate() == (if old(self).spec_state() is Uninitialized {
                kbps
            } else {
                old(self).spec_bitrate()
            }),
            final(self).spec_state() == old(self).spec_state(),
            final(self).spec_framerate() == old(self).spec_framerate(),
            final(self).spec_dims() == old(self).spec_dims(),
            final(self).spec_ticks() == old(self).spec_ticks(),
            final(self).spec_frames() == old(self).spec_frames(),
            final(self).sample_starts() == old(self).sample_starts(),
            final(self).spec_output() == old(self).spec_output(),
            !(old(self).spec_state() is Uninitialized) ==> *final(self) == *old(self),
    {
        if let MuxerState::Uninitialized = self.state {
            self.bitrate_kbps = kbps;
        }
    }

    /// The current lifecycle state.
    pub fn state(&self) -> (r: MuxerState)
        ensures
            r == self.spec_state(),
    {
        self.state
    }

    /// The running tick counter: the start tick of the next sample.
    pub fn ticks(&self) -> (r: u64)
        ensures
            r == self.spec_ticks(),
    {
        self.ticks
    }

    /// How many samples have been appended so far.
    pub fn frames_written(&self) -> (r: u64)
        ensures
            r == self.spec_frames(),
    {
        self.frame_count
    }

    /// The framerate the engine was created with.
    pub fn framerate(&self) -> (r: Framerate)
        ensures
            r == self.spec_framerate(),
    {
        self.framerate
    }

    /// The finished container bytes, once an open container was finalized.
    pub fn output(&self) -> (r: Option<&Vec<u8>>)
        ensures
            match r {
                Some(v) => self.spec_output() == Some(v@),
                None => self.spec_output() is None,
            },
    {
        self.output.as_ref()
    }

    /// Push one already-encoded Annex-B bitstream through the packaging
    /// pipeline: split it into units, capture parameter sets if none are
    /// cached yet, open the container if it is not open, and append exactly
    /// one sample holding the bitstream's length-prefixed non-parameter-set
    /// units, starting at the current tick. Each unit is framed behind a
    /// 4-byte length, so the bitstream must fit 32 bits; the ingest
    /// operations test that before calling here.
    pub fn push_encoded(&mut self, bits: &Vec<u8>) -> (r: Result<(), DevoutError>)
        requires
            old(self).wf(),
            old(self).spec_state() is EncoderReady || old(self).spec_state() is ContainerReady,
            old(self).spec_ticks() + old(self).spec_framerate().spec_tpf() <= u64::MAX,
            old(self).spec_frames() < u64::MAX,
            bits@.len() <= u32::MAX,
        ensures
            final(self).wf(),
            final(self).spec_framerate() == old(self).spec_framerate(),
            final(self).spec_bitrate() == old(self).spec_bitrate(),
            final(self).spec_dims() == old(self).spec_dims(),
            final(self).spec_output() == old(self).spec_output(),
            match r {
                Ok(_) => {
                    &&& parse_from(bits@, 0) matches Some(pls)
                    &&& final(self).spec_state() is ContainerReady
                    &&& final(self).spec_ticks() == old(self).spec_ticks() + old(
                        self,
                    ).spec_framerate().spec_tpf()
                    &&& final(self).spec_frames() == old(self).spec_frames() + 1
                    &&& final(self).sample_starts() == old(self).sample_starts().push(
                        old(self).spec_ticks(),
                    )
                    &&& final(self).container_samples() == old(self).container_samples().push(
                        (
                            old(self).spec_framerate().spec_tpf(),
                            contains_idr(pls),
                            framed_sample_bytes(pls),
                        ),
                    )
                },
                Err(e) => {
                    &&& final(self).spec_ticks() == old(self).spec_ticks()
                    &&& final(self).spec_frames() == old(self).spec_frames()
                    &&& final(self).sample_starts() == old(self).sample_starts()
                    &&& (e is BitstreamParseError <==> parse_from(bits@, 0) is None)
                    &&& (e is MissingParameterSets <==> (parse_from(bits@, 0) matches Some(pls)
                        && old(self).spec_state() is EncoderReady && !parameter_sets_usable(
                        old(self).spec_pscache(),
                        pls,
                    )))
                    &&& !(e is DimensionMismatch)
                    &&& !(e is EncoderInitError)
                    &&& e is BitstreamParseError ==> *final(self) == *old(self)
                    &&& (e is MissingParameterSets ==> final(self).spec_state() == old(
                        self,
                    ).spec_state())
                    // A write may fail after the container was already
                    // opened for this very bitstream; the opening stands.
                    &&& (final(self).spec_state() == old(self).spec_state() || (e
                        is ContainerWriteError && old(self).spec_state() is EncoderReady
                        && final(self).spec_state() is ContainerReady))
                },
            },
    {
        let units = match split_annexb(bits.as_slice()) {
            Ok(units) => units,
            Err(_) => {
                return Err(DevoutError::BitstreamParseError);
            },
        };
        let ghost pls = parse_from(bits@, 0).unwrap();
        proof {
            assert(pls == crate::nal::payloads_of(units@));
        }

        if let MuxerState::EncoderReady = self.state {
            // Capture the parameter sets from this first bitstream.
            if self.pscache.capture(&units).is_err() {
                return Err(DevoutError::MissingParameterSets);
            }
            // The container cannot carry a sequence parameter set too short
            // for its decoder configuration; report it, never index past it.
            let sps_len = match self.pscache.sps() {
                Some(s) => s.len(),
                None => 0,
            };
            if sps_len < 4 {
                return Err(DevoutError::MissingParameterSets);
            }
            assert(parameter_sets_usable(old(self).spec_pscache(), pls));
            let track_timescale = self.framerate.timescale();
            let mut w = match open_container("isom", "isom", "iso2", "avc1", "mp41", 512, 1000) {
                Ok(w) => w,
                Err(_) => {
                    return Err(DevoutError::ContainerWriteError);
                },
            };
            let added = match (self.pscache.sps(), self.pscache.pps()) {
                (Some(sps), Some(pps)) => add_video_track(
                    &mut w,
                    #[verifier::truncate] (self.width as u16),
                    #[verifier::truncate] (self.height as u16),
                    track_timescale,
                    "und",
                    sps,
                    pps,
                ),
                _ => {
                    assert(false);
                    return Err(DevoutError::ContainerWriteError);
                },
            };
            if added.is_err() {
                return Err(DevoutError::ContainerWriteError);
            }
            self.writer = Some(w);
            self.state = MuxerState::ContainerReady;
        }

        let duration = self.framerate.tpf();
        let sample = build_sample(&units, self.ticks, duration);
        let mut w = match self.writer.take() {
            Some(w) => w,
            None => {
                assert(false);
                return Err(DevoutError::ContainerWriteError);
            },
        };
        let wrote = write_sample(&mut w, sample.start_time, sample.duration, sample.is_sync,
            sample.payload);
        self.writer = Some(w);
        if wrote.is_err() {
            return Err(DevoutError::ContainerWriteError);
        }
        self.ticks = self.ticks + duration as u64;
        self.frame_count = self.frame_count + 1;
        proof {
            self.sample_starts@ = self.sample_starts@.push(old(self).ticks);
            let t = self.framerate.spec_tpf();
            let c = old(self).frame_count;
            assert((c + 1) * t == c * t + t) by (nonlinear_arith);
            assert forall|k: int| 0 <= k < self.sample_starts@.len() implies self.sample_starts@[k]
                == k * t by {
                if k < old(self).sample_starts@.len() {
                    assert(self.sample_starts@[k] == old(self).sample_starts@[k]);
                } else {
                    assert(self.sample_starts@[k] == old(self).ticks);
                }
            }
        }
        Ok(())
    }

    /// Ingest one interleaved RGB frame (3 bytes per pixel). The first call
    /// constructs the encoder for this frame's dimensions; every later
    /// frame must match them exactly, else it is rejected before any encode
    /// attempt. Each successful call appends exactly one sample.
    pub fn frame(&mut self, width: u32, height: u32, data: &[u8]) -> (r: Result<(), DevoutError>)
        requires
            old(self).wf(),
            !(old(self).spec_state() is Finalized),
            width % 2 == 0,
            height % 2 == 0,
            data@.len() == 3 * width * height,
            old(self).spec_ticks() + old(self).spec_framerate().spec_tpf() <= u64::MAX,
            old(self).spec_frames() < u64::MAX,
        ensures
            final(self).frame_ensures(*old(self), width, height, r),
    {
        let yuv_needed = self.ensure_encoder_and_dims(width, height);
        if let Err(e) = yuv_needed {
            return Err(e);
        }
        let yuv = rgb_frame_to_yuv(width, height, data);
        self.encode_and_push(&yuv)
    }

    /// Ingest one planar 4:2:0 frame, arranged as all Y bytes, then all U,
    /// then all V. Dimension handling and sample bookkeeping are the same
    /// as for RGB frames.
    pub fn frame_yuv420(&mut self, width: u32, height: u32, data: &[u8]) -> (r: Result<
        (),
        DevoutError,
    >)
        requires
            old(self).wf(),
            !(old(self).spec_state() is Finalized),
            width % 2 == 0,
            height % 2 == 0,
            2 * data@.len() == 3 * width * height,
            old(self).spec_ticks() + old(self).spec_framerate().spec_tpf() <= u64::MAX,
            old(self).spec_frames() < u64::MAX,
        ensures
            final(self).frame_ensures(*old(self), width, height, r),
    {
        let yuv_needed = self.ensure_encoder_and_dims(width, height);
        if let Err(e) = yuv_needed {
            return Err(e);
        }
        let yuv = yuv420_frame_to_buffer(width, height, data);
        self.encode_and_push(&yuv)
    }

    /// What both ingest operations promise: dimension mismatches are
    /// rejected exactly and without effect, and a successful call appends
    /// exactly one sample at the old tick and advances the counters.
    pub open spec fn frame_ensures(
        self,
        prev: Devout,
        width: u32,
        height: u32,
        r: Result<(), DevoutError>,
    ) -> bool {
        &&& self.wf()
        &&& self.spec_framerate() == prev.spec_framerate()
        &&& self.spec_bitrate() == prev.spec_bitrate()
        &&& self.spec_output() == prev.spec_output()
        &&& (r == Result::<(), DevoutError>::Err(DevoutError::DimensionMismatch) <==> (!(
        prev.spec_state() is Uninitialized) && (width, height) != prev.spec_dims()))
        &&& match r {
            Ok(_) => {
                &&& self.spec_state() is ContainerReady
                &&& self.spec_dims() == (width, height)
                &&& self.spec_ticks() == prev.spec_ticks() + prev.spec_framerate().spec_tpf()
                &&& self.spec_frames() == prev.spec_frames() + 1
                &&& self.sample_starts() == prev.sample_starts().push(prev.spec_ticks())
                &&& exists|pls: Seq<Seq<u8>>|
                    self.container_samples() == prev.container_samples().push(
                        (
                            prev.spec_framerate().spec_tpf(),
                            contains_idr(pls),
                            #[trigger] framed_sample_bytes(pls),
                        ),
                    )
            },
            Err(e) => {
                &&& self.spec_ticks() == prev.spec_ticks()
                &&& self.spec_frames() == prev.spec_frames()
                &&& self.sample_starts() == prev.sample_starts()
                &&& !(self.spec_state() is Finalized)
                &&& (e is DimensionMismatch ==> self == prev)
                &&& (prev.spec_state() is ContainerReady ==> self.spec_state()
                    is ContainerReady)
            },
        }
    }

    /// Construct the encoder on the first frame; on every later frame
    /// demand the dimensions it was constructed with.
    fn ensure_encoder_and_dims(&mut self, width: u32, height: u32) -> (r: Result<
        (),
        DevoutError,
    >)
        requires
            old(self).wf(),
            !(old(self).spec_state() is Finalized),
        ensures
            final(self).wf(),
            final(self).spec_framerate() == old(self).spec_framerate(),
            final(self).spec_bitrate() == old(self).spec_bitrate(),
            final(self).spec_output() == old(self).spec_output(),
            final(self).spec_ticks() == old(self).spec_ticks(),
            final(self).spec_frames() == old(self).spec_frames(),
            final(self).sample_starts() == old(self).sample_starts(),
            final(self).spec_pscache() == old(self).spec_pscache(),
            final(self).container_samples() == old(self).container_samples(),
            (r == Result::<(), DevoutError>::Err(DevoutError::DimensionMismatch) <==> (!(
            old(self).spec_state() is Uninitialized) && (width, height) != old(
                self,
            ).spec_dims())),
            match r {
                Ok(_) => {
                    &&& (final(self).spec_state() is EncoderReady || final(self).spec_state()
                        is ContainerReady)
                    &&& final(self).spec_state() is ContainerReady <==> old(self).spec_state()
                        is ContainerReady
                    &&& final(self).spec_dims() == (width, height)
                },
                Err(e) => {
                    &&& e is DimensionMismatch || e is EncoderInitError
                    &&& e is DimensionMismatch ==> *final(self) == *old(self)
                    &&& e is EncoderInitError ==> old(self).spec_state() is Uninitialized
                        && final(self).spec_state() is Uninitialized
                    &&& final(self).spec_state() == old(self).spec_state()
                },
            },
    {
        match self.state {
            MuxerState::Uninitialized => {
                let bps: u32 = if self.bitrate_kbps <= 4_294_967 {
                    self.bitrate_kbps * 1000
                } else {
                    u32::MAX
                };
                match new_encoder(bps) {
                    Ok(enc) => {
                        self.encoder = Some(enc);
                        self.width = width;
                        self.height = height;
                        self.state = MuxerState::EncoderReady;
                        Ok(())
                    },
                    Err(_) => Err(DevoutError::EncoderInitError),
                }
            },
            _ => {
                if width != self.width || height != self.height {
                    Err(DevoutError::DimensionMismatch)
                } else {
                    Ok(())
                }
            },
        }
    }

    /// Encode one prepared frame and push the resulting bitstream.
    fn encode_and_push(&mut self, yuv: &openh264::formats::YUVBuffer) -> (r: Result<
        (),
        DevoutError,
    >)
        requires
            old(self).wf(),
            old(self).spec_state() is EncoderReady || old(self).spec_state() is ContainerReady,
            old(self).spec_ticks() + old(self).spec_framerate().spec_tpf() <= u64::MAX,
            old(self).spec_frames() < u64::MAX,
        ensures
            final(self).wf(),
            final(self).spec_framerate() == old(self).spec_framerate(),
            final(self).spec_bitrate() == old(self).spec_bitrate(),
            final(self).spec_dims() == old(self).spec_dims(),
            final(self).spec_output() == old(self).spec_output(),
            match r {
                Ok(_) => {
                    &&& final(self).spec_state() is ContainerReady
                    &&& final(self).spec_ticks() == old(self).spec_ticks() + old(
                        self,
                    ).spec_framerate().spec_tpf()
                    &&& final(self).spec_frames() == old(self).spec_frames() + 1
                    &&& final(self).sample_starts() == old(self).sample_starts().push(
                        old(self).spec_ticks(),
                    )
                    &&& exists|pls: Seq<Seq<u8>>|
                        final(self).container_samples() == old(self).container_samples().push(
                            (
                                old(self).spec_framerate().spec_tpf(),
                                contains_idr(pls),
                                #[trigger] framed_sample_bytes(pls),
                            ),
                        )
                },
                Err(e) => {
                    &&& final(self).spec_ticks() == old(self).spec_ticks()
                    &&& final(self).spec_frames() == old(self).spec_frames()
                    &&& final(self).sample_starts() == old(self).sample_starts()
                    &&& !(e is DimensionMismatch)
                    &&& (final(self).spec_state() == old(self).spec_state() || (old(
                        self,
                    ).spec_state() is EncoderReady
                        && final(self).spec_state() is ContainerReady))
                },
            },
    {
        let mut enc = match self.encoder.take() {
            Some(enc) => enc,
            None => {
                assert(false);
                return Err(DevoutError::EncoderInitError);
            },
        };
        let encoded = encode_frame(&mut enc, yuv);
        self.encoder = Some(enc);
        let bits = match encoded {
            Ok(bits) => bits,
            Err(_) => {
                return Err(DevoutError::EncoderInitError);
            },
        };
        if bits.len() as u64 > 0xFFFF_FFFFu64 {
            // A unit longer than a 4-byte length prefix can carry cannot be
            // framed into a sample.
            return Err(DevoutError::BitstreamParseError);
        }
        let pushed = self.push_encoded(&bits);
        proof {
            if pushed is Ok {
                let pls = parse_from(bits@, 0).unwrap();
                assert(final(self).container_samples() == old(self).container_samples().push(
                    (
                        old(self).spec_framerate().spec_tpf(),
                        contains_idr(pls),
                        framed_sample_bytes(pls),
                    ),
                ));
            }
        }
        pushed
    }

    /// Finalize the recording. From `ContainerReady` this closes the
    /// container exactly once and keeps its finished bytes; from any other
    /// state there is nothing to close and the call is a successful no-op.
    /// Calling it again after it has run is always a successful no-op that
    /// leaves the engine, its finished bytes included, untouched.
    pub fn done(&mut self) -> (r: Result<(), DevoutError>)
        requires
            old(self).wf(),
        ensures
            final(self).wf(),
            final(self).spec_state() is Finalized,
            final(self).spec_framerate() == old(self).spec_framerate(),
            final(self).spec_ticks() == old(self).spec_ticks(),
            final(self).spec_frames() == old(self).spec_frames(),
            final(self).sample_starts() == old(self).sample_starts(),
            old(self).spec_state() is Finalized ==> *final(self) == *old(self) && r is Ok,
            (!(old(self).spec_state() is ContainerReady) && !(old(self).spec_state()
                is Finalized)) ==> r is Ok && final(self).spec_output() is None,
            old(self).spec_state() is ContainerReady ==> match r {
                Ok(_) => final(self).spec_output() is Some,
                Err(e) => e is ContainerWriteError && final(self).spec_output() is None,
            },
    {
        match self.state {
            MuxerState::Finalized => Ok(()),
            MuxerState::ContainerReady => {
                let w = match self.writer.take() {
                    Some(w) => w,
                    None => {
                        assert(false);
                        return Err(DevoutError::ContainerWriteError);
                    },
                };
                self.state = MuxerState::Finalized;
                match finish_container(w) {
                    Ok(bytes) => {
                        self.output = Some(bytes);
                        Ok(())
                    },
                    Err(_) => Err(DevoutError::ContainerWriteError),
                }
            },
            _ => {
                self.state = MuxerState::Finalized;
                Ok(())
            },
        }
    }
}

/// The recorded sample start ticks form the arithmetic progression
/// 0, t, 2t, ... with common difference t, the framerate's ticks per
/// frame; after k ingested frames the k-th sample starts at (k-1)*t. The
/// progression is strictly increasing whenever t is nonzero.
pub proof fn lemma_sample_times_arithmetic(m: Devout)
    requires
        m.wf(),
    ensures
        forall|k: int|
            0 <= k < m.sample_starts().len() ==> m.sample_starts()[k] == k
                * m.spec_framerate().spec_tpf(),
        m.spec_framerate().spec_tpf() > 0 ==> forall|k: int|
            0 <= k && k + 1 < m.sample_starts().len() ==> #[trigger] m.sample_starts()[k]
                < m.sample_starts()[k + 1],
{
    if m.spec_framerate().spec_tpf() > 0 {
        let t = m.spec_framerate().spec_tpf();
        assert forall|k: int|
            0 <= k && k + 1 < m.sample_starts().len() implies #[trigger] m.sample_starts()[k]
            < m.sample_starts()[k + 1] by {
            assert(k * t < (k + 1) * t) by (nonlinear_arith)
                requires
                    t > 0,
                    k >= 0,
            ;
        }
    }
}

} // verus!
