//! A verified video-packaging engine: raw pixel frames are handed to an
//! external H.264 encoder, the encoder's Annex-B bitstream is reframed into
//! length-prefixed samples, and the samples are written into an ISO base
//! media container with exact tick/timescale bookkeeping.

pub mod capture;
pub mod container;
pub mod draw;
pub mod encoder;
pub mod framerate;
pub mod muxer;
pub mod nal;
pub mod pscache;
pub mod sample;
pub mod vex;
