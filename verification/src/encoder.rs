//! Trusted boundary to the external H.264 encoder.
//!
//! The encoder turns pixel frames into an Annex-B bitstream. Nothing is
//! assumed of the bytes it produces: the verified pipeline parses whatever
//! comes back, so every property of the library holds for any encoder
//! output.

use vstd::prelude::*;

verus! {

#[verifier::external_type_specification]
#[verifier::external_body]
pub struct ExEncoder(openh264::encoder::Encoder);

#[verifier::external_type_specification]
#[verifier::external_body]
pub struct ExYuvBuffer(openh264::formats::YUVBuffer);

#[verifier::external_type_specification]
#[verifier::external_body]
pub struct ExOpenh264Error(openh264::Error);

/// Relies on openh264's `Encoder::with_api_config`, with the crate's
/// bundled codec: constructs an encoder targeting the given bitrate in
/// bits per second. Frame dimensions are taken from the frames themselves.
#[verifier::external_body]
pub(crate) fn new_encoder(bitrate_bps: u32) -> (r: Result<
    openh264::encoder::Encoder,
    openh264::Error,
>) {
    let api = openh264::OpenH264API::from_source();
    let config = openh264::encoder::EncoderConfig::new().bitrate(
        openh264::encoder::BitRate::from_bps(bitrate_bps),
    );
    openh264::encoder::Encoder::with_api_config(api, config)
}

/// Relies on openh264's `YUVBuffer::from_rgb8_source`: converts one
/// interleaved RGB frame (3 bytes per pixel) into a planar 4:2:0 buffer.
/// The source demands even dimensions and an exactly-sized buffer, else it
/// panics; the preconditions rule those inputs out.
#[verifier::external_body]
pub(crate) fn rgb_frame_to_yuv(width: u32, height: u32, data: &[u8]) -> (r:
    openh264::formats::YUVBuffer)
    requires
        width % 2 == 0,
        height % 2 == 0,
        data@.len() == 3 * width * height,
{
    let rgb = openh264::formats::RgbSliceU8::new(data, (width as usize, height as usize));
    openh264::formats::YUVBuffer::from_rgb8_source(rgb)
}

/// Relies on openh264's `YUVBuffer::from_vec`: wraps one planar 4:2:0
/// frame, arranged as all Y bytes, then all U, then all V. The source
/// demands even dimensions and an exactly-sized buffer, else it panics;
/// the preconditions rule those inputs out.
#[verifier::external_body]
pub(crate) fn yuv420_frame_to_buffer(width: u32, height: u32, data: &[u8]) -> (r:
    openh264::formats::YUVBuffer)
    requires
        width % 2 == 0,
        height % 2 == 0,
        2 * data@.len() == 3 * width * height,
{
    openh264::formats::YUVBuffer::from_vec(data.to_vec(), width as usize, height as usize)
}

/// Relies on openh264's `Encoder::encode`, which initializes the encoder
/// for the source's dimensions on first use and errors on dimensions it
/// cannot handle. The encoded frame is serialized to flat Annex-B bytes
/// with `EncodedBitStream::to_vec`. Nothing is assumed of the bytes.
#[verifier::external_body]
pub(crate) fn encode_frame(
    encoder: &mut openh264::encoder::Encoder,
    yuv: &openh264::formats::YUVBuffer,
) -> (r: Result<Vec<u8>, openh264::Error>) {
    match encoder.encode(yuv) {
        Ok(bitstream) => Ok(bitstream.to_vec()),
        Err(e) => Err(e),
    }
}

} // verus!
