//! Bodies of media records, as the protocol's and the image codecs read them.

use vstd::prelude::*;
use vstd::slice::slice_subrange;

use crate::failure::ErrorKind;
use crate::raster::{operation_fits, operation_views, stride_of, OperationView, RasterDelta};
use crate::raster::RasterDeltaOperation;

verus! {

/// Why media could not be read.
pub struct MediaError {
    /// Whether the media is malformed, rather than that the codec failed on it.
    pub malformed: bool,
    pub text: String,
}

/// Why media could not be read.
pub struct MediaErrorView {
    pub malformed: bool,
    pub text: Seq<char>,
}

impl View for MediaError {
    type V = MediaErrorView;

    open spec fn view(&self) -> MediaErrorView {
        MediaErrorView { malformed: self.malformed, text: self.text@ }
    }
}

impl MediaErrorView {
    /// The kind of the error.
    pub open spec fn kind(self) -> ErrorKind {
        if self.malformed {
            ErrorKind::InvalidData
        } else {
            ErrorKind::Other
        }
    }
}

impl MediaError {
    /// The kind of the error.
    pub fn kind(&self) -> (r: ErrorKind)
        ensures
            r == self@.kind(),
    {
        if self.malformed {
            ErrorKind::InvalidData
        } else {
            ErrorKind::Other
        }
    }
}

/// The header of a complete raster frame.
#[derive(Debug, Clone, Copy, PartialEq, Eq, Structural)]
pub struct RasterHeader {
    pub epoch: u32,
    pub frame_id: u64,
    pub pts_us: i64,
    pub width: u32,
    pub height: u32,
    pub compressed: bool,
}

/// The header of the complete raster frame that a body is, if it is one.
pub uninterp spec fn full_raster(body: Seq<u8>) -> Option<RasterHeader>;

/// `vivid_protocol::media::parse_full_raster_frame`: the header depends on the body alone, and a body
/// that is no complete frame is refused.
#[verifier::external_body]
pub(crate) fn parse_full_raster(body: &[u8]) -> (r: Option<RasterHeader>)
    ensures
        r == full_raster(body@),
{
    let parsed = vivid_protocol::media::parse_full_raster_frame(body).ok()?;
    Some(RasterHeader {
        epoch: parsed.epoch,
        frame_id: parsed.frame_id,
        pts_us: parsed.pts_us,
        width: parsed.width,
        height: parsed.height,
        compressed: parsed.compressed,
    })
}

/// The pixels of the complete raster frame that a body is, or why they cannot be read.
pub uninterp spec fn raster_pixels(body: Seq<u8>) -> Result<Seq<u8>, MediaErrorView>;

/// `vivid_protocol::media::decode_raster_pixels` of a body that is a complete frame: the pixels depend
/// on the body alone and fill the frame exactly.
#[verifier::external_body]
pub(crate) fn decode_raster(body: &[u8]) -> (r: Result<Vec<u8>, MediaError>)
    ensures
        match r {
            Ok(pixels) => raster_pixels(body@) == Ok::<Seq<u8>, MediaErrorView>(pixels@) && (
            full_raster(body@) matches Some(header) ==> pixels@.len() == header.height as int
                * stride_of(header.width)),
            Err(error) => raster_pixels(body@) == Err::<Seq<u8>, MediaErrorView>(error@),
        },
{
    vivid_protocol::media::parse_full_raster_frame(body)
        .and_then(vivid_protocol::media::decode_raster_pixels)
        .map_err(|error| MediaError {
            malformed: error.kind() == std::io::ErrorKind::InvalidData,
            text: error.to_string(),
        })
}

/// What a delta frame holds.
pub struct DeltaView {
    pub epoch: u32,
    pub frame_id: u64,
    pub base_frame_id: u64,
    pub pts_us: i64,
    pub operations: Seq<OperationView>,
}

/// Whether a delta holds what is expected.
pub open spec fn is_delta(epoch: u32, delta: RasterDelta, expected: DeltaView) -> bool {
    &&& epoch == expected.epoch
    &&& delta.frame_id == expected.frame_id
    &&& delta.base_frame_id == expected.base_frame_id
    &&& delta.pts_us == expected.pts_us
    &&& operation_views(delta.operations@) == expected.operations
}

/// The delta that a body is for frames of a size, with at most some operations, or why it is none.
pub uninterp spec fn raster_delta(body: Seq<u8>, width: u32, height: u32, limit: u32) -> Result<
    DeltaView,
    MediaErrorView,
>;

/// `vivid_protocol::media::parse_delta_raster_frame`: the delta depends on the four arguments alone,
/// and every operation of it stays inside the frame and brings the pixels it needs.
#[verifier::external_body]
pub(crate) fn parse_delta(body: &[u8], width: u32, height: u32, limit: u32) -> (r: Result<
    (u32, RasterDelta),
    MediaError,
>)
    ensures
        match r {
            Ok((epoch, delta)) => (raster_delta(body@, width, height, limit) matches Ok(expected)
                && is_delta(epoch, delta, expected)) && (forall|i: int|
                0 <= i < delta.operations@.len() ==> operation_fits(
                    width,
                    height,
                    (#[trigger] delta.operations@[i])@,
                )),
            Err(error) => raster_delta(body@, width, height, limit) == Err::<
                DeltaView,
                MediaErrorView,
            >(error@),
        },
{
    let parsed = vivid_protocol::media::parse_delta_raster_frame(body, width, height, limit).map_err(
        |error| MediaError { malformed: error.kind() == std::io::ErrorKind::InvalidData, text: error.to_string() })?;
    let operations = parsed.operations.into_iter().map(|operation| match operation {
        vivid_protocol::media::ParsedRasterDeltaOperation::Overwrite { x, y, width, height, rgba } =>
            RasterDeltaOperation::Overwrite { x, y, width, height, rgba: rgba.into_owned() },
        vivid_protocol::media::ParsedRasterDeltaOperation::Copy {
            destination_x, destination_y, width, height, source_x, source_y,
        } => RasterDeltaOperation::Copy { destination_x, destination_y, width, height, source_x, source_y },
    }).collect();
    Ok((parsed.epoch, RasterDelta {
        frame_id: parsed.frame_id, base_frame_id: parsed.base_frame_id, pts_us: parsed.pts_us, operations,
    }))
}

/// The key flag of a video packet.
pub const VIDEO_PACKET_KEY: u32 = 1;

/// The header of a video packet.
#[derive(Debug, Clone, Copy, PartialEq, Eq, Structural)]
pub struct VideoHeader {
    pub epoch: u32,
    pub flags: u32,
    pub packet_id: u64,
    pub pts_us: i64,
    pub dts_us: i64,
    pub duration_us: u64,
    /// How many bytes at the end of the body are encoded video.
    pub data_length: usize,
}

/// The header of the video packet that a body is, or why it is none.
pub uninterp spec fn video_packet(body: Seq<u8>) -> Result<VideoHeader, Seq<char>>;

/// `vivid_protocol::media::parse_video_packet`: the header depends on the body alone, the encoded video
/// is part of the body, and a body that is no packet is refused with a text that says why.
#[verifier::external_body]
pub(crate) fn parse_video(body: &[u8]) -> (r: Result<VideoHeader, String>)
    ensures
        match r {
            Ok(header) => video_packet(body@) == Ok::<VideoHeader, Seq<char>>(header)
                && header.data_length <= body@.len(),
            Err(text) => video_packet(body@) == Err::<VideoHeader, Seq<char>>(text@),
        },
{
    let parsed = vivid_protocol::media::parse_video_packet(body).map_err(|error| error.to_string())?;
    Ok(VideoHeader {
        epoch: parsed.epoch,
        flags: parsed.flags,
        packet_id: parsed.packet_id,
        pts_us: parsed.pts_us,
        dts_us: parsed.dts_us,
        duration_us: parsed.duration_us,
        data_length: parsed.data.len(),
    })
}

/// The header of an audio packet.
#[derive(Debug, Clone, Copy, PartialEq, Eq, Structural)]
pub struct AudioHeader {
    pub epoch: u32,
    pub packet_id: u64,
    pub pts_us: i64,
    pub dts_us: i64,
    pub duration_us: u64,
    pub trim_start_samples: u32,
    pub trim_end_samples: u32,
    /// How many bytes at the end of the body are encoded audio.
    pub data_length: usize,
}

/// The header of the audio packet that a body is, or why it is none.
pub uninterp spec fn audio_packet(body: Seq<u8>) -> Result<AudioHeader, Seq<char>>;

/// `vivid_protocol::media::parse_audio_packet`: the header depends on the body alone, the encoded audio
/// is part of the body, and a body that is no packet is refused with a text that says why.
#[verifier::external_body]
pub(crate) fn parse_audio(body: &[u8]) -> (r: Result<AudioHeader, String>)
    ensures
        match r {
            Ok(header) => audio_packet(body@) == Ok::<AudioHeader, Seq<char>>(header)
                && header.data_length <= body@.len(),
            Err(text) => audio_packet(body@) == Err::<AudioHeader, Seq<char>>(text@),
        },
{
    let parsed = vivid_protocol::media::parse_audio_packet(body).map_err(|error| error.to_string())?;
    Ok(AudioHeader {
        epoch: parsed.epoch,
        packet_id: parsed.packet_id,
        pts_us: parsed.pts_us,
        dts_us: parsed.dts_us,
        duration_us: parsed.duration_us,
        trim_start_samples: parsed.trim_start_samples,
        trim_end_samples: parsed.trim_end_samples,
        data_length: parsed.data.len(),
    })
}

/// What a packet's decoder is given: the last bytes of its body, where it has as many.
pub fn packet_data<'a>(body: &'a Vec<u8>, data_length: usize) -> (r: Option<&'a [u8]>)
    ensures
        if data_length <= body@.len() {
            r matches Some(data) && data@ == body@.subrange(
                body@.len() - data_length,
                body@.len() as int,
            )
        } else {
            r is None
        },
{
    if data_length > body.len() {
        return None;
    }
    Some(slice_subrange(body.as_slice(), body.len() - data_length, body.len()))
}

/// How an image is encoded.
#[derive(Debug, Clone, Copy, PartialEq, Eq, Structural)]
pub enum ImageFormat {
    Png,
    Jpeg,
}

/// How an image with this code is encoded, where that is supported.
pub open spec fn format_of(encoding: u64) -> Option<ImageFormat> {
    if encoding == 1 {
        Some(ImageFormat::Png)
    } else if encoding == 2 {
        Some(ImageFormat::Jpeg)
    } else {
        None
    }
}

/// How an image with this code is encoded, where that is supported.
pub fn image_format(encoding: u64) -> (r: Option<ImageFormat>)
    ensures
        r == format_of(encoding),
{
    match encoding {
        1 => Some(ImageFormat::Png),
        2 => Some(ImageFormat::Jpeg),
        _ => None,
    }
}

/// A decoded image, four bytes per pixel.
pub struct DecodedImage {
    pub width: u32,
    pub height: u32,
    pub rgba: Vec<u8>,
}

/// A decoded image.
pub struct ImageView {
    pub width: u32,
    pub height: u32,
    pub rgba: Seq<u8>,
}

/// The image that bytes in a format are, or why they are none.
pub uninterp spec fn image_of(body: Seq<u8>, format: ImageFormat) -> Result<ImageView, Seq<char>>;

/// `image::load_from_memory_with_format` and `image::DynamicImage::to_rgba8`: the image depends on the
/// bytes and the format alone, and its pixels fill it exactly.
#[verifier::external_body]
pub(crate) fn decode_image(body: &[u8], format: ImageFormat) -> (r: Result<DecodedImage, String>)
    ensures
        match r {
            Ok(image) => image_of(body@, format) == Ok::<ImageView, Seq<char>>(
                ImageView { width: image.width, height: image.height, rgba: image.rgba@ },
            ) && image.rgba@.len() == image.height as int * stride_of(image.width),
            Err(text) => image_of(body@, format) == Err::<ImageView, Seq<char>>(text@),
        },
{
    let format = match format {
        ImageFormat::Png => image::ImageFormat::Png,
        ImageFormat::Jpeg => image::ImageFormat::Jpeg,
    };
    let decoded = image::load_from_memory_with_format(body, format).map_err(|error| error.to_string())?;
    let pixels = decoded.to_rgba8();
    let (width, height) = pixels.dimensions();
    Ok(DecodedImage { width, height, rgba: pixels.into_raw() })
}

/// The data of a packet is the end of its body, and there is none where the body is shorter.
pub proof fn the_data_of_a_packet_ends_its_body<'a>(
    body: &'a Vec<u8>,
    data_length: usize,
    r: Option<&'a [u8]>,
)
    requires
        call_ensures(packet_data, (body, data_length), r),
    ensures
        r is Some <==> data_length <= body@.len(),
        r matches Some(data) ==> data@.len() == data_length && data@.is_suffix_of(body@),
{
}

/// Two encodings are read, each as its own format.
pub proof fn two_encodings_are_read(encoding: u64, r: Option<ImageFormat>)
    requires
        call_ensures(image_format, (encoding,), r),
    ensures
        r == Some(ImageFormat::Png) <==> encoding == 1,
        r == Some(ImageFormat::Jpeg) <==> encoding == 2,
        r is None <==> encoding != 1 && encoding != 2,
{
}

} // verus!
