//! Serving a track's channel, record by record.
//!
//! The caller reads records, decodes media and asks the scene. What each record is, whether it may
//! come through, and what follows from it is decided here.

use vstd::prelude::*;
use vivid_protocol::cbor::Value;

use crate::actor::{posted, record_view, OutgoingRecord};
use crate::bucket::{bucket_view, byte_rate, larger, paced, IngressPace, Pace};
use crate::control::{
    control_read, number, payload_number, payload_value, read_control, RECORD_OPTIONAL,
};
use crate::digest::{digest, feed, new_hasher, sha256_of};
use crate::failure::{
    failure_code, sanitized, ChannelFailure, ChannelFailureKind, ChannelRecordContext, ErrorKind,
};
use crate::identity::{same_bytes32, TrackIdentity};
use crate::live::{
    asks_for_keyframe, audio_step, classify_audio_step, expected_after, reviewed,
    AudioTimelineStep, DelayReview, LatencyRecovery,
};
use crate::media::{
    audio_packet, decode_image, decode_raster, format_of, full_raster, image_format, image_of,
    parse_audio, parse_delta, parse_full_raster, parse_video, raster_delta, raster_pixels,
    video_packet, AudioHeader, VideoHeader, VIDEO_PACKET_KEY,
};
use crate::number::{signed_64, unsigned_64};
use crate::opening::{accepted_after_media, accepted_of, carries_media, media_refusal};
use crate::protocol::{
    AUDIO_PACKET, CHANNEL_EOS, IMAGE_DATA, MAX_CHANNEL_DATA, NEED_FULL_FRAME, NEED_KEYFRAME,
    RASTER_FRAME, TRACK_LOST, VIDEO_PACKET,
};
use crate::raster::{
    apply_raster_delta, damage_of_all, operated_all, Frame, RasterDamageRect,
};
use crate::registry::Registry;
use crate::reply::{envelope, envelope_bytes, Unencodable};
use crate::session::Session;
use crate::track::{KindConfiguration, TrackMode, TrackSettings};
use crate::text::{decimal, decimal_text};
use crate::value::{entries_value, lookup, number_at, payload_view, text, unsigned, ValueView};

verus! {

/// Pixels whose colour is not multiplied by their opacity.
pub const ALPHA_STRAIGHT: u64 = 1;

/// A key frame is asked for because the decoder lost its state.
pub const NEED_KEYFRAME_DECODER_RESET: u64 = 2;

/// A full frame is asked for because a delta has no base.
pub const NEED_FULL_FRAME_NO_BASE: u64 = 1;

/// Whether a failure is the one that is expected.
pub open spec fn is_failure(
    failure: ChannelFailure,
    kind: ChannelFailureKind,
    error_kind: ErrorKind,
    error: Seq<char>,
    context: ChannelRecordContext,
) -> bool {
    &&& failure.kind == kind
    &&& failure.error_kind == error_kind
    &&& failure.error@ == error
    &&& failure.context == context
}

/// What a record on a channel is.
#[derive(Debug, Clone, Copy, PartialEq, Eq, Structural)]
pub enum ChannelRecord {
    Raster,
    Image,
    Video,
    Audio,
    EndOfStream,
    /// It is passed over.
    Ignored,
}

/// What a record on a channel is, where it may come on one.
pub open spec fn record_kind(record_type: u16, flags: u16) -> Option<ChannelRecord> {
    if record_type == RASTER_FRAME {
        Some(ChannelRecord::Raster)
    } else if record_type == IMAGE_DATA {
        Some(ChannelRecord::Image)
    } else if record_type == VIDEO_PACKET {
        Some(ChannelRecord::Video)
    } else if record_type == AUDIO_PACKET {
        Some(ChannelRecord::Audio)
    } else if record_type == CHANNEL_EOS {
        Some(ChannelRecord::EndOfStream)
    } else if flags & RECORD_OPTIONAL != 0 {
        Some(ChannelRecord::Ignored)
    } else {
        None
    }
}

impl ChannelRecord {
    /// Whether the record carries media, which is paced and returned as capacity.
    pub open spec fn is_media_spec(self) -> bool {
        !(self is EndOfStream) && !(self is Ignored)
    }

    /// Whether the record carries media, which is paced and returned as capacity.
    pub fn is_media(self) -> (r: bool)
        ensures
            r == self.is_media_spec(),
    {
        match self {
            ChannelRecord::EndOfStream | ChannelRecord::Ignored => false,
            _ => true,
        }
    }
}

/// A channel that is attached to its track.
pub struct Channel {
    pub track: TrackIdentity,
    pub generation: u64,
    pub settings: TrackSettings,
    pub pace: IngressPace,
    pub recovery: LatencyRecovery,
    pub review: DelayReview,
    /// Where the audio timeline goes on.
    pub expected_audio_pts_us: Option<i64>,
    /// The record that the channel is at.
    pub context: ChannelRecordContext,
}

/// The context of a record that was just read.
pub open spec fn record_context(record_type: u16, sequence: u64, length: nat) -> ChannelRecordContext {
    ChannelRecordContext {
        record_type: Some(record_type),
        record_sequence: Some(sequence),
        body_bytes: Some(length as u64),
        ..ChannelRecordContext::none()
    }
}

/// A context once the media of its record is known.
pub open spec fn media_context(
    context: ChannelRecordContext,
    epoch: u32,
    media_id: u64,
    pts_us: i64,
) -> ChannelRecordContext {
    ChannelRecordContext {
        media_epoch: Some(epoch),
        media_id: Some(media_id),
        pts_us: Some(pts_us),
        ..context
    }
}

/// What a frame holds.
pub struct FrameView {
    pub frame_id: u64,
    pub pts_us: i64,
    pub width: u32,
    pub height: u32,
    pub sar_num: u32,
    pub sar_den: u32,
    pub alpha_mode: u64,
    pub rgba: Seq<u8>,
    pub damage: Option<Seq<RasterDamageRect>>,
}

/// What a frame holds.
pub open spec fn frame_view(frame: Frame) -> FrameView {
    FrameView {
        frame_id: frame.frame_id,
        pts_us: frame.pts_us,
        width: frame.width,
        height: frame.height,
        sar_num: frame.sar_num,
        sar_den: frame.sar_den,
        alpha_mode: frame.alpha_mode,
        rgba: frame.rgba@,
        damage: match frame.damage {
            Some(damage) => Some(damage@),
            None => None,
        },
    }
}

/// A frame that is to be published, with what the scene accounts for.
pub struct Publication {
    pub frame: Frame,
    pub media_epoch: u32,
    pub body_length: u32,
    /// Whether the frame stands alone.
    pub complete: bool,
}

/// What comes of a raster record.
pub enum RasterOutcome {
    Publish(Publication),
    /// There is no base: the producer is asked for a full frame.
    NeedFullFrame,
}

/// What a raster record comes to.
pub enum RasterView {
    Frame(FrameView, u32),
    NeedFullFrame,
    Failure(ChannelFailureKind, ErrorKind, Seq<char>),
}

/// What a raster record comes to, given the frame that the scene shows of the track.
pub open spec fn raster_step(settings: TrackSettings, body: Seq<u8>, base: Option<FrameView>) -> RasterView {
    match settings.kind {
        KindConfiguration::Raster(raster) => match full_raster(body) {
            Some(header) => if header.width != raster.width || header.height != raster.height || (
            header.compressed && !raster.zstd_enabled) {
                RasterView::Failure(
                    ChannelFailureKind::MediaParse,
                    ErrorKind::InvalidData,
                    "raster frame differs from immutable configuration"@,
                )
            } else {
                match raster_pixels(body) {
                    Err(error) => RasterView::Failure(
                        ChannelFailureKind::Decode,
                        error.kind(),
                        error.text,
                    ),
                    Ok(pixels) => RasterView::Frame(
                        FrameView {
                            frame_id: header.frame_id,
                            pts_us: header.pts_us,
                            width: header.width,
                            height: header.height,
                            sar_num: 1,
                            sar_den: 1,
                            alpha_mode: raster.alpha_mode,
                            rgba: pixels,
                            damage: None,
                        },
                        header.epoch,
                    ),
                }
            },
            None => if !raster.delta_enabled {
                RasterView::Failure(
                    ChannelFailureKind::RecordType,
                    ErrorKind::InvalidData,
                    "raster delta was not negotiated"@,
                )
            } else {
                match raster_delta(
                    body,
                    raster.width,
                    raster.height,
                    raster.maximum_delta_operations as u32,
                ) {
                    Err(error) => RasterView::Failure(
                        ChannelFailureKind::MediaParse,
                        error.kind(),
                        error.text,
                    ),
                    Ok(delta) => match base {
                        None => RasterView::NeedFullFrame,
                        Some(base) => if base.frame_id != delta.base_frame_id {
                            RasterView::Failure(
                                ChannelFailureKind::Decode,
                                ErrorKind::InvalidData,
                                "raster delta base frame is stale"@,
                            )
                        } else {
                            RasterView::Frame(
                                FrameView {
                                    frame_id: delta.frame_id,
                                    pts_us: delta.pts_us,
                                    rgba: operated_all(base.rgba, base.width, delta.operations),
                                    damage: Some(damage_of_all(delta.operations)),
                                    ..base
                                },
                                delta.epoch,
                            )
                        },
                    },
                }
            },
        },
        _ => RasterView::Failure(
            ChannelFailureKind::RecordType,
            ErrorKind::InvalidData,
            "RASTER_FRAME used a non-raster track"@,
        ),
    }
}

/// Whether a frame has the size of a raster track.
pub open spec fn fits_track(settings: TrackSettings, frame: Frame) -> bool {
    &&& frame.wf()
    &&& settings.kind matches KindConfiguration::Raster(raster) ==> frame.width == raster.width
        && frame.height == raster.height
}

/// What an image record comes to.
pub open spec fn image_step(settings: TrackSettings, body: Seq<u8>) -> Result<
    (u32, u32, Seq<u8>),
    (ChannelFailureKind, ErrorKind, Seq<char>),
> {
    match settings.kind {
        KindConfiguration::EncodedImage(image) => if body.len() != image.encoded_length || (
        image.sha256 matches Some(expected) && sha256_of(body) != expected@) {
            Err(
                (
                    ChannelFailureKind::MediaParse,
                    ErrorKind::InvalidData,
                    "encoded image length or hash differs from immutable configuration"@,
                ),
            )
        } else {
            match format_of(image.encoding) {
                None => Err(
                    (
                        ChannelFailureKind::Decode,
                        ErrorKind::Unsupported,
                        "unsupported encoded-image format"@,
                    ),
                ),
                Some(format) => match image_of(body, format) {
                    Err(text) => Err((ChannelFailureKind::Decode, ErrorKind::Other, text)),
                    Ok(decoded) => if decoded.width != image.width || decoded.height
                        != image.height {
                        Err(
                            (
                                ChannelFailureKind::Decode,
                                ErrorKind::InvalidData,
                                "decoded image dimensions differ from immutable configuration"@,
                            ),
                        )
                    } else {
                        Ok((decoded.width, decoded.height, decoded.rgba))
                    },
                },
            }
        },
        _ => Err(
            (
                ChannelFailureKind::RecordType,
                ErrorKind::InvalidData,
                "IMAGE_DATA used a non-image track"@,
            ),
        ),
    }
}

/// What a video record is, with what the scene accounts for.
#[derive(Debug, Clone, Copy, PartialEq, Eq, Structural)]
pub struct VideoRecord {
    pub header: VideoHeader,
    pub random_access: bool,
    pub body_length: u32,
}

/// What an audio record is, with what the scene accounts for.
#[derive(Debug, Clone, Copy, PartialEq, Eq, Structural)]
pub struct AudioRecord {
    pub header: AudioHeader,
    pub body_length: u32,
}

/// What is done about a video packet's time before it is decoded.
#[derive(Debug, Clone, Copy, PartialEq, Eq, Structural)]
pub struct VideoTiming {
    /// The delay that linked audio is asked for, where it changes.
    pub audio_delay_us: Option<u64>,
    /// Decoded frames before this time are dropped.
    pub discard_before_us: Option<i64>,
    /// Whether the producer is asked for a key frame.
    pub request_keyframe: bool,
}

/// How audio that plays beside a video track stands.
#[derive(Debug, Clone, Copy, PartialEq, Eq, Structural)]
pub struct LinkedPlayback {
    /// What was rendered, where anything was.
    pub rendered_pts_us: Option<i64>,
    pub live_delay_us: u64,
    /// Video before this time is of no use, where that can be told.
    pub discard_before_us: Option<i64>,
}

/// What is done about a video packet's time, and the review and the recovery after it.
pub open spec fn video_timing(
    settings: TrackSettings,
    review: DelayReview,
    recovery: LatencyRecovery,
    record: VideoRecord,
    priming: bool,
    audio: Option<LinkedPlayback>,
    now_us: u64,
) -> (VideoTiming, DelayReview) {
    let (delay, reviewed_after) = match audio {
        Some(linked) => match linked.rendered_pts_us {
            Some(rendered) => if settings.mode == TrackMode::Live {
                reviewed(review, record.header.pts_us, rendered, linked.live_delay_us, now_us)
            } else {
                (None, review)
            },
            None => (None, review),
        },
        None => (None, review),
    };
    let discard = if priming {
        None
    } else {
        match audio {
            Some(linked) => linked.discard_before_us,
            None => None,
        }
    };
    let late = discard matches Some(deadline) && record.header.pts_us < deadline;
    (
        VideoTiming {
            audio_delay_us: delay,
            discard_before_us: discard,
            request_keyframe: asks_for_keyframe(recovery, late, record.header.epoch, now_us),
        },
        reviewed_after,
    )
}

/// The last words of a producer on a channel.
#[derive(Debug, Clone, Copy, PartialEq, Eq, Structural)]
pub struct EndOfStream {
    pub epoch: u32,
    pub last_record_sequence: u64,
}

/// The first key of entries that is not one of these.
pub open spec fn unknown_key(entries: Seq<(u64, ValueView)>, allowed: Seq<u64>) -> Option<u64>
    decreases entries.len(),
{
    if entries.len() == 0 {
        None
    } else if !allowed.contains(entries[0].0) {
        Some(entries[0].0)
    } else {
        unknown_key(entries.drop_first(), allowed)
    }
}

/// The first key of a payload that the end of a stream does not have.
fn find_unknown_key(payload: &Vec<(u64, Value)>) -> (r: Option<u64>)
    ensures
        r == unknown_key(payload_view(payload@), seq![0u64, 1, 2, 3, 4, 5]),
{
    let ghost entries = payload_view(payload@);
    let ghost allowed = seq![0u64, 1, 2, 3, 4, 5];
    let mut index: usize = 0;
    assert(entries.skip(0) =~= entries);
    while index < payload.len()
        invariant
            entries == payload_view(payload@),
            allowed == seq![0u64, 1, 2, 3, 4, 5],
            index <= entries.len(),
            unknown_key(entries, allowed) == unknown_key(entries.skip(index as int), allowed),
        decreases entries.len() - index,
    {
        let key: u64 = payload[index].0;
        proof {
            let rest = entries.skip(index as int);
            assert(rest[0].0 == key);
            assert(rest.drop_first() =~= entries.skip(index + 1));
            if key <= 5 {
                assert(allowed[key as int] == key);
            } else {
                assert(!allowed.contains(key));
            }
        }
        if key > 5 {
            return Some(key);
        }
        index = index + 1;
    }
    None
}

/// What the end of a stream comes to, and the epoch that it names once that is known.
pub open spec fn end_step(track: TrackIdentity, generation: u64, body: Seq<u8>) -> (
    Option<u32>,
    Result<EndOfStream, (ChannelFailureKind, ErrorKind, Seq<char>)>,
) {
    match control_read(body) {
        Err(error) => (None, Err((ChannelFailureKind::MediaParse, ErrorKind::Other, error))),
        Ok(opened) => {
            let payload = opened.payload;
            if opened.request_id != 0 {
                (
                    None,
                    Err(
                        (
                            ChannelFailureKind::MediaParse,
                            ErrorKind::InvalidData,
                            "CHANNEL_EOS must be uncorrelated"@,
                        ),
                    ),
                )
            } else if unknown_key(payload, seq![0u64, 1, 2, 3, 4, 5]) is Some {
                (
                    None,
                    Err(
                        (
                            ChannelFailureKind::MediaParse,
                            ErrorKind::Other,
                            "CHANNEL_EOS contains unknown key "@ + decimal(
                                unknown_key(payload, seq![0u64, 1, 2, 3, 4, 5])->0 as nat,
                            ),
                        ),
                    ),
                )
            } else if number_at(payload, 4) is None || number(payload, 4) > u32::MAX {
                (
                    None,
                    Err(
                        (
                            ChannelFailureKind::MediaParse,
                            ErrorKind::InvalidData,
                            "invalid CHANNEL_EOS media epoch"@,
                        ),
                    ),
                )
            } else {
                let epoch = number(payload, 4) as u32;
                (
                    Some(epoch),
                    if number_at(payload, 0) != Some(track.surface.context.context_id)
                        || number_at(payload, 1) != Some(track.surface.surface_id) || number_at(
                        payload,
                        2,
                    ) != Some(track.track_id) || number_at(payload, 3) != Some(generation) {
                        Err(
                            (
                                ChannelFailureKind::RecordIdentity,
                                ErrorKind::InvalidData,
                                "CHANNEL_EOS does not name this track generation"@,
                            ),
                        )
                    } else {
                        match number_at(payload, 5) {
                            None => Err(
                                (
                                    ChannelFailureKind::MediaParse,
                                    ErrorKind::Other,
                                    if lookup(payload, 5) is None {
                                        "CHANNEL_EOS omits key 5"@
                                    } else {
                                        "CHANNEL_EOS key 5 has the wrong type"@
                                    },
                                ),
                            ),
                            Some(last_record_sequence) => Ok(
                                EndOfStream { epoch, last_record_sequence },
                            ),
                        }
                    },
                )
            }
        },
    }
}

/// Whether two optional numbers name the same number.
fn is_number(found: Option<u64>, expected: u64) -> (r: bool)
    ensures
        r == (found == Some(expected)),
{
    match found {
        Some(found) => found == expected,
        None => false,
    }
}

/// The digest of a body.
fn hash(body: &Vec<u8>) -> (r: [u8; 32])
    ensures
        r@ == sha256_of(body@),
{
    let mut hasher = new_hasher();
    feed(&mut hasher, body.as_slice());
    assert(Seq::<u8>::empty() + body@ =~= body@);
    digest(&hasher)
}

/// Whether a media record was taken through a channel: its open becomes unrepeatable, and no other
/// channel is touched.
pub open spec fn media_admitted(
    channel: Channel,
    before: Registry,
    after: Registry,
    outcome: Result<(), ChannelFailure>,
) -> bool {
    let earlier = accepted_of(before.channel_opens@, channel.track);
    &&& after == (Registry { channel_opens: after.channel_opens, ..before })
    &&& after.channel_opens@.dom() == before.channel_opens@.dom()
    &&& accepted_of(after.channel_opens@, channel.track) == accepted_after_media(
        earlier,
        channel.generation,
    )
    &&& forall|other: TrackIdentity|
        other != channel.track ==> #[trigger] accepted_of(after.channel_opens@, other)
            == accepted_of(before.channel_opens@, other)
    &&& outcome is Ok <==> carries_media(earlier, channel.generation)
    &&& outcome matches Err(failure) ==> is_failure(
        failure,
        ChannelFailureKind::InternalState,
        ErrorKind::Other,
        if before.channel_opens@.contains_key(channel.track) {
            media_refusal(earlier)
        } else {
            "channel-open state disappeared"@
        },
        channel.context,
    )
}

/// Whether a raster record was read.
pub open spec fn raster_taken(
    before: Channel,
    after: Channel,
    body: Seq<u8>,
    base: Option<FrameView>,
    outcome: Result<RasterOutcome, ChannelFailure>,
) -> bool {
    &&& after == (Channel { context: after.context, ..before })
    &&& match raster_step(before.settings, body, base) {
        RasterView::Failure(kind, error_kind, error) => after.context == before.context && (
        outcome matches Err(failure) && is_failure(
            failure,
            kind,
            error_kind,
            error,
            before.context,
        )),
        RasterView::NeedFullFrame => after.context == before.context && (
        outcome matches Ok(answer) && answer is NeedFullFrame),
        RasterView::Frame(frame, epoch) => after.context == media_context(
            before.context,
            epoch,
            frame.frame_id,
            frame.pts_us,
        ) && if body.len() <= u32::MAX {
            outcome matches Ok(RasterOutcome::Publish(publication)) && frame_view(publication.frame)
                == frame && publication.frame.wf() && publication.media_epoch == epoch
                && publication.body_length == body.len() && publication.complete == (
            frame.damage is None)
        } else {
            outcome matches Err(failure) && is_failure(
                failure,
                ChannelFailureKind::MediaParse,
                ErrorKind::InvalidData,
                "raster record exceeds u32"@,
                after.context,
            )
        },
    }
}

/// Whether an image record was read.
pub open spec fn image_taken(
    before: Channel,
    after: Channel,
    body: Seq<u8>,
    outcome: Result<Publication, ChannelFailure>,
) -> bool {
    &&& after == (Channel { context: after.context, ..before })
    &&& match image_step(before.settings, body) {
        Err((kind, error_kind, error)) => after.context == before.context && (
        outcome matches Err(failure) && is_failure(
            failure,
            kind,
            error_kind,
            error,
            before.context,
        )),
        Ok((width, height, rgba)) => after.context == media_context(before.context, 0, 1, 0) && (
        outcome matches Ok(publication) && frame_view(publication.frame) == (FrameView {
            frame_id: 1,
            pts_us: 0,
            width,
            height,
            sar_num: 1,
            sar_den: 1,
            alpha_mode: ALPHA_STRAIGHT,
            rgba,
            damage: None,
        }) && publication.frame.wf() && publication.media_epoch == 0 && publication.complete
            && publication.body_length == body.len()),
    }
}

/// Whether a video record was read.
pub open spec fn video_taken(
    before: Channel,
    after: Channel,
    body: Seq<u8>,
    outcome: Result<VideoRecord, ChannelFailure>,
) -> bool {
    &&& after == (Channel { context: after.context, ..before })
    &&& match video_packet(body) {
        Err(error) => after.context == before.context && (outcome matches Err(failure)
            && is_failure(
            failure,
            ChannelFailureKind::MediaParse,
            ErrorKind::Other,
            error,
            before.context,
        )),
        Ok(header) => after.context == media_context(
            before.context,
            header.epoch,
            header.packet_id,
            header.pts_us,
        ) && if body.len() <= u32::MAX {
            outcome == Ok::<VideoRecord, ChannelFailure>(
                VideoRecord {
                    header,
                    random_access: header.flags & VIDEO_PACKET_KEY != 0,
                    body_length: body.len() as u32,
                },
            )
        } else {
            outcome matches Err(failure) && is_failure(
                failure,
                ChannelFailureKind::MediaParse,
                ErrorKind::InvalidData,
                "video record exceeds u32"@,
                after.context,
            )
        },
    }
}

/// Whether an audio record was read.
pub open spec fn audio_taken(
    before: Channel,
    after: Channel,
    body: Seq<u8>,
    outcome: Result<AudioRecord, ChannelFailure>,
) -> bool {
    &&& after == (Channel { context: after.context, ..before })
    &&& match audio_packet(body) {
        Err(error) => after.context == before.context && (outcome matches Err(failure)
            && is_failure(
            failure,
            ChannelFailureKind::MediaParse,
            ErrorKind::Other,
            error,
            before.context,
        )),
        Ok(header) => after.context == media_context(
            before.context,
            header.epoch,
            header.packet_id,
            header.pts_us,
        ) && if body.len() <= u32::MAX {
            outcome == Ok::<AudioRecord, ChannelFailure>(
                AudioRecord { header, body_length: body.len() as u32 },
            )
        } else {
            outcome matches Err(failure) && is_failure(
                failure,
                ChannelFailureKind::MediaParse,
                ErrorKind::InvalidData,
                "audio record exceeds u32"@,
                after.context,
            )
        },
    }
}

/// Whether the end of a stream was read.
pub open spec fn end_taken(
    before: Channel,
    after: Channel,
    body: Seq<u8>,
    last_media_id: u64,
    outcome: Result<EndOfStream, ChannelFailure>,
) -> bool {
    let (epoch, expected) = end_step(before.track, before.generation, body);
    &&& after == (Channel { context: after.context, ..before })
    &&& after.context == (match epoch {
        Some(epoch) => media_context(before.context, epoch, last_media_id, 0),
        None => before.context,
    })
    &&& match expected {
        Ok(end) => outcome == Ok::<EndOfStream, ChannelFailure>(end),
        Err((kind, error_kind, error)) => outcome matches Err(failure) && is_failure(
            failure,
            kind,
            error_kind,
            error,
            after.context,
        ),
    }
}

/// What follows from a record on a channel.
pub enum ChannelStep {
    /// A picture is published, and the record's capacity returned.
    Publish(Publication),
    /// A delta has nothing to start from: a full frame is asked for.
    AskFullFrame,
    /// A video packet is admitted, timed and decoded, and the record's capacity returned.
    Video(VideoRecord),
    /// An audio packet is admitted, decoded and played, and the record's capacity returned.
    Audio(AudioRecord),
    /// The decoder is drained, and the channel ends.
    Ended(EndOfStream),
    /// The record is passed over.
    PassOver,
}

/// Whether the record of a kind came to what is due, once it may come through.
pub open spec fn step_taken(
    before: Channel,
    after: Channel,
    kind: ChannelRecord,
    body: Seq<u8>,
    base: Option<FrameView>,
    last_media_id: u64,
    outcome: Result<ChannelStep, ChannelFailure>,
) -> bool {
    match kind {
        ChannelRecord::Raster => match outcome {
            Ok(ChannelStep::Publish(publication)) => raster_taken(
                before,
                after,
                body,
                base,
                Ok(RasterOutcome::Publish(publication)),
            ),
            Ok(ChannelStep::AskFullFrame) => raster_taken(
                before,
                after,
                body,
                base,
                Ok(RasterOutcome::NeedFullFrame),
            ),
            Err(failure) => raster_taken(before, after, body, base, Err(failure)),
            _ => false,
        },
        ChannelRecord::Image => match outcome {
            Ok(ChannelStep::Publish(publication)) => image_taken(before, after, body, Ok(publication)),
            Err(failure) => image_taken(before, after, body, Err(failure)),
            _ => false,
        },
        ChannelRecord::Video => match outcome {
            Ok(ChannelStep::Video(record)) => video_taken(before, after, body, Ok(record)),
            Err(failure) => video_taken(before, after, body, Err(failure)),
            _ => false,
        },
        ChannelRecord::Audio => match outcome {
            Ok(ChannelStep::Audio(record)) => audio_taken(before, after, body, Ok(record)),
            Err(failure) => audio_taken(before, after, body, Err(failure)),
            _ => false,
        },
        ChannelRecord::EndOfStream => match outcome {
            Ok(ChannelStep::Ended(end)) => end_taken(before, after, body, last_media_id, Ok(end)),
            Err(failure) => end_taken(before, after, body, last_media_id, Err(failure)),
            _ => false,
        },
        ChannelRecord::Ignored => after == before && outcome matches Ok(ChannelStep::PassOver),
    }
}

/// Whether a record came to what is due: media comes through an open channel only.
pub open spec fn record_taken(
    before: Channel,
    after: Channel,
    registry_before: Registry,
    registry_after: Registry,
    kind: ChannelRecord,
    body: Seq<u8>,
    base: Option<FrameView>,
    last_media_id: u64,
    outcome: Result<ChannelStep, ChannelFailure>,
) -> bool {
    if !kind.is_media_spec() {
        registry_after == registry_before && step_taken(
            before,
            after,
            kind,
            body,
            base,
            last_media_id,
            outcome,
        )
    } else if carries_media(
        accepted_of(registry_before.channel_opens@, before.track),
        before.generation,
    ) {
        media_admitted(before, registry_before, registry_after, Ok(())) && step_taken(
            before,
            after,
            kind,
            body,
            base,
            last_media_id,
            outcome,
        )
    } else {
        after == before && (outcome matches Err(failure) && media_admitted(
            before,
            registry_before,
            registry_after,
            Err(failure),
        ))
    }
}

impl Channel {
    /// A channel whose records start now.
    pub fn new(track: TrackIdentity, generation: u64, settings: TrackSettings, now_us: u64) -> (r: Self)
        ensures
            r.track == track,
            r.generation == generation,
            r.settings == settings,
            bucket_view(r.pace.bytes).rate == byte_rate(settings.maximum_encoded_bits_per_second),
            bucket_view(r.pace.bytes).tokens == larger(
                byte_rate(settings.maximum_encoded_bits_per_second),
                settings.maximum_record_body as u64,
            ),
            bucket_view(r.pace.records).rate == settings.maximum_records_per_second,
            bucket_view(r.pace.records).tokens == larger(settings.maximum_records_per_second, 1),
            r.pace.updated_us == now_us,
            r.recovery == (LatencyRecovery { epoch: None, requested_at_us: None }),
            r.review == (DelayReview { started_us: now_us, least_headroom_us: None }),
            r.expected_audio_pts_us is None,
            r.context == ChannelRecordContext::none(),
    {
        let pace = IngressPace::new(
            settings.maximum_encoded_bits_per_second,
            settings.maximum_records_per_second,
            settings.maximum_record_body,
            now_us,
        );
        Channel {
            track,
            generation,
            settings,
            pace,
            recovery: LatencyRecovery::new(),
            review: DelayReview::new(now_us),
            expected_audio_pts_us: None,
            context: ChannelRecordContext::new(),
        }
    }

    /// A record was read.
    pub fn begin_record(
        &mut self,
        record_type: u16,
        flags: u16,
        object_id: u64,
        sequence: u64,
        length: usize,
    ) -> (r: Result<ChannelRecord, ChannelFailure>)
        ensures
            *final(self) == (Channel {
                context: record_context(record_type, sequence, length as nat),
                ..*old(self)
            }),
            if object_id != old(self).track.track_id {
                r matches Err(failure) && is_failure(
                    failure,
                    ChannelFailureKind::RecordIdentity,
                    ErrorKind::InvalidData,
                    "media record object ID does not match the track"@,
                    record_context(record_type, sequence, length as nat),
                )
            } else {
                match record_kind(record_type, flags) {
                    Some(kind) => r == Ok::<ChannelRecord, ChannelFailure>(kind),
                    None => r matches Err(failure) && is_failure(
                        failure,
                        ChannelFailureKind::RecordType,
                        ErrorKind::InvalidData,
                        "record is not legal on a track channel"@,
                        record_context(record_type, sequence, length as nat),
                    ),
                }
            },
    {
        self.context.begin_record(record_type, sequence, length);
        if object_id != self.track.track_id {
            return Err(
                ChannelFailure::message(
                    ChannelFailureKind::RecordIdentity,
                    ErrorKind::InvalidData,
                    "media record object ID does not match the track",
                    self.context,
                ),
            );
        }
        if record_type == RASTER_FRAME {
            Ok(ChannelRecord::Raster)
        } else if record_type == IMAGE_DATA {
            Ok(ChannelRecord::Image)
        } else if record_type == VIDEO_PACKET {
            Ok(ChannelRecord::Video)
        } else if record_type == AUDIO_PACKET {
            Ok(ChannelRecord::Audio)
        } else if record_type == CHANNEL_EOS {
            Ok(ChannelRecord::EndOfStream)
        } else if flags & RECORD_OPTIONAL != 0 {
            Ok(ChannelRecord::Ignored)
        } else {
            Err(
                ChannelFailure::message(
                    ChannelFailureKind::RecordType,
                    ErrorKind::InvalidData,
                    "record is not legal on a track channel",
                    self.context,
                ),
            )
        }
    }

    /// Whether a media record is handled now, or after how many billionths of a second it is looked
    /// at again. One that the track can never carry ends the channel.
    pub fn pace_record(&mut self, length: u64, now_us: u64) -> (r: Result<Option<u64>, ChannelFailure>)
        ensures
            *final(self) == (Channel { pace: final(self).pace, ..*old(self) }),
            final(self).pace.updated_us == now_us,
            ({
                let (pace, bytes, records) = paced(
                    bucket_view(old(self).pace.bytes),
                    bucket_view(old(self).pace.records),
                    unsigned_64(now_us - old(self).pace.updated_us),
                    length,
                );
                &&& bucket_view(final(self).pace.bytes) == bytes
                &&& bucket_view(final(self).pace.records) == records
                &&& match pace {
                    Pace::Now => r == Ok::<Option<u64>, ChannelFailure>(None),
                    Pace::Sleep(wait) => r == Ok::<Option<u64>, ChannelFailure>(Some(wait)),
                    Pace::Exceeded(error) => r matches Err(failure) && is_failure(
                        failure,
                        ChannelFailureKind::RateLimit,
                        ErrorKind::Other,
                        error.text_spec(),
                        old(self).context,
                    ),
                }
            }),
    {
        match self.pace.pace_ingress(length, now_us) {
            Pace::Now => Ok(None),
            Pace::Sleep(wait) => Ok(Some(wait)),
            Pace::Exceeded(error) => Err(
                ChannelFailure::message(
                    ChannelFailureKind::RateLimit,
                    ErrorKind::Other,
                    error.text(),
                    self.context,
                ),
            ),
        }
    }

    /// Take a media record through the channel, which makes the channel's open unrepeatable.
    pub fn admit_record(&self, registry: &mut Registry) -> (r: Result<(), ChannelFailure>)
        requires
            old(registry).wf(),
        ensures
            final(registry).wf(),
            media_admitted(*self, *old(registry), *final(registry), r),
    {
        match registry.admit_media(&self.track, self.generation) {
            Ok(_) => Ok(()),
            Err(error) => Err(
                ChannelFailure::other(ChannelFailureKind::InternalState, error, self.context),
            ),
        }
    }

    /// The length of a body, where a record can have it.
    fn body_length(&self, length: usize, message: &'static str) -> (r: Result<u32, ChannelFailure>)
        ensures
            if length <= u32::MAX {
                r == Ok::<u32, ChannelFailure>(length as u32)
            } else {
                r matches Err(failure) && is_failure(
                    failure,
                    ChannelFailureKind::MediaParse,
                    ErrorKind::InvalidData,
                    message@,
                    self.context,
                )
            },
    {
        if length <= u32::MAX as usize {
            Ok(length as u32)
        } else {
            Err(
                ChannelFailure::message(
                    ChannelFailureKind::MediaParse,
                    ErrorKind::InvalidData,
                    message,
                    self.context,
                ),
            )
        }
    }

    /// Read a raster record, given the frame that the scene shows of the track.
    pub fn raster_record(&mut self, body: &Vec<u8>, base: Option<&Frame>) -> (r: Result<
        RasterOutcome,
        ChannelFailure,
    >)
        requires
            base matches Some(frame) ==> fits_track(old(self).settings, *frame),
        ensures
            raster_taken(
                *old(self),
                *final(self),
                body@,
                match base {
                    Some(frame) => Some(frame_view(*frame)),
                    None => None,
                },
                r,
            ),
    {
        let raster = match self.settings.kind {
            KindConfiguration::Raster(raster) => raster,
            _ => {
                return Err(
                    ChannelFailure::message(
                        ChannelFailureKind::RecordType,
                        ErrorKind::InvalidData,
                        "RASTER_FRAME used a non-raster track",
                        self.context,
                    ),
                );
            },
        };
        let (frame, media_epoch) = match parse_full_raster(body.as_slice()) {
            Some(header) => {
                if header.width != raster.width || header.height != raster.height || (
                header.compressed && !raster.zstd_enabled) {
                    return Err(
                        ChannelFailure::message(
                            ChannelFailureKind::MediaParse,
                            ErrorKind::InvalidData,
                            "raster frame differs from immutable configuration",
                            self.context,
                        ),
                    );
                }
                match decode_raster(body.as_slice()) {
                    Ok(rgba) => (
                        Frame {
                            frame_id: header.frame_id,
                            pts_us: header.pts_us,
                            width: header.width,
                            height: header.height,
                            sar_num: 1,
                            sar_den: 1,
                            alpha_mode: raster.alpha_mode,
                            rgba,
                            damage: None,
                        },
                        header.epoch,
                    ),
                    Err(error) => {
                        let error_kind = error.kind();
                        return Err(
                            ChannelFailure::io(
                                ChannelFailureKind::Decode,
                                error_kind,
                                error.text,
                                self.context,
                            ),
                        );
                    },
                }
            },
            None => {
                if !raster.delta_enabled {
                    return Err(
                        ChannelFailure::message(
                            ChannelFailureKind::RecordType,
                            ErrorKind::InvalidData,
                            "raster delta was not negotiated",
                            self.context,
                        ),
                    );
                }
                let (epoch, delta) = match parse_delta(
                    body.as_slice(),
                    raster.width,
                    raster.height,
                    raster.maximum_delta_operations as u32,
                ) {
                    Ok(parsed) => parsed,
                    Err(error) => {
                        let error_kind = error.kind();
                        return Err(
                            ChannelFailure::io(
                                ChannelFailureKind::MediaParse,
                                error_kind,
                                error.text,
                                self.context,
                            ),
                        );
                    },
                };
                let base = match base {
                    Some(base) => base,
                    None => {
                        return Ok(RasterOutcome::NeedFullFrame);
                    },
                };
                match apply_raster_delta(base, &delta) {
                    Ok(frame) => (frame, epoch),
                    Err(_) => {
                        return Err(
                            ChannelFailure::message(
                                ChannelFailureKind::Decode,
                                ErrorKind::InvalidData,
                                "raster delta base frame is stale",
                                self.context,
                            ),
                        );
                    },
                }
            },
        };
        self.context.media(media_epoch, frame.frame_id, frame.pts_us);
        let body_length: u32 = match self.body_length(body.len(), "raster record exceeds u32") {
            Ok(length) => length,
            Err(failure) => {
                return Err(failure);
            },
        };
        let complete = frame.damage.is_none();
        Ok(RasterOutcome::Publish(Publication { frame, media_epoch, body_length, complete }))
    }

    /// Read an image record.
    pub fn image_record(&mut self, body: &Vec<u8>) -> (r: Result<Publication, ChannelFailure>)
        ensures
            image_taken(*old(self), *final(self), body@, r),
    {
        let image = match self.settings.kind {
            KindConfiguration::EncodedImage(image) => image,
            _ => {
                return Err(
                    ChannelFailure::message(
                        ChannelFailureKind::RecordType,
                        ErrorKind::InvalidData,
                        "IMAGE_DATA used a non-image track",
                        self.context,
                    ),
                );
            },
        };
        let differs = match image.sha256 {
            Some(expected) => {
                let actual = hash(body);
                let same = same_bytes32(&actual, &expected);
                assert(same == (sha256_of(body@) == expected@)) by {
                    if actual@ == expected@ {
                        assert(actual =~= expected);
                    }
                }
                !same
            },
            None => false,
        };
        if body.len() != image.encoded_length as usize || differs {
            return Err(
                ChannelFailure::message(
                    ChannelFailureKind::MediaParse,
                    ErrorKind::InvalidData,
                    "encoded image length or hash differs from immutable configuration",
                    self.context,
                ),
            );
        }
        let format = match image_format(image.encoding) {
            Some(format) => format,
            None => {
                return Err(
                    ChannelFailure::message(
                        ChannelFailureKind::Decode,
                        ErrorKind::Unsupported,
                        "unsupported encoded-image format",
                        self.context,
                    ),
                );
            },
        };
        let decoded = match decode_image(body.as_slice(), format) {
            Ok(decoded) => decoded,
            Err(error) => {
                return Err(
                    ChannelFailure::other(ChannelFailureKind::Decode, error, self.context),
                );
            },
        };
        if decoded.width != image.width || decoded.height != image.height {
            return Err(
                ChannelFailure::message(
                    ChannelFailureKind::Decode,
                    ErrorKind::InvalidData,
                    "decoded image dimensions differ from immutable configuration",
                    self.context,
                ),
            );
        }
        self.context.media(0, 1, 0);
        Ok(
            Publication {
                frame: Frame {
                    frame_id: 1,
                    pts_us: 0,
                    width: decoded.width,
                    height: decoded.height,
                    sar_num: 1,
                    sar_den: 1,
                    alpha_mode: ALPHA_STRAIGHT,
                    rgba: decoded.rgba,
                    damage: None,
                },
                media_epoch: 0,
                body_length: image.encoded_length,
                complete: true,
            },
        )
    }

    /// Read a video record.
    pub fn video_record(&mut self, body: &Vec<u8>) -> (r: Result<VideoRecord, ChannelFailure>)
        ensures
            video_taken(*old(self), *final(self), body@, r),
    {
        let header = match parse_video(body.as_slice()) {
            Ok(header) => header,
            Err(error) => {
                return Err(
                    ChannelFailure::other(ChannelFailureKind::MediaParse, error, self.context),
                );
            },
        };
        let random_access = header.flags & VIDEO_PACKET_KEY != 0;
        self.context.media(header.epoch, header.packet_id, header.pts_us);
        match self.body_length(body.len(), "video record exceeds u32") {
            Ok(body_length) => Ok(VideoRecord { header, random_access, body_length }),
            Err(failure) => Err(failure),
        }
    }

    /// What is done about a video packet's time, once the scene took the record. A priming record is
    /// the first that brings output: nothing of it is dropped.
    pub fn time_video(
        &mut self,
        record: &VideoRecord,
        priming: bool,
        audio: Option<LinkedPlayback>,
        now_us: u64,
    ) -> (r: VideoTiming)
        ensures
            ({
                let (timing, review) = video_timing(
                    old(self).settings,
                    old(self).review,
                    old(self).recovery,
                    *record,
                    priming,
                    audio,
                    now_us,
                );
                &&& r == timing
                &&& *final(self) == (Channel {
                    review,
                    recovery: if timing.request_keyframe {
                        LatencyRecovery {
                            epoch: Some(record.header.epoch),
                            requested_at_us: Some(now_us),
                        }
                    } else if record.random_access && (old(self).recovery.epoch matches Some(epoch)
                        && record.header.epoch > epoch) {
                        LatencyRecovery { epoch: None, ..old(self).recovery }
                    } else {
                        old(self).recovery
                    },
                    ..*old(self)
                })
            }),
    {
        let mut audio_delay_us: Option<u64> = None;
        let mut discard_before_us: Option<i64> = None;
        if let Some(linked) = audio {
            if self.settings.mode == TrackMode::Live {
                if let Some(rendered) = linked.rendered_pts_us {
                    audio_delay_us =
                    self.review.observe(
                        record.header.pts_us,
                        rendered,
                        linked.live_delay_us,
                        now_us,
                    );
                }
            }
            if !priming {
                discard_before_us = linked.discard_before_us;
            }
        }
        let late = match discard_before_us {
            Some(deadline) => record.header.pts_us < deadline,
            None => false,
        };
        let request_keyframe = self.recovery.observe(
            late,
            record.header.epoch,
            record.random_access,
            now_us,
        );
        VideoTiming { audio_delay_us, discard_before_us, request_keyframe }
    }

    /// The shape of the pixels of a decoded video frame, where the track is a video track.
    pub fn sample_aspect(&self) -> (r: Result<(u32, u32), ChannelFailure>)
        ensures
            match self.settings.kind {
                KindConfiguration::Video(video) => r == Ok::<(u32, u32), ChannelFailure>(
                    (capped_u32(video.aspect_numerator), capped_u32(video.aspect_denominator)),
                ),
                _ => r matches Err(failure) && is_failure(
                    failure,
                    ChannelFailureKind::RecordType,
                    ErrorKind::InvalidData,
                    "VIDEO_PACKET used a non-video track"@,
                    self.context,
                ),
            },
    {
        match self.settings.kind {
            KindConfiguration::Video(video) => Ok(
                (cap_u32(video.aspect_numerator), cap_u32(video.aspect_denominator)),
            ),
            _ => Err(
                ChannelFailure::message(
                    ChannelFailureKind::RecordType,
                    ErrorKind::InvalidData,
                    "VIDEO_PACKET used a non-video track",
                    self.context,
                ),
            ),
        }
    }

    /// Read an audio record.
    pub fn audio_record(&mut self, body: &Vec<u8>) -> (r: Result<AudioRecord, ChannelFailure>)
        ensures
            audio_taken(*old(self), *final(self), body@, r),
    {
        let header = match parse_audio(body.as_slice()) {
            Ok(header) => header,
            Err(error) => {
                return Err(
                    ChannelFailure::other(ChannelFailureKind::MediaParse, error, self.context),
                );
            },
        };
        self.context.media(header.epoch, header.packet_id, header.pts_us);
        match self.body_length(body.len(), "audio record exceeds u32") {
            Ok(body_length) => Ok(AudioRecord { header, body_length }),
            Err(failure) => Err(failure),
        }
    }

    /// What a decoded audio packet means for the timeline, once the scene took the record. Audio on a
    /// track of another kind ends the channel.
    pub fn step_audio(&mut self, record: &AudioRecord) -> (r: Result<AudioTimelineStep, ChannelFailure>)
        ensures
            if old(self).settings.kind is Audio {
                &&& r == Ok::<AudioTimelineStep, ChannelFailure>(
                    audio_step(
                        old(self).expected_audio_pts_us,
                        record.header.pts_us,
                        old(self).settings.mode == TrackMode::Live,
                    ),
                )
                &&& *final(self) == (Channel {
                    expected_audio_pts_us: Some(
                        signed_64(
                            record.header.pts_us + crate::decoder::capped(
                                record.header.duration_us,
                            ),
                        ),
                    ),
                    ..*old(self)
                })
            } else {
                *final(self) == *old(self) && (r matches Err(failure) && is_failure(
                    failure,
                    ChannelFailureKind::RecordType,
                    ErrorKind::InvalidData,
                    "AUDIO_PACKET used a non-audio track"@,
                    old(self).context,
                ))
            },
    {
        if let KindConfiguration::Audio = self.settings.kind {
            let step = classify_audio_step(
                self.expected_audio_pts_us,
                record.header.pts_us,
                self.settings.mode == TrackMode::Live,
            );
            self.expected_audio_pts_us = Some(
                expected_after(record.header.pts_us, record.header.duration_us),
            );
            Ok(step)
        } else {
            Err(
                ChannelFailure::message(
                    ChannelFailureKind::RecordType,
                    ErrorKind::InvalidData,
                    "AUDIO_PACKET used a non-audio track",
                    self.context,
                ),
            )
        }
    }

    /// Read the end of a stream. The scene tells the last media that it took of the track.
    pub fn end_record(&mut self, body: &Vec<u8>, last_media_id: u64) -> (r: Result<
        EndOfStream,
        ChannelFailure,
    >)
        ensures
            end_taken(*old(self), *final(self), body@, last_media_id, r),
    {
        let opened = match read_control(body.as_slice()) {
            Ok(opened) => opened,
            Err(error) => {
                return Err(
                    ChannelFailure::other(ChannelFailureKind::MediaParse, error, self.context),
                );
            },
        };
        if opened.request_id != 0 {
            return Err(
                ChannelFailure::message(
                    ChannelFailureKind::MediaParse,
                    ErrorKind::InvalidData,
                    "CHANNEL_EOS must be uncorrelated",
                    self.context,
                ),
            );
        }
        let payload = &opened.payload;
        if let Some(key) = find_unknown_key(payload) {
            let mut error = "CHANNEL_EOS contains unknown key ".to_string();
            error.append(decimal_text(key).as_str());
            return Err(ChannelFailure::other(ChannelFailureKind::MediaParse, error, self.context));
        }
        let epoch: u32 = match payload_number(payload, 4) {
            Some(epoch) => if epoch <= u32::MAX as u64 {
                epoch as u32
            } else {
                return Err(
                    ChannelFailure::message(
                        ChannelFailureKind::MediaParse,
                        ErrorKind::InvalidData,
                        "invalid CHANNEL_EOS media epoch",
                        self.context,
                    ),
                );
            },
            None => {
                return Err(
                    ChannelFailure::message(
                        ChannelFailureKind::MediaParse,
                        ErrorKind::InvalidData,
                        "invalid CHANNEL_EOS media epoch",
                        self.context,
                    ),
                );
            },
        };
        self.context.media(epoch, last_media_id, 0);
        if !is_number(payload_number(payload, 0), self.track.surface.context.context_id)
            || !is_number(payload_number(payload, 1), self.track.surface.surface_id) || !is_number(
            payload_number(payload, 2),
            self.track.track_id,
        ) || !is_number(payload_number(payload, 3), self.generation) {
            return Err(
                ChannelFailure::message(
                    ChannelFailureKind::RecordIdentity,
                    ErrorKind::InvalidData,
                    "CHANNEL_EOS does not name this track generation",
                    self.context,
                ),
            );
        }
        match payload_number(payload, 5) {
            Some(last_record_sequence) => Ok(EndOfStream { epoch, last_record_sequence }),
            None => Err(
                ChannelFailure::message(
                    ChannelFailureKind::MediaParse,
                    ErrorKind::Other,
                    if payload_value(payload, 5).is_none() {
                        "CHANNEL_EOS omits key 5"
                    } else {
                        "CHANNEL_EOS key 5 has the wrong type"
                    },
                    self.context,
                ),
            ),
        }
    }

    /// Take a record of a kind: admit it where it carries media, read it, and say what follows.
    pub fn take_record(
        &mut self,
        registry: &mut Registry,
        kind: ChannelRecord,
        body: &Vec<u8>,
        base: Option<&Frame>,
        last_media_id: u64,
    ) -> (r: Result<ChannelStep, ChannelFailure>)
        requires
            old(registry).wf(),
            base matches Some(frame) ==> fits_track(old(self).settings, *frame),
        ensures
            final(registry).wf(),
            record_taken(
                *old(self),
                *final(self),
                *old(registry),
                *final(registry),
                kind,
                body@,
                match base {
                    Some(frame) => Some(frame_view(*frame)),
                    None => None,
                },
                last_media_id,
                r,
            ),
    {
        if kind.is_media() {
            if let Err(failure) = self.admit_record(registry) {
                return Err(failure);
            }
        }
        match kind {
            ChannelRecord::Raster => match self.raster_record(body, base) {
                Ok(RasterOutcome::Publish(publication)) => Ok(ChannelStep::Publish(publication)),
                Ok(RasterOutcome::NeedFullFrame) => Ok(ChannelStep::AskFullFrame),
                Err(failure) => Err(failure),
            },
            ChannelRecord::Image => match self.image_record(body) {
                Ok(publication) => Ok(ChannelStep::Publish(publication)),
                Err(failure) => Err(failure),
            },
            ChannelRecord::Video => match self.video_record(body) {
                Ok(record) => Ok(ChannelStep::Video(record)),
                Err(failure) => Err(failure),
            },
            ChannelRecord::Audio => match self.audio_record(body) {
                Ok(record) => Ok(ChannelStep::Audio(record)),
                Err(failure) => Err(failure),
            },
            ChannelRecord::EndOfStream => match self.end_record(body, last_media_id) {
                Ok(end) => Ok(ChannelStep::Ended(end)),
                Err(failure) => Err(failure),
            },
            ChannelRecord::Ignored => Ok(ChannelStep::PassOver),
        }
    }

    /// What a producer is told once a media record is done with: how much it may have sent in all.
    pub fn grant_record(&self, maximum_bytes: u64, maximum_records: u64) -> (r: Result<
        OutgoingRecord,
        ChannelFailure,
    >)
        ensures
            match envelope_bytes(
                0,
                grant_fields(self.track, self.generation, maximum_bytes, maximum_records),
            ) {
                Some(body) => r matches Ok(record) && record_view(record) == (
                    MAX_CHANNEL_DATA,
                    self.track.track_id,
                    body,
                ),
                None => r matches Err(failure) && failure.kind == ChannelFailureKind::InternalState
                    && failure.error_kind == ErrorKind::Other && failure.error@
                    == "channel grant cannot be encoded"@ && failure.context == self.context,
            },
    {
        let payload = vec![
            (0u64, unsigned(self.track.surface.context.context_id)),
            (1u64, unsigned(self.track.surface.surface_id)),
            (2u64, unsigned(self.track.track_id)),
            (3u64, unsigned(self.generation)),
            (4u64, unsigned(maximum_bytes)),
            (5u64, unsigned(maximum_records)),
        ];
        assert(payload_view(payload@) =~= grant_fields(
            self.track,
            self.generation,
            maximum_bytes,
            maximum_records,
        ));
        match envelope(0, payload) {
            Ok(body) => Ok((MAX_CHANNEL_DATA, self.track.track_id, body)),
            Err(_) => Err(
                ChannelFailure::message(
                    ChannelFailureKind::InternalState,
                    ErrorKind::Other,
                    "channel grant cannot be encoded",
                    self.context,
                ),
            ),
        }
    }

    /// Ask the producer for a key frame.
    pub fn request_keyframe(&self, reason: u64) -> (r: Option<OutgoingRecord>)
        ensures
            is_sent(
                r,
                NEED_KEYFRAME,
                self.track.track_id,
                keyframe_fields(self.track, self.generation, reason),
            ),
    {
        let payload = vec![
            (0u64, unsigned(self.track.surface.context.context_id)),
            (1u64, unsigned(self.track.surface.surface_id)),
            (2u64, unsigned(self.track.track_id)),
            (3u64, unsigned(self.generation)),
            (4u64, unsigned(0)),
            (5u64, unsigned(reason)),
        ];
        assert(payload_view(payload@) =~= keyframe_fields(self.track, self.generation, reason));
        match envelope(0, payload) {
            Ok(body) => Some((NEED_KEYFRAME, self.track.track_id, body)),
            Err(_) => None,
        }
    }

    /// Ask the producer for a full frame.
    pub fn request_full_frame(&self, reason: u64) -> (r: Option<OutgoingRecord>)
        ensures
            is_sent(
                r,
                NEED_FULL_FRAME,
                self.track.track_id,
                full_frame_fields(self.track, self.generation, reason),
            ),
    {
        let payload = vec![
            (0u64, unsigned(self.track.surface.context.context_id)),
            (1u64, unsigned(self.track.surface.surface_id)),
            (2u64, unsigned(self.track.track_id)),
            (3u64, unsigned(self.generation)),
            (4u64, unsigned(reason)),
        ];
        assert(payload_view(payload@) =~= full_frame_fields(self.track, self.generation, reason));
        match envelope(0, payload) {
            Ok(body) => Some((NEED_FULL_FRAME, self.track.track_id, body)),
            Err(_) => None,
        }
    }
}

/// A number, or the largest that fits.
pub open spec fn capped_u32(number: u64) -> u32 {
    if number <= u32::MAX {
        number as u32
    } else {
        u32::MAX
    }
}

/// A number, or the largest that fits.
fn cap_u32(number: u64) -> (r: u32)
    ensures
        r == capped_u32(number),
{
    if number <= u32::MAX as u64 {
        number as u32
    } else {
        u32::MAX
    }
}

/// How much a producer may have sent in all.
pub open spec fn grant_fields(
    track: TrackIdentity,
    generation: u64,
    maximum_bytes: u64,
    maximum_records: u64,
) -> Seq<(u64, ValueView)> {
    seq![
        (0u64, ValueView::Unsigned(track.surface.context.context_id)),
        (1u64, ValueView::Unsigned(track.surface.surface_id)),
        (2u64, ValueView::Unsigned(track.track_id)),
        (3u64, ValueView::Unsigned(generation)),
        (4u64, ValueView::Unsigned(maximum_bytes)),
        (5u64, ValueView::Unsigned(maximum_records)),
    ]
}

/// What asks for a key frame.
pub open spec fn keyframe_fields(track: TrackIdentity, generation: u64, reason: u64) -> Seq<
    (u64, ValueView),
> {
    seq![
        (0u64, ValueView::Unsigned(track.surface.context.context_id)),
        (1u64, ValueView::Unsigned(track.surface.surface_id)),
        (2u64, ValueView::Unsigned(track.track_id)),
        (3u64, ValueView::Unsigned(generation)),
        (4u64, ValueView::Unsigned(0)),
        (5u64, ValueView::Unsigned(reason)),
    ]
}

/// What asks for a full frame.
pub open spec fn full_frame_fields(track: TrackIdentity, generation: u64, reason: u64) -> Seq<
    (u64, ValueView),
> {
    seq![
        (0u64, ValueView::Unsigned(track.surface.context.context_id)),
        (1u64, ValueView::Unsigned(track.surface.surface_id)),
        (2u64, ValueView::Unsigned(track.track_id)),
        (3u64, ValueView::Unsigned(generation)),
        (4u64, ValueView::Unsigned(reason)),
    ]
}

/// Whether a payload is sent of its own accord, where the codec takes it.
pub open spec fn is_sent(
    record: Option<OutgoingRecord>,
    record_type: u16,
    object_id: u64,
    payload: Seq<(u64, ValueView)>,
) -> bool {
    match envelope_bytes(0, payload) {
        Some(body) => record matches Some(sent) && record_view(sent) == (
            record_type,
            object_id,
            body,
        ),
        None => record is None,
    }
}

/// What became of a channel that ended: its track is lost, gone with its owner, on a later channel, or
/// waits for the next.
pub fn disposition(lost: bool, current_generation: Option<u64>, generation: u64) -> (r: &'static str)
    ensures
        r@ == (if lost {
            "track_lost"@
        } else {
            match current_generation {
                None => "owner_removed"@,
                Some(current) => if current != generation {
                    "superseded"@
                } else {
                    "detached"@
                },
            }
        }),
{
    if lost {
        "track_lost"
    } else {
        match current_generation {
            None => "owner_removed",
            Some(current) => if current != generation {
                "superseded"
            } else {
                "detached"
            },
        }
    }
}

/// What a producer is told of a track that is lost.
pub open spec fn lost_fields(
    track: TrackIdentity,
    code: u64,
    revision: u64,
    diagnostic: Seq<char>,
) -> Seq<(u64, ValueView)> {
    seq![
        (0u64, ValueView::Unsigned(track.surface.context.context_id)),
        (1u64, ValueView::Unsigned(track.surface.surface_id)),
        (2u64, ValueView::Unsigned(track.track_id)),
        (3u64, ValueView::Unsigned(code)),
        (4u64, ValueView::Unsigned(revision)),
        (5u64, ValueView::Entries(Seq::empty())),
        (6u64, ValueView::Text(diagnostic)),
    ]
}

/// Tell a session that a track is lost, for a failure that is said in a way that is safe to show.
pub fn tell_track_lost(session: &mut Session, track: TrackIdentity, failure: &ChannelFailure, revision: u64) -> (r:
    Result<(), Unencodable>)
    requires
        old(session).wf(),
    ensures
        final(session).wf(),
        match envelope_bytes(
            0,
            lost_fields(
                track,
                failure_code(failure.kind, failure.error_kind),
                revision,
                sanitized(failure.error@),
            ),
        ) {
            Some(body) => r is Ok && *final(session) == (Session {
                egress: final(session).egress,
                ..*old(session)
            }) && posted(
                old(session).egress,
                final(session).egress,
                (TRACK_LOST, track.track_id, body),
            ),
            None => r is Err && *final(session) == *old(session),
        },
{
    let empty: Vec<(u64, Value)> = Vec::new();
    assert(payload_view(empty@) =~= Seq::empty());
    let diagnostic = failure.diagnostic();
    let payload = vec![
        (0u64, unsigned(track.surface.context.context_id)),
        (1u64, unsigned(track.surface.surface_id)),
        (2u64, unsigned(track.track_id)),
        (3u64, unsigned(failure.protocol_error_code())),
        (4u64, unsigned(revision)),
        (5u64, entries_value(empty)),
        (6u64, text(diagnostic.as_str())),
    ];
    assert(payload_view(payload@) =~= lost_fields(
        track,
        failure_code(failure.kind, failure.error_kind),
        revision,
        diagnostic@,
    ));
    match envelope(0, payload) {
        Ok(body) => {
            session.post_control(TRACK_LOST, track.track_id, body);
            Ok(())
        },
        Err(error) => Err(error),
    }
}

/// A record is taken for what its type says, whatever its flags; an unknown one is passed over only
/// where it says that it may be.
pub proof fn a_record_is_what_its_type_says(record_type: u16, flags: u16)
    ensures
        record_kind(record_type, flags) == Some(ChannelRecord::Raster) <==> record_type == 0x8003,
        record_kind(record_type, flags) == Some(ChannelRecord::Image) <==> record_type == 0x8006,
        record_kind(record_type, flags) == Some(ChannelRecord::Video) <==> record_type == 0x8001,
        record_kind(record_type, flags) == Some(ChannelRecord::Audio) <==> record_type == 0x8007,
        record_kind(record_type, flags) == Some(ChannelRecord::EndOfStream) <==> record_type
            == 0x800a,
        record_kind(record_type, flags) == Some(ChannelRecord::Ignored) ==> flags & 1 != 0,
        record_kind(record_type, flags) is None ==> flags & 1 == 0,
{
}

/// Media is what is shown or heard: not the end of a stream, and not what is passed over.
pub proof fn media_is_shown_or_heard(record: ChannelRecord, r: bool)
    requires
        call_ensures(ChannelRecord::is_media, (record,), r),
    ensures
        r <==> record is Raster || record is Image || record is Video || record is Audio,
{
}

/// A channel takes records of its own track only, and notes what it takes.
pub proof fn a_channel_takes_records_of_its_own_track(
    channel: &mut Channel,
    record_type: u16,
    flags: u16,
    object_id: u64,
    sequence: u64,
    length: usize,
    r: Result<ChannelRecord, ChannelFailure>,
)
    requires
        call_ensures(
            Channel::begin_record,
            (channel, record_type, flags, object_id, sequence, length),
            r,
        ),
    ensures
        r is Ok ==> object_id == old(channel).track.track_id,
        object_id != old(channel).track.track_id ==> r is Err && r->Err_0.kind is RecordIdentity,
        object_id == old(channel).track.track_id && r is Err ==> r->Err_0.kind is RecordType,
        r matches Ok(kind) ==> record_kind(record_type, flags) == Some(kind),
        final(channel).context.record_type == Some(record_type),
        final(channel).context.record_sequence == Some(sequence),
        final(channel).context.body_bytes == Some(length as u64),
        final(channel).context.media_id is None && final(channel).context.pts_us is None,
        final(channel).track == old(channel).track && final(channel).settings == old(channel).settings && final(channel).generation == old(channel).generation,
{
}

/// A raster that is shown is of the size of its track, with the time and the number that its record
/// has. A delta is shown only on the frame it was made for, and without any frame a whole one is
/// asked for.
pub proof fn a_raster_is_shown_as_its_record_says(
    settings: TrackSettings,
    body: Seq<u8>,
    base: Option<FrameView>,
)
    ensures
        ({
            let step = raster_step(settings, body, base);
            &&& !(settings.kind is Raster) ==> step is Failure
            &&& step matches RasterView::Frame(frame, epoch) ==> {
                &&& settings.kind is Raster
                &&& full_raster(body) matches Some(header) ==> {
                    &&& frame.width == settings.kind->Raster_0.width && frame.height
                        == settings.kind->Raster_0.height
                    &&& frame.frame_id == header.frame_id && frame.pts_us == header.pts_us && epoch
                        == header.epoch
                    &&& frame.alpha_mode == settings.kind->Raster_0.alpha_mode
                    &&& frame.damage is None
                    &&& raster_pixels(body) matches Ok(pixels) && frame.rgba == pixels
                    &&& header.compressed ==> settings.kind->Raster_0.zstd_enabled
                }
                &&& full_raster(body) is None ==> {
                    &&& settings.kind->Raster_0.delta_enabled
                    &&& base is Some && frame.width == base->0.width && frame.height
                        == base->0.height && frame.alpha_mode == base->0.alpha_mode
                    &&& frame.damage is Some
                }
            }
            &&& step is NeedFullFrame ==> base is None && full_raster(body) is None
        }),
{
}

/// An image is shown only where it is as long as its track said, hashes as it said, and decodes to
/// the size it said.
pub proof fn an_image_is_what_its_track_said(settings: TrackSettings, body: Seq<u8>)
    ensures
        image_step(settings, body) matches Ok((width, height, rgba)) ==> {
            &&& settings.kind matches KindConfiguration::EncodedImage(image) && width == image.width
                && height == image.height && body.len() == image.encoded_length && (
            image.sha256 matches Some(expected) ==> sha256_of(body) == expected@)
        },
        !(settings.kind is EncodedImage) ==> image_step(settings, body) is Err,
{
}

/// Video that is primed is never late. Otherwise it is late before the time that is still shown of
/// its sound, and only then is a keyframe asked for; the delay of the sound is reviewed for live
/// video alone.
pub proof fn video_is_late_by_its_sound(
    channel: &mut Channel,
    record: &VideoRecord,
    priming: bool,
    audio: Option<LinkedPlayback>,
    now_us: u64,
    r: VideoTiming,
)
    requires
        call_ensures(Channel::time_video, (channel, record, priming, audio, now_us), r),
    ensures
        priming || audio is None ==> r.discard_before_us is None && !r.request_keyframe,
        !priming ==> (audio matches Some(linked) ==> r.discard_before_us == linked.discard_before_us),
        r.request_keyframe ==> (r.discard_before_us matches Some(deadline) && record.header.pts_us
            < deadline),
        r.request_keyframe ==> final(channel).recovery.epoch == Some(record.header.epoch) && final(channel).recovery.requested_at_us == Some(now_us),
        old(channel).settings.mode != TrackMode::Live ==> r.audio_delay_us is None && final(channel).review == old(channel).review,
        r.audio_delay_us is Some ==> audio is Some && audio->0.rendered_pts_us is Some,
{
}

/// The shape of a pixel is told width first.
pub proof fn the_shape_of_a_pixel_is_width_first(
    channel: &Channel,
    r: Result<(u32, u32), ChannelFailure>,
)
    requires
        call_ensures(Channel::sample_aspect, (channel,), r),
    ensures
        r is Ok <==> channel.settings.kind is Video,
        channel.settings.kind matches KindConfiguration::Video(video) ==> (video.aspect_numerator
            <= u32::MAX && video.aspect_denominator <= u32::MAX ==> r == Ok::<
            (u32, u32),
            ChannelFailure,
        >((video.aspect_numerator as u32, video.aspect_denominator as u32))),
        r matches Err(failure) ==> failure.kind is RecordType,
{
}

/// A stream ends only by a record that names this track and this generation, and says where it
/// ended.
pub proof fn a_stream_is_ended_by_its_own_record(track: TrackIdentity, generation: u64, body: Seq<u8>)
    ensures
        end_step(track, generation, body).1 matches Ok(end) ==> {
            &&& control_read(body) matches Ok(opened) && opened.request_id == 0 && number_at(
                opened.payload,
                0,
            ) == Some(track.surface.context.context_id) && number_at(opened.payload, 1) == Some(
                track.surface.surface_id,
            ) && number_at(opened.payload, 2) == Some(track.track_id) && number_at(
                opened.payload,
                3,
            ) == Some(generation) && number_at(opened.payload, 4) == Some(end.epoch as u64)
                && number_at(opened.payload, 5) == Some(end.last_record_sequence)
        },
{
}

/// What is sent about a channel names its track and its generation first, and then what is granted,
/// asked for, or lost, each in its place.
pub proof fn what_is_sent_about_a_channel_names_it(
    track: TrackIdentity,
    generation: u64,
    maximum_bytes: u64,
    maximum_records: u64,
    reason: u64,
    code: u64,
    revision: u64,
    diagnostic: Seq<char>,
)
    ensures
        ({
            let grant = grant_fields(track, generation, maximum_bytes, maximum_records);
            let keyframe = keyframe_fields(track, generation, reason);
            let full_frame = full_frame_fields(track, generation, reason);
            let lost = lost_fields(track, code, revision, diagnostic);
            &&& grant.len() == 6 && keyframe.len() == 6 && full_frame.len() == 5 && lost.len() == 7
            &&& grant[0] == (0u64, ValueView::Unsigned(track.surface.context.context_id))
            &&& grant[1] == (1u64, ValueView::Unsigned(track.surface.surface_id))
            &&& grant[2] == (2u64, ValueView::Unsigned(track.track_id))
            &&& grant[3] == (3u64, ValueView::Unsigned(generation))
            &&& grant[4] == (4u64, ValueView::Unsigned(maximum_bytes))
            &&& grant[5] == (5u64, ValueView::Unsigned(maximum_records))
            &&& forall|i: int|
                #![trigger keyframe[i]]
                0 <= i < 4 ==> keyframe[i] == grant[i] && full_frame[i] == grant[i]
            &&& keyframe[4] == (4u64, ValueView::Unsigned(0)) && keyframe[5] == (
                5u64,
                ValueView::Unsigned(reason),
            )
            &&& full_frame[4] == (4u64, ValueView::Unsigned(reason))
            &&& lost[0] == grant[0] && lost[1] == grant[1] && lost[2] == grant[2]
            &&& lost[3] == (3u64, ValueView::Unsigned(code))
            &&& lost[4] == (4u64, ValueView::Unsigned(revision))
            &&& lost[6] == (6u64, ValueView::Text(diagnostic))
        }),
{
}

/// The end of a channel is told apart: the track was lost, its owner is gone, a later generation took
/// over, or nothing but the channel is gone.
pub proof fn the_end_of_a_channel_is_told_apart(
    lost: bool,
    current_generation: Option<u64>,
    generation: u64,
    r: &'static str,
)
    requires
        call_ensures(disposition, (lost, current_generation, generation), r),
    ensures
        lost ==> r@ == "track_lost"@,
        !lost && current_generation is None ==> r@ == "owner_removed"@,
        !lost && current_generation == Some(generation) ==> r@ == "detached"@,
        !lost && current_generation is Some && current_generation != Some(generation) ==> r@
            == "superseded"@,
{
}

/// A channel starts at the rates and the sizes of its track.
pub proof fn a_channel_starts_at_the_rates_of_its_track(
    track: TrackIdentity,
    generation: u64,
    settings: TrackSettings,
    now_us: u64,
    r: Channel,
)
    requires
        call_ensures(Channel::new, (track, generation, settings, now_us), r),
        settings.maximum_encoded_bits_per_second <= u64::MAX - 7,
    ensures
        r.track == track && r.generation == generation && r.settings == settings,
        bucket_view(r.pace.bytes).rate * 8 >= settings.maximum_encoded_bits_per_second,
        bucket_view(r.pace.bytes).rate * 8 < settings.maximum_encoded_bits_per_second + 8,
        bucket_view(r.pace.bytes).tokens >= settings.maximum_record_body,
        bucket_view(r.pace.records).rate == settings.maximum_records_per_second,
        bucket_view(r.pace.records).tokens >= 1,
        r.expected_audio_pts_us is None,
{
}

/// Sound is expected next where the last of it ended, and is judged against that.
pub proof fn sound_is_expected_where_the_last_ended(
    channel: &mut Channel,
    record: &AudioRecord,
    r: Result<AudioTimelineStep, ChannelFailure>,
)
    requires
        call_ensures(Channel::step_audio, (channel, record), r),
        record.header.duration_us <= i64::MAX,
        record.header.pts_us + record.header.duration_us <= i64::MAX,
    ensures
        r is Ok <==> old(channel).settings.kind is Audio,
        r is Ok ==> final(channel).expected_audio_pts_us == Some(
            (record.header.pts_us + record.header.duration_us) as i64,
        ),
        r is Err ==> *final(channel) == *old(channel),
        old(channel).expected_audio_pts_us is None && r is Ok ==> r->Ok_0 is Continuous,
        old(channel).settings.mode != TrackMode::Live && r is Ok ==> r->Ok_0 is Continuous,
        old(channel).expected_audio_pts_us matches Some(expected) ==> (r is Ok && old(channel).settings.mode == TrackMode::Live && i64::MIN <= record.header.pts_us - expected <= i64::MAX
            ==> (r->Ok_0 is Gap <==> record.header.pts_us - expected >= 60_000) && (
        r->Ok_0 is Restart <==> expected - record.header.pts_us >= 60_000)),
{
}

/// A video record is taken with the header that its body carries, and is a point to start from where
/// the lowest flag says so. The channel then stands at that picture.
pub proof fn a_video_record_is_taken_as_it_came(
    channel: &mut Channel,
    body: &Vec<u8>,
    r: Result<VideoRecord, ChannelFailure>,
)
    requires
        call_ensures(Channel::video_record, (channel, body), r),
    ensures
        r is Ok <==> video_packet(body@) is Ok && body@.len() <= u32::MAX,
        r matches Ok(record) ==> {
            &&& video_packet(body@) == Ok::<VideoHeader, Seq<char>>(record.header)
            &&& record.random_access <==> record.header.flags % 2 == 1
            &&& record.body_length == body@.len()
            &&& final(channel).context.media_epoch == Some(record.header.epoch)
            &&& final(channel).context.media_id == Some(record.header.packet_id)
            &&& final(channel).context.pts_us == Some(record.header.pts_us)
        },
        final(channel).track == old(channel).track,
        final(channel).generation == old(channel).generation,
        final(channel).settings == old(channel).settings,
{
    if let Ok(record) = r {
        let flags = record.header.flags;
        assert(flags & 1 != 0 <==> flags % 2 == 1) by (bit_vector);
    }
}

/// An audio record is taken with the header that its body carries, and the channel then stands at
/// that sound.
pub proof fn an_audio_record_is_taken_as_it_came(
    channel: &mut Channel,
    body: &Vec<u8>,
    r: Result<AudioRecord, ChannelFailure>,
)
    requires
        call_ensures(Channel::audio_record, (channel, body), r),
    ensures
        r is Ok <==> audio_packet(body@) is Ok && body@.len() <= u32::MAX,
        r matches Ok(record) ==> {
            &&& audio_packet(body@) == Ok::<AudioHeader, Seq<char>>(record.header)
            &&& record.body_length == body@.len()
            &&& final(channel).context.media_epoch == Some(record.header.epoch)
            &&& final(channel).context.media_id == Some(record.header.packet_id)
            &&& final(channel).context.pts_us == Some(record.header.pts_us)
        },
        final(channel).track == old(channel).track,
        final(channel).generation == old(channel).generation,
        final(channel).settings == old(channel).settings,
{
}

/// An image is the first and only picture of its track, is complete, and is shown at once.
pub proof fn an_image_is_the_only_picture_of_its_track(
    channel: &mut Channel,
    body: &Vec<u8>,
    r: Result<Publication, ChannelFailure>,
)
    requires
        call_ensures(Channel::image_record, (channel, body), r),
    ensures
        r is Ok <==> image_step(old(channel).settings, body@) is Ok,
        r matches Ok(publication) ==> {
            &&& frame_view(publication.frame).frame_id == 1
            &&& frame_view(publication.frame).pts_us == 0
            &&& frame_view(publication.frame).damage is None
            &&& frame_view(publication.frame).sar_num == frame_view(publication.frame).sar_den
            &&& publication.complete
            &&& publication.media_epoch == 0
            &&& publication.body_length == body@.len()
            &&& final(channel).context.media_id == Some(1u64)
        },
        r is Err ==> *final(channel) == *old(channel),
{
}

/// The end of a stream is taken where it names this track and this generation. It gives the epoch and
/// the last record that the producer counted.
pub proof fn an_end_is_taken_where_it_names_this_channel(
    channel: &mut Channel,
    body: &Vec<u8>,
    last_media_id: u64,
    r: Result<EndOfStream, ChannelFailure>,
)
    requires
        call_ensures(Channel::end_record, (channel, body, last_media_id), r),
    ensures
        r matches Ok(end) ==> ({
            let track = old(channel).track;
            let payload = control_read(body@)->Ok_0.payload;
            &&& control_read(body@) is Ok
            &&& number_at(payload, 0) == Some(track.surface.context.context_id)
            &&& number_at(payload, 1) == Some(track.surface.surface_id)
            &&& number_at(payload, 2) == Some(track.track_id)
            &&& number_at(payload, 3) == Some(old(channel).generation)
            &&& number_at(payload, 4) == Some(end.epoch as u64)
            &&& number_at(payload, 5) == Some(end.last_record_sequence)
            &&& final(channel).context.media_epoch == Some(end.epoch)
            &&& final(channel).context.media_id == Some(last_media_id)
        }),
        final(channel).track == old(channel).track,
        final(channel).generation == old(channel).generation,
{
}

/// A record gives what its kind gives: pictures for rasters and images, packets for video and audio,
/// the end for an end. Media of a connection that was not accepted gives nothing and moves nothing.
pub proof fn a_record_gives_what_its_kind_gives(
    before: Channel,
    after: Channel,
    registry_before: Registry,
    registry_after: Registry,
    kind: ChannelRecord,
    body: Seq<u8>,
    base: Option<FrameView>,
    last_media_id: u64,
    outcome: Result<ChannelStep, ChannelFailure>,
)
    requires
        record_taken(
            before,
            after,
            registry_before,
            registry_after,
            kind,
            body,
            base,
            last_media_id,
            outcome,
        ),
    ensures
        outcome matches Ok(step) ==> {
            &&& step is Publish ==> kind is Raster || kind is Image
            &&& step is AskFullFrame ==> kind is Raster
            &&& step is Video <==> kind is Video
            &&& step is Audio <==> kind is Audio
            &&& step is Ended <==> kind is EndOfStream
            &&& step is PassOver <==> kind is Ignored
        },
        kind is Ignored ==> outcome is Ok && after == before && registry_after == registry_before,
        (kind is Raster || kind is Image || kind is Video || kind is Audio) && !carries_media(
            accepted_of(registry_before.channel_opens@, before.track),
            before.generation,
        ) ==> outcome is Err && after == before,
        kind is EndOfStream ==> registry_after == registry_before,
        after.track == before.track,
        after.generation == before.generation,
{
}

/// What a channel asks its producer for goes out under its own record type, about its own track.
pub proof fn a_channel_asks_about_its_own_track(
    channel: &Channel,
    reason: u64,
    keyframe: Option<OutgoingRecord>,
    full_frame: Option<OutgoingRecord>,
)
    requires
        call_ensures(Channel::request_keyframe, (channel, reason), keyframe),
        call_ensures(Channel::request_full_frame, (channel, reason), full_frame),
    ensures
        keyframe matches Some(record) ==> record_view(record).0 == 0x800b && record_view(record).1
            == channel.track.track_id,
        full_frame matches Some(record) ==> record_view(record).0 == 0x800c && record_view(record).1
            == channel.track.track_id,
{
}

/// A picture is published complete unless it says which part of it changed, and a picture that cannot
/// be built on what is shown is asked for anew.
pub proof fn a_partial_picture_needs_its_base(
    before: Channel,
    after: Channel,
    body: Seq<u8>,
    base: Option<FrameView>,
    outcome: Result<RasterOutcome, ChannelFailure>,
)
    requires
        raster_taken(before, after, body, base, outcome),
    ensures
        outcome matches Ok(RasterOutcome::Publish(publication)) ==> {
            &&& publication.complete <==> frame_view(publication.frame).damage is None
            &&& publication.body_length == body.len()
            &&& after.context.media_id == Some(frame_view(publication.frame).frame_id)
            &&& after.context.pts_us == Some(frame_view(publication.frame).pts_us)
            &&& after.context.media_epoch == Some(publication.media_epoch)
        },
        outcome matches Ok(RasterOutcome::NeedFullFrame) ==> after == before,
        after.settings == before.settings,
{
}

/// Credit is told under its own record type, about the track of the channel.
pub proof fn credit_is_told_about_its_track(
    channel: &Channel,
    maximum_bytes: u64,
    maximum_records: u64,
    r: Result<OutgoingRecord, ChannelFailure>,
)
    requires
        call_ensures(Channel::grant_record, (channel, maximum_bytes, maximum_records), r),
    ensures
        r matches Ok(record) ==> record_view(record).0 == 0x8009 && record_view(record).1
            == channel.track.track_id,
{
}

} // verus!
