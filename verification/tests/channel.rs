//! Track channels: media records, pacing and what is told to the producer.

use std::io::Cursor;

use sha2::Digest;
use vivid_protocol::cbor::Value;
use vivid_protocol::media::{
    audio_packet_body, raster_delta_frame_body, raster_frame_body,
    raster_frame_body_with_compression, video_packet_body, AudioPacket, RasterDeltaOperation,
    VideoPacket,
};
use vivid_protocol::messages::{decode_control, Envelope};
use vivido::channel::{
    disposition, Channel, ChannelRecord, ChannelStep, EndOfStream, LinkedPlayback, RasterOutcome,
    ALPHA_STRAIGHT, NEED_FULL_FRAME_NO_BASE, NEED_KEYFRAME_DECODER_RESET,
};
use vivido::failure::{ChannelFailure, ChannelFailureKind, ErrorKind};
use vivido::identity::{PresenterInstanceId, SessionIdentity, TrackIdentity};
use vivido::live::AudioTimelineStep;
use vivido::media::{image_format, ImageFormat};
use vivido::protocol;
use vivido::registry::Registry;
use vivido::track::{
    ImageConfiguration, KindConfiguration, LaneClass, RasterConfiguration, TrackMode,
    TrackSettings, VideoConfiguration,
};

fn track() -> TrackIdentity {
    SessionIdentity::new(PresenterInstanceId([4; 16]), 1)
        .unwrap()
        .context(2)
        .unwrap()
        .surface(3)
        .unwrap()
        .track(9)
        .unwrap()
}

fn settings(kind: KindConfiguration) -> TrackSettings {
    TrackSettings {
        context_id: 2,
        surface_id: 3,
        track_id: 9,
        slot: 3,
        mode: TrackMode::Live,
        lane: LaneClass::Bulk,
        maximum_record_body: 4096,
        maximum_encoded_bits_per_second: 8_000_000,
        maximum_records_per_second: 100,
        maximum_inflight_body_bytes: 1 << 20,
        kind,
        maximum_latency_us: 100_000,
    }
}

fn channel(kind: KindConfiguration) -> Channel {
    Channel::new(track(), 5, settings(kind), 0)
}

fn raster(delta_enabled: bool, zstd_enabled: bool) -> KindConfiguration {
    KindConfiguration::Raster(RasterConfiguration {
        width: 2,
        height: 2,
        alpha_mode: ALPHA_STRAIGHT,
        delta_enabled,
        maximum_delta_operations: if delta_enabled { 4 } else { 1 },
        zstd_enabled,
    })
}

fn refused<T>(outcome: Result<T, ChannelFailure>) -> ChannelFailure {
    match outcome {
        Ok(_) => panic!("the record was taken"),
        Err(failure) => failure,
    }
}

#[test]
fn a_record_is_told_apart_by_its_type() {
    let mut channel = channel(raster(false, false));
    let kinds = [
        (protocol::RASTER_FRAME, ChannelRecord::Raster),
        (protocol::IMAGE_DATA, ChannelRecord::Image),
        (protocol::VIDEO_PACKET, ChannelRecord::Video),
        (protocol::AUDIO_PACKET, ChannelRecord::Audio),
        (protocol::CHANNEL_EOS, ChannelRecord::EndOfStream),
    ];
    for (record_type, kind) in kinds {
        assert_eq!(channel.begin_record(record_type, 0, 9, 4, 10).unwrap(), kind);
        assert_eq!(kind.is_media(), record_type != protocol::CHANNEL_EOS);
    }
    // An optional record of another type is skipped, any other is refused.
    assert_eq!(channel.begin_record(0x8fff, 1, 9, 4, 10).unwrap(), ChannelRecord::Ignored);
    let failure = refused(channel.begin_record(0x8fff, 0, 9, 4, 10));
    assert_eq!(failure.kind, ChannelFailureKind::RecordType);
    let failure = refused(channel.begin_record(protocol::RASTER_FRAME, 0, 8, 4, 10));
    assert_eq!(failure.kind, ChannelFailureKind::RecordIdentity);
    assert_eq!(failure.context.record_sequence, Some(4));
    assert_eq!(failure.context.body_bytes, Some(10));
}

#[test]
fn a_full_raster_frame_is_published() {
    let mut channel = channel(raster(false, false));
    let pixels: Vec<u8> = (0..16).collect();
    let body = raster_frame_body(1, 7, 2, 2, &pixels).unwrap();
    match channel.raster_record(&body, None).unwrap() {
        RasterOutcome::Publish(publication) => {
            assert_eq!(publication.frame.rgba, pixels);
            assert_eq!(publication.frame.frame_id, 7);
            assert_eq!(publication.media_epoch, 1);
            assert_eq!(publication.body_length as usize, body.len());
            assert!(publication.complete);
        },
        RasterOutcome::NeedFullFrame => panic!("a full frame needs no base"),
    }
    assert_eq!(channel.context.media_id, Some(7));
}

#[test]
fn a_frame_of_another_size_or_packing_is_refused() {
    let mut channel = channel(raster(false, false));
    let body = raster_frame_body(1, 7, 1, 2, &[0; 8]).unwrap();
    assert_eq!(refused(channel.raster_record(&body, None)).kind, ChannelFailureKind::MediaParse);
    let packed = raster_frame_body_with_compression(1, 7, 2, 2, &[0; 16], true);
    if let Ok(packed) = packed {
        let failure = refused(channel.raster_record(&packed, None));
        assert_eq!(failure.kind, ChannelFailureKind::MediaParse);
    }
}

#[test]
fn a_raster_delta_needs_its_base() {
    let operations = [RasterDeltaOperation::Overwrite {
        x: 1,
        y: 0,
        width: 1,
        height: 1,
        rgba: &[50, 51, 52, 53],
    }];
    let delta = raster_delta_frame_body(1, 8, 7, 20, 0, 2, 2, 4, &operations, false).unwrap();
    let mut plain = channel(raster(false, false));
    let failure = refused(plain.raster_record(&delta, None));
    assert_eq!(failure.diagnostic(), "raster delta was not negotiated");

    let mut channel = channel(raster(true, false));
    assert!(matches!(channel.raster_record(&delta, None), Ok(RasterOutcome::NeedFullFrame)));
    let pixels: Vec<u8> = (0..16).collect();
    let body = raster_frame_body(1, 7, 2, 2, &pixels).unwrap();
    let base = match channel.raster_record(&body, None).unwrap() {
        RasterOutcome::Publish(publication) => publication.frame,
        RasterOutcome::NeedFullFrame => panic!("a full frame needs no base"),
    };
    match channel.raster_record(&delta, Some(&base)).unwrap() {
        RasterOutcome::Publish(publication) => {
            let mut expected = pixels.clone();
            expected[4..8].copy_from_slice(&[50, 51, 52, 53]);
            assert_eq!(publication.frame.rgba, expected);
            assert_eq!(publication.frame.frame_id, 8);
            assert!(!publication.complete);
            // The next delta has to start from this frame.
            let failure = refused(channel.raster_record(&delta, Some(&publication.frame)));
            assert_eq!(failure.diagnostic(), "raster delta base frame is stale");
        },
        RasterOutcome::NeedFullFrame => panic!("the base was there"),
    }
}

fn png(width: u32, height: u32) -> (Vec<u8>, Vec<u8>) {
    let pixels: Vec<u8> = (0..width * height * 4).map(|byte| byte as u8 | 3).collect();
    let mut encoded = Cursor::new(Vec::new());
    image::RgbaImage::from_raw(width, height, pixels.clone())
        .unwrap()
        .write_to(&mut encoded, image::ImageFormat::Png)
        .unwrap();
    (pixels, encoded.into_inner())
}

fn image_kind(encoding: u64, width: u32, length: usize, sha256: Option<[u8; 32]>) -> KindConfiguration {
    KindConfiguration::EncodedImage(ImageConfiguration {
        encoding,
        width,
        height: 2,
        encoded_length: length as u32,
        sha256,
    })
}

#[test]
fn an_encoded_image_is_decoded_against_its_configuration() {
    let (pixels, encoded) = png(3, 2);
    let mut still = channel(image_kind(1, 3, encoded.len(), None));
    let publication = still.image_record(&encoded).unwrap();
    assert_eq!(publication.frame.rgba, pixels);
    assert_eq!((publication.frame.width, publication.frame.height), (3, 2));

    let mut wrong_length = channel(image_kind(1, 3, encoded.len() + 1, None));
    let failure = refused(wrong_length.image_record(&encoded));
    assert_eq!(failure.kind, ChannelFailureKind::MediaParse);
    let mut wrong_hash = channel(image_kind(1, 3, encoded.len(), Some([0; 32])));
    assert_eq!(refused(wrong_hash.image_record(&encoded)).kind, ChannelFailureKind::MediaParse);
    let mut wrong_size = channel(image_kind(1, 4, encoded.len(), None));
    assert_eq!(refused(wrong_size.image_record(&encoded)).kind, ChannelFailureKind::Decode);
    let mut unknown = channel(image_kind(9, 3, encoded.len(), None));
    let failure = refused(unknown.image_record(&encoded));
    assert_eq!(failure.error_kind, ErrorKind::Unsupported);
    let mut not_a_picture = channel(image_kind(1, 3, 4, None));
    let failure = refused(not_a_picture.image_record(&vec![1, 2, 3, 4]));
    assert_eq!(failure.kind, ChannelFailureKind::Decode);
}

#[test]
fn an_image_hash_is_the_digest_of_its_bytes() {
    let (_, encoded) = png(3, 2);
    let mut hasher = sha2::Sha256::new();
    hasher.update(&encoded);
    let hash: [u8; 32] = hasher.finalize().into();
    let mut still = channel(image_kind(1, 3, encoded.len(), Some(hash)));
    assert!(still.image_record(&encoded).is_ok());
}

#[test]
fn image_encodings_are_numbered() {
    assert_eq!(image_format(1), Some(ImageFormat::Png));
    assert_eq!(image_format(2), Some(ImageFormat::Jpeg));
    assert_eq!(image_format(0), None);
}

fn video_kind() -> KindConfiguration {
    KindConfiguration::Video(VideoConfiguration { aspect_numerator: 4, aspect_denominator: 3 })
}

fn video(epoch: u32, pts_us: i64, key: bool) -> Vec<u8> {
    video_packet_body(VideoPacket {
        epoch,
        packet_id: 11,
        pts_us,
        dts_us: pts_us,
        duration_us: 20_000,
        key,
        data: &[1, 2, 3],
    })
    .unwrap()
}

#[test]
fn a_video_packet_is_read_and_timed() {
    let mut channel = channel(video_kind());
    let record = channel.video_record(&video(2, 5_000, true)).unwrap();
    assert_eq!(record.header.epoch, 2);
    assert_eq!(record.header.packet_id, 11);
    assert_eq!(record.header.pts_us, 5_000);
    assert!(record.random_access);
    assert_eq!(channel.sample_aspect().unwrap(), (4, 3));
    let failure = refused(channel.video_record(&vec![1, 2]));
    assert_eq!(failure.kind, ChannelFailureKind::MediaParse);

    // A late packet asks for a key frame, and its audio for more delay.
    let linked = LinkedPlayback {
        rendered_pts_us: Some(9_000),
        live_delay_us: 100,
        discard_before_us: Some(6_000),
    };
    let timing = channel.time_video(&record, false, Some(linked), 10);
    assert_eq!(timing.audio_delay_us, Some(4_100));
    assert_eq!(timing.discard_before_us, Some(6_000));
    assert!(timing.request_keyframe);
    let timing = channel.time_video(&record, false, None, 20);
    assert_eq!(timing.audio_delay_us, None);
    assert!(!timing.request_keyframe);
}

#[test]
fn an_audio_packet_steps_its_timeline() {
    let mut channel = channel(KindConfiguration::Audio);
    let body = |pts_us: i64| {
        audio_packet_body(AudioPacket {
            epoch: 1,
            packet_id: 3,
            pts_us,
            dts_us: pts_us,
            duration_us: 20_000,
            trim_start_samples: 5,
            trim_end_samples: 6,
            data: &[9],
        })
        .unwrap()
    };
    let first = channel.audio_record(&body(0)).unwrap();
    assert_eq!(first.header.trim_start_samples, 5);
    assert_eq!(first.header.trim_end_samples, 6);
    assert_eq!(channel.step_audio(&first).unwrap(), AudioTimelineStep::Continuous);
    let next = channel.audio_record(&body(120_000)).unwrap();
    assert_eq!(channel.step_audio(&next).unwrap(), AudioTimelineStep::Gap(100_000));
    let failure = refused(channel.audio_record(&vec![]));
    assert_eq!(failure.kind, ChannelFailureKind::MediaParse);
}

fn end_of_stream(generation: u64, last: u64) -> Vec<u8> {
    Envelope::new(
        0,
        vec![
            (0, Value::Unsigned(2)),
            (1, Value::Unsigned(3)),
            (2, Value::Unsigned(9)),
            (3, Value::Unsigned(generation)),
            (4, Value::Unsigned(1)),
            (5, Value::Unsigned(last)),
        ],
    )
    .encode()
    .unwrap()
}

#[test]
fn an_end_of_stream_names_its_channel() {
    let mut channel = channel(video_kind());
    assert_eq!(
        channel.end_record(&end_of_stream(5, 40), 11).unwrap(),
        EndOfStream { epoch: 1, last_record_sequence: 40 }
    );
    let failure = refused(channel.end_record(&end_of_stream(4, 40), 11));
    assert_eq!(failure.kind, ChannelFailureKind::RecordIdentity);
    let failure = refused(channel.end_record(&vec![0xff], 11));
    assert_eq!(failure.kind, ChannelFailureKind::MediaParse);
    let unknown = Envelope::new(0, vec![(4, Value::Unsigned(1)), (77, Value::Unsigned(1))]);
    let failure = refused(channel.end_record(&unknown.encode().unwrap(), 11));
    assert_eq!(failure.diagnostic(), "CHANNEL_EOS contains unknown key 77");
}

#[test]
fn a_channel_tells_what_it_needs() {
    let channel = channel(video_kind());
    let (record_type, object_id, body) = channel.grant_record(1_000, 6).unwrap();
    assert_eq!((record_type, object_id), (protocol::MAX_CHANNEL_DATA, 9));
    let numbers: Vec<Option<u64>> =
        decode_control(&body).unwrap().payload.iter().map(|entry| entry.1.as_u64()).collect();
    assert!(numbers.contains(&Some(1_000)) && numbers.contains(&Some(6)));
    let (record_type, _, _) = channel.request_keyframe(NEED_KEYFRAME_DECODER_RESET).unwrap();
    assert_eq!(record_type, protocol::NEED_KEYFRAME);
    let (record_type, _, _) = channel.request_full_frame(NEED_FULL_FRAME_NO_BASE).unwrap();
    assert_eq!(record_type, protocol::NEED_FULL_FRAME);
}

#[test]
fn a_channel_is_paced_by_its_configuration() {
    let mut channel = channel(video_kind());
    assert_eq!(channel.pace_record(1_000, 0).unwrap(), None);
    let failure = refused(channel.pace_record(u64::MAX, 0));
    assert_eq!(failure.kind, ChannelFailureKind::RateLimit);
}

#[test]
fn media_without_an_open_is_refused() {
    let channel = channel(video_kind());
    let mut registry = Registry::new();
    assert!(channel.admit_record(&mut registry).is_err());
}

#[test]
fn a_record_that_carries_no_media_needs_no_open() {
    let mut registry = Registry::new();
    let mut channel = channel(video_kind());
    let body = end_of_stream(5, 40);
    match channel.take_record(&mut registry, ChannelRecord::EndOfStream, &body, None, 11) {
        Ok(ChannelStep::Ended(end)) => {
            assert_eq!(end, EndOfStream { epoch: 1, last_record_sequence: 40 });
        },
        _ => panic!("the channel did not end"),
    }
    let passed = channel.take_record(&mut registry, ChannelRecord::Ignored, &vec![1], None, 11);
    assert!(matches!(passed, Ok(ChannelStep::PassOver)));
    let failure = refused(channel.take_record(
        &mut registry,
        ChannelRecord::Video,
        &video(1, 0, true),
        None,
        11,
    ));
    assert_eq!(failure.kind, ChannelFailureKind::InternalState);
}

#[test]
fn a_channel_ends_in_one_of_four_ways() {
    assert_eq!(disposition(true, Some(5), 5), "track_lost");
    assert_eq!(disposition(false, Some(5), 5), "detached");
    assert_eq!(disposition(false, Some(6), 5), "superseded");
    assert_eq!(disposition(false, None, 5), "owner_removed");
}
