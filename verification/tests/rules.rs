//! Timeouts, live timing, raster copies, contracts, failures and the smaller rules.

use vivid_protocol::messages;
use vivido::bucket::{
    BudgetError, IngressPace, MarkerAdmission, Pace, MARKER_ADMISSION_RATE, MAX_ACTIVE_ANCHORS,
};
use vivido::contract::{
    clamp_contract_for_web, presenter_contract, Resource, ResourceContract, RESOURCE_COUNT,
};
use vivido::failure::{
    io_error_kind_name, sanitize_trace_diagnostic, ChannelFailure, ChannelFailureKind,
    ChannelRecordContext, ErrorKind, MAXIMUM_DIAGNOSTIC_BYTES,
};
use vivido::identity::{PresenterInstanceId, SessionIdentity, TrackIdentity};
use vivido::live::{
    classify_audio_step, expected_after, grown_live_delay_us, shrunk_live_delay_us,
    wait_until_video_due, AudioTimelineStep, DelayReview, LatencyRecovery, LinkedAudio, VideoWait,
    AUDIO_GAP_US, LATENCY_KEYFRAME_INTERVAL_US, LIVE_DELAY_HEADROOM_US, LIVE_DELAY_REVIEW_US,
};
use vivido::metrics::{streaming_metrics, TrackMetrics};
use vivido::outputs::AudioOutputs;
use vivido::raster::{
    apply_raster_delta, copy_raster_rect, Frame, RasterDelta, RasterDeltaOperation, StaleBase,
};
use vivido::registry::{ConnectionSlots, FrameWake, PendingHandshakes, RootNonces};
use vivido::registry::{
    MAX_CONNECTIONS, MAX_PENDING_CONNECTIONS, MAX_ROOT_NONCES, ROOT_NONCE_LIFETIME_US,
};
use vivido::text::{decimal_text, encode_hex};
use vivido::timeout::{actor_wait_timeout, minimum_timeout, remaining, select_actor_wait_timeout};
use vivido::track::{
    live_channel_flow, KindConfiguration, LaneClass, RasterConfiguration, TrackMode, TrackSettings,
    SLOT_AUDIO,
};

fn track(presenter: u8, track_id: u64) -> TrackIdentity {
    SessionIdentity::new(PresenterInstanceId([presenter; 16]), 1)
        .unwrap()
        .context(1)
        .unwrap()
        .surface(1)
        .unwrap()
        .track(track_id)
        .unwrap()
}

#[test]
fn frame_wakes_are_coalesced_until_the_event_is_acknowledged() {
    let mut wake = FrameWake { pending: false, events: 0 };
    wake.request();
    wake.request();
    assert_eq!(wake.events, 1);
    wake.acknowledge();
    wake.request();
    assert_eq!(wake.events, 2);
}

#[test]
fn actor_timeout_policy_selects_the_earliest_responsibility() {
    assert_eq!(
        select_actor_wait_timeout(Some(2_000), Some(9_000), Some(5_000)),
        Some(2_000)
    );
    assert_eq!(select_actor_wait_timeout(None, Some(9_000), None), Some(9_000));
    assert_eq!(select_actor_wait_timeout(None, None, None), None);
}

#[test]
fn an_idle_actor_waits_without_a_timeout() {
    assert_eq!(actor_wait_timeout(None, None, None, None, 10), None);
    assert_eq!(actor_wait_timeout(None, None, Some(30), None, 10), Some(20));
    assert_eq!(actor_wait_timeout(Some(5), Some(40), Some(30), None, 10), Some(5));
    assert_eq!(remaining(Some(10), 25), Some(0));
    assert_eq!(minimum_timeout(Some(4), None), Some(4));
    assert_eq!(minimum_timeout(Some(4), Some(3)), Some(3));
}

#[test]
fn channel_failure_metadata_is_typed_sanitized_and_bounded() {
    let mut context = ChannelRecordContext::new();
    context.begin_record(messages::VIDEO_PACKET, 9, 4_096);
    context.media(3, 17, 42_000);
    let diagnostic = format!("stale\n{}", "é".repeat(1_024));
    let failure = ChannelFailure::io(
        ChannelFailureKind::MediaAdmission,
        ErrorKind::Other,
        diagnostic,
        context,
    );
    let diagnostic = failure.diagnostic();
    assert!(diagnostic.len() <= 1_024);
    assert!(!diagnostic.chars().any(char::is_control));
    assert_eq!(failure.kind.name(), "media_admission");
    assert_eq!(failure.protocol_error_code(), messages::ERROR_FLOW_CONTROL);
    assert_eq!(context.record_sequence, Some(9));

    let device = ChannelFailure::io(
        ChannelFailureKind::AudioOutput,
        ErrorKind::Other,
        "device stopped".into(),
        context,
    );
    assert_eq!(device.protocol_error_code(), messages::ERROR_DEVICE_LOST);
}

#[test]
fn a_diagnostic_keeps_whole_characters() {
    assert_eq!(sanitize_trace_diagnostic("a\tb\u{7f}c"), "a b c");
    let long = "é".repeat(MAXIMUM_DIAGNOSTIC_BYTES);
    assert_eq!(sanitize_trace_diagnostic(&long), "é".repeat(MAXIMUM_DIAGNOSTIC_BYTES / 2));
}

#[test]
fn failures_are_named_after_what_went_wrong() {
    let context = ChannelRecordContext::new();
    let read = ChannelFailure::read(ErrorKind::InvalidData, "bad".into(), context);
    assert_eq!(read.kind, ChannelFailureKind::ProtocolFraming);
    let read = ChannelFailure::read(ErrorKind::UnexpectedEof, "end".into(), context);
    assert_eq!(read.kind, ChannelFailureKind::TransportRead);
    let other = ChannelFailure::other(ChannelFailureKind::Decode, "no".into(), context);
    assert_eq!(other.error_kind, ErrorKind::Other);
    assert_eq!(other.protocol_error_code(), messages::ERROR_DECODER);
    let said = ChannelFailure::message(
        ChannelFailureKind::RateLimit,
        ErrorKind::InvalidData,
        "too fast",
        context,
    );
    assert_eq!(said.diagnostic(), "too fast");
    assert_eq!(said.protocol_error_code(), messages::ERROR_RATE_LIMITED);
    assert_eq!(io_error_kind_name(ErrorKind::BrokenPipe), "broken_pipe");
    assert_eq!(io_error_kind_name(ErrorKind::Other), "other");
}

#[test]
fn raster_copies_match_snapshot_semantics_for_every_overlap_direction() {
    let cases = [(0, 0, 1, 0), (1, 0, 0, 0), (0, 0, 0, 1), (0, 1, 0, 0), (0, 0, 2, 2)];
    for (source_x, source_y, destination_x, destination_y) in cases {
        let mut actual = (0_u8..64).collect::<Vec<_>>();
        let original = actual.clone();
        copy_raster_rect(
            &mut actual,
            4,
            source_x,
            source_y,
            destination_x,
            destination_y,
            2,
            2,
        );
        let mut expected = original.clone();
        for row in 0..2 {
            let source = ((source_y + row) * 4 + source_x) as usize * 4;
            let destination = ((destination_y + row) * 4 + destination_x) as usize * 4;
            expected[destination..destination + 8].copy_from_slice(&original[source..source + 8]);
        }
        assert_eq!(actual, expected);
    }
}

#[test]
fn a_raster_copy_takes_any_buffer_that_holds_both_rectangles() {
    // Two rows of three pixels, and one pixel of the third row.
    let mut cut = (0_u8..28).collect::<Vec<_>>();
    copy_raster_rect(&mut cut, 3, 2, 0, 0, 1, 1, 2);
    let mut expected = (0_u8..28).collect::<Vec<_>>();
    expected[12..16].copy_from_slice(&[8, 9, 10, 11]);
    expected[24..28].copy_from_slice(&[20, 21, 22, 23]);
    assert_eq!(cut, expected);
    let mut empty: Vec<u8> = Vec::new();
    copy_raster_rect(&mut empty, 0, 0, 7, 0, 3, 0, 0);
    copy_raster_rect(&mut empty, 0, 0, 0, 0, 0, 0, 2);
    assert!(empty.is_empty());
    let mut kept = vec![1, 2, 3];
    copy_raster_rect(&mut kept, 5, 0, 0, 1, 0, 2, 0);
    assert_eq!(kept, vec![1, 2, 3]);
}

fn frame() -> Frame {
    Frame {
        frame_id: 4,
        pts_us: 0,
        width: 2,
        height: 2,
        sar_num: 1,
        sar_den: 1,
        alpha_mode: 1,
        rgba: (0_u8..16).collect(),
        damage: None,
    }
}

#[test]
fn a_delta_overwrites_and_copies_in_order() {
    let delta = RasterDelta {
        frame_id: 5,
        base_frame_id: 4,
        pts_us: 9,
        operations: vec![
            RasterDeltaOperation::Overwrite {
                x: 0,
                y: 0,
                width: 1,
                height: 1,
                rgba: vec![90, 91, 92, 93],
            },
            RasterDeltaOperation::Copy {
                destination_x: 1,
                destination_y: 1,
                width: 1,
                height: 1,
                source_x: 0,
                source_y: 0,
            },
        ],
    };
    let next = apply_raster_delta(&frame(), &delta).unwrap();
    assert_eq!(next.frame_id, 5);
    assert_eq!(next.rgba, vec![90, 91, 92, 93, 4, 5, 6, 7, 8, 9, 10, 11, 90, 91, 92, 93]);
    assert_eq!(next.damage.unwrap().len(), 2);
}

#[test]
fn a_delta_against_another_base_is_stale() {
    let delta = RasterDelta { frame_id: 5, base_frame_id: 3, pts_us: 9, operations: vec![] };
    assert!(matches!(apply_raster_delta(&frame(), &delta), Err(StaleBase)));
}

#[test]
fn a_live_delay_grows_by_exactly_what_video_arrived_behind_the_audio_clock() {
    // The audio clock is already retarded by the delay in force, so the shortfall measured
    // against it is exactly what still has to be added. Video that is early adds nothing.
    assert_eq!(grown_live_delay_us(0, -180_000), 180_000);
    assert_eq!(grown_live_delay_us(180_000, -40_000), 220_000);
    assert_eq!(grown_live_delay_us(220_000, 90_000), 220_000);
    assert_eq!(grown_live_delay_us(u64::MAX, -1), u64::MAX);
}

#[test]
fn a_live_delay_only_gives_back_the_margin_above_its_headroom() {
    // A review window in which the closest frame still arrived 400 ms early can return 300 ms
    // and keep 100 ms to absorb jitter. One that arrived just in time returns nothing.
    assert_eq!(shrunk_live_delay_us(500_000, 400_000), 200_000);
    assert_eq!(shrunk_live_delay_us(500_000, LIVE_DELAY_HEADROOM_US), 500_000);
    assert_eq!(shrunk_live_delay_us(500_000, -50_000), 500_000);
    assert_eq!(shrunk_live_delay_us(10_000, 900_000), 0);
}

#[test]
fn a_forward_audio_step_is_a_gap_and_only_a_backward_one_restarts_the_timeline() {
    // Regression: a 2 ms tolerance classified ordinary capture jitter as a restart, and every
    // restart discarded the whole device buffer. Only a clock that went backwards is a restart.
    assert_eq!(
        classify_audio_step(Some(1_000_000), 1_000_020, true),
        AudioTimelineStep::Continuous
    );
    assert_eq!(
        classify_audio_step(Some(1_000_000), 1_000_000 - AUDIO_GAP_US + 1, true),
        AudioTimelineStep::Continuous
    );
    assert_eq!(
        classify_audio_step(Some(1_000_000), 1_000_000 + AUDIO_GAP_US, true),
        AudioTimelineStep::Gap(u64::try_from(AUDIO_GAP_US).unwrap())
    );
    assert_eq!(
        classify_audio_step(Some(1_000_000), 1_000_000 - AUDIO_GAP_US, true),
        AudioTimelineStep::Restart
    );
    // The first packet has nothing to compare against, and timed media keeps exact PTS.
    assert_eq!(classify_audio_step(None, 5_000_000, true), AudioTimelineStep::Continuous);
    assert_eq!(
        classify_audio_step(Some(1_000_000), 9_000_000, false),
        AudioTimelineStep::Continuous
    );
    assert_eq!(expected_after(1_000, 20), 1_020);
    assert_eq!(expected_after(i64::MAX, 20), i64::MAX);
}

#[test]
fn a_delay_grows_at_once_and_shrinks_after_a_review() {
    let mut review = DelayReview::new(0);
    // A frame 200 ms behind the audio clock is answered immediately.
    assert_eq!(review.observe(1_000_000, 1_200_000, 0, 10), Some(200_000));
    // One that is early is only noted, until the window closes.
    assert_eq!(review.observe(1_700_000, 1_200_000, 500_000, 20), None);
    // A window that saw a late frame gives nothing back; the next one gives back its margin.
    assert_eq!(
        review.observe(1_600_000, 1_200_000, 500_000, LIVE_DELAY_REVIEW_US),
        Some(500_000)
    );
    assert_eq!(
        review.observe(1_700_000, 1_200_000, 500_000, LIVE_DELAY_REVIEW_US + 1),
        None
    );
    assert_eq!(
        review.observe(1_600_000, 1_200_000, 500_000, 2 * LIVE_DELAY_REVIEW_US),
        Some(200_000)
    );
}

#[test]
fn late_video_asks_for_a_keyframe_once_per_interval() {
    let mut recovery = LatencyRecovery::new();
    assert!(!recovery.observe(false, 1, false, 0));
    assert!(recovery.observe(true, 1, false, 0));
    // Once per epoch, and never within the interval.
    assert!(!recovery.observe(true, 1, false, LATENCY_KEYFRAME_INTERVAL_US));
    assert!(!recovery.observe(true, 2, false, LATENCY_KEYFRAME_INTERVAL_US - 1));
    assert!(recovery.observe(true, 2, false, LATENCY_KEYFRAME_INTERVAL_US));
}

#[test]
fn linked_video_waits_for_its_audio() {
    let waiting = LinkedAudio { reached: false, stalled: false, until_us: Some(90_000) };
    // Live video never waits, and the first output is the scene's to time.
    assert_eq!(wait_until_video_due(false, true, Some(waiting)), VideoWait::Due);
    assert_eq!(
        wait_until_video_due(true, false, Some(waiting)),
        VideoWait::Scene { priming: true }
    );
    assert_eq!(wait_until_video_due(false, false, None), VideoWait::Scene { priming: false });
    assert_eq!(
        wait_until_video_due(false, false, Some(LinkedAudio { reached: true, ..waiting })),
        VideoWait::Due
    );
    assert_eq!(
        wait_until_video_due(false, false, Some(LinkedAudio { stalled: true, ..waiting })),
        VideoWait::Scene { priming: false }
    );
    assert_eq!(wait_until_video_due(false, false, Some(waiting)), VideoWait::Sleep(20_000));
    assert_eq!(
        wait_until_video_due(false, false, Some(LinkedAudio { until_us: Some(5_000), ..waiting })),
        VideoWait::Sleep(5_000)
    );
    assert_eq!(
        wait_until_video_due(false, false, Some(LinkedAudio { until_us: Some(5), ..waiting })),
        VideoWait::Sleep(1_000)
    );
}

fn raster_track() -> TrackSettings {
    TrackSettings {
        context_id: 1,
        surface_id: 1,
        track_id: 1,
        slot: 1,
        mode: TrackMode::Live,
        lane: LaneClass::Bulk,
        maximum_record_body: 4 * 1024 * 1024,
        maximum_encoded_bits_per_second: 8_000_000,
        maximum_records_per_second: 34,
        maximum_inflight_body_bytes: 64 * 1024 * 1024,
        kind: KindConfiguration::Raster(RasterConfiguration {
            width: 1,
            height: 1,
            alpha_mode: 1,
            delta_enabled: false,
            maximum_delta_operations: 1,
            zstd_enabled: false,
        }),
        maximum_latency_us: 100_000,
    }
}

#[test]
fn live_channel_allowance_matches_the_declared_latency_horizon() {
    let (bytes, records) = live_channel_flow(&raster_track());
    assert_eq!(bytes, 4 * 1024 * 1024 + 100_000);
    assert_eq!(records, 4);

    let audio = TrackSettings {
        context_id: 1,
        surface_id: 1,
        track_id: 2,
        slot: SLOT_AUDIO,
        mode: TrackMode::Live,
        lane: LaneClass::Realtime,
        maximum_record_body: 4_096,
        maximum_encoded_bits_per_second: 128_000,
        maximum_records_per_second: 100,
        maximum_inflight_body_bytes: 1 << 20,
        kind: KindConfiguration::Audio,
        maximum_latency_us: 100_000,
    };
    let (bytes, records) = live_channel_flow(&audio);
    assert_eq!(bytes, 36_096);
    assert_eq!(records, 200);
}

#[test]
fn contract_is_finite_and_terminal_only() {
    let contract = presenter_contract();
    assert_eq!(contract.get(Resource::ChildSessionLeases), 0);
    assert_eq!(contract.get(Resource::InputEventsPerSecond), 0);
    assert!(contract.get(Resource::Surfaces) > 0);
    assert!(contract.get(Resource::Tracks) > 0);
}

#[test]
fn the_web_clamp_never_widens_a_contract() {
    let mut contract = presenter_contract();
    clamp_contract_for_web(&mut contract);
    assert_eq!(
        contract.get(Resource::ControlRecordBody),
        u64::from(vivid_protocol::web::MAX_CONTROL_RECORD_BODY)
    );
    // A ceiling already below the web's survives: clamping takes a minimum, never a raise.
    let mut tight = presenter_contract();
    tight.set(Resource::MediaRecordBody, 1024);
    clamp_contract_for_web(&mut tight);
    assert_eq!(tight.get(Resource::MediaRecordBody), 1024);
}

#[test]
fn a_resource_stands_where_the_protocol_puts_it() {
    assert_eq!(RESOURCE_COUNT, vivid_protocol::resource::RESOURCE_COUNT);
    let mut own = ResourceContract::denied();
    own.set(Resource::Surfaces, 1);
    own.set(Resource::MediaRecordBody, 2);
    own.set(Resource::SeenTerminalAnchorIds, 3);
    let mut wire = vivid_protocol::resource::ResourceContract::denied();
    wire.set(vivid_protocol::resource::Resource::Surfaces, 1);
    wire.set(vivid_protocol::resource::Resource::MediaRecordBody, 2);
    wire.set(vivid_protocol::resource::Resource::SeenTerminalAnchorIds, 3);
    assert_eq!(own.get(Resource::Surfaces), wire.get(vivid_protocol::resource::Resource::Surfaces));
    assert_eq!(
        own.values[vivid_protocol::resource::Resource::MediaRecordBody as usize],
        2
    );
    assert_eq!(
        own.values[vivid_protocol::resource::Resource::SeenTerminalAnchorIds as usize],
        3
    );
}

#[test]
fn secret_text_is_exact_lowercase_hex() {
    let value = encode_hex(&[0x00, 0xab, 0xff]);
    assert_eq!(value, "00abff");
}

#[test]
fn numbers_are_written_in_decimal() {
    assert_eq!(decimal_text(0), "0");
    assert_eq!(decimal_text(u64::MAX), u64::MAX.to_string());
}

#[test]
fn failed_audio_cleanup_is_scoped_by_complete_track_identity() {
    let first = track(1, 1);
    let second = track(2, 1);
    let mut outputs = AudioOutputs::new();
    outputs.start(first, 10);
    outputs.start(second, 11);

    assert_eq!(outputs.stop_failed_audio_output(&first), Some(10));

    assert_eq!(outputs.stream(&first), None);
    assert_eq!(outputs.stream(&second), Some(11));
}

#[test]
fn a_departing_session_stops_only_its_own_streams() {
    let mut outputs = AudioOutputs::new();
    outputs.start(track(1, 1), 10);
    outputs.start(track(1, 2), 12);
    outputs.start(track(2, 1), 11);
    assert_eq!(outputs.start(track(2, 1), 13), Some(11));
    let mut stopped = outputs.stop_session_audio(&track(1, 1).surface.context.session);
    stopped.sort();
    assert_eq!(stopped, vec![10, 12]);
    assert_eq!(outputs.stream(&track(2, 1)), Some(13));
}

#[test]
fn marker_admission_allows_a_whole_anchor_set_at_once_and_then_bounds_the_rate() {
    let start = 1_000_000;
    let mut admission = MarkerAdmission::new(start);

    // A producer registering its complete anchor set in one burst is never made to wait.
    for index in 0..MAX_ACTIVE_ANCHORS {
        assert!(admission.admit_marker(start), "marker {index} of a full anchor set was refused");
    }
    assert!(!admission.admit_marker(start), "the burst is the whole budget, not the start of it");
    assert_eq!(admission.admitted, MAX_ACTIVE_ANCHORS);

    // And the budget returns at the stated rate rather than all at once.
    let quarter = start + 250_000;
    for _ in 0..MARKER_ADMISSION_RATE / 4 {
        assert!(admission.admit_marker(quarter));
    }
    assert!(!admission.admit_marker(quarter), "a quarter second buys a quarter of the rate");
}

#[test]
fn ingress_is_paced_by_bytes_and_records() {
    // Eight kilobits a second and one record of at most a kilobyte a second.
    let mut pace = IngressPace::new(8_000, 1, 1_000, 0);
    assert_eq!(pace.pace_ingress(500, 0), Pace::Now);
    assert!(matches!(pace.pace_ingress(500, 0), Pace::Sleep(_)));
    assert_eq!(pace.pace_ingress(500, 1_000_000), Pace::Now);
    assert!(matches!(
        pace.pace_ingress(1_000_000, 3_000_000),
        Pace::Exceeded(BudgetError::ExceedsContract)
    ));
    assert!(!BudgetError::Overflow.text().is_empty());
}

#[test]
fn a_flood_of_silent_peers_evicts_its_own_oldest() {
    let mut pending = PendingHandshakes::new();
    let mut first = None;
    for handle in 0..MAX_PENDING_CONNECTIONS as u64 {
        let (id, evicted) = pending.enter(handle);
        assert_eq!(evicted, None);
        first.get_or_insert(id);
    }
    let (_, evicted) = pending.enter(100);
    assert_eq!(evicted, Some(0));
    pending.release(first.unwrap() + 1);
    assert_eq!(pending.enter(101).1, None);
}

#[test]
fn connections_are_counted_and_given_back() {
    let mut slots = ConnectionSlots { active: 0 };
    for _ in 0..MAX_CONNECTIONS {
        assert!(slots.claim());
    }
    assert!(!slots.claim());
    slots.release();
    assert!(slots.claim());
}

#[test]
fn a_nonce_is_accepted_once_within_its_lifetime() {
    let mut nonces = RootNonces { entries: Vec::new() };
    assert!(nonces.enter([1; 32], 0));
    assert!(!nonces.enter([1; 32], ROOT_NONCE_LIFETIME_US - 1));
    assert!(nonces.enter([1; 32], ROOT_NONCE_LIFETIME_US));
    for id in 0..MAX_ROOT_NONCES as u64 - 1 {
        let mut nonce = [0; 32];
        nonce[..8].copy_from_slice(&id.to_be_bytes());
        assert!(nonces.enter(nonce, ROOT_NONCE_LIFETIME_US));
    }
    assert!(!nonces.enter([2; 32], ROOT_NONCE_LIFETIME_US));
}

#[test]
fn metrics_are_summed_over_tracks() {
    let one = TrackMetrics {
        decoded_frames: 1,
        discarded_late_frames: 2,
        latency_keyframe_requests: 3,
        audio_rebases: 4,
    };
    let sum = streaming_metrics(&vec![one, one]);
    assert_eq!(sum.decoded_frames, 2);
    assert_eq!(sum.discarded_late_frames, 4);
    assert_eq!(sum.latency_keyframe_requests, 6);
    assert_eq!(sum.audio_rebases, 8);
    assert_eq!(streaming_metrics(&vec![]).audio_rebases, 0);
}
