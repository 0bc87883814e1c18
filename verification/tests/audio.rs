//! The audio clock, its buffers and its trims.

use vivido::audio::{
    converted_trim_samples, leading_silence_sample_count, rendered_pts_us, ring_capacity,
    trim_pending_samples, AudioOutput, AudioTrim, Drained, LINKED_AUDIO_STALL_FALLBACK_US, UNSET_PTS,
};
use vivido::identity::{PresenterInstanceId, SessionIdentity, TrackIdentity};

#[test]
fn video_gate_stall_requires_enabled_and_empty_ingress() {
    let mut output = AudioOutput::open(48_000, 2);
    assert!(!output.video_gate_stalled(0));

    output.configure_play(0, 100_000, 5_000_000);
    output.start();
    assert!(!output.video_gate_stalled(5_000_000));
    let later = 5_000_000 + LINKED_AUDIO_STALL_FALLBACK_US + 1_000;
    assert!(output.video_gate_stalled(later));

    output.receive(2);
    assert!(!output.video_gate_stalled(later));
    output.pause();
    assert!(!output.video_gate_stalled(later));
    output.flush();
    assert!(!output.video_gate_stalled(later));
    assert!(!output.shared.received_samples);
    assert!(output.shared.play_configured_at_us.is_none());
}

#[test]
fn trim_is_rescaled_and_channel_aligned() {
    let mut samples: Vec<f32> = (0..20).map(|value| value as f32).collect();
    let mut start = converted_trim_samples(2, 24_000, 48_000, 2);
    let mut end = converted_trim_samples(1, 24_000, 48_000, 2);
    trim_pending_samples(&mut samples, &mut start, &mut end);
    assert_eq!(samples, (8..16).map(|value| value as f32).collect::<Vec<_>>());
}

#[test]
fn delayed_decoder_output_preserves_pending_trim() {
    let mut start = 4;
    let mut end = 2;
    let mut empty: Vec<f32> = Vec::new();
    trim_pending_samples(&mut empty, &mut start, &mut end);
    assert_eq!((start, end), (4, 2));

    let mut samples: Vec<f32> = (0..12).map(|value| value as f32).collect();
    trim_pending_samples(&mut samples, &mut start, &mut end);
    assert_eq!(samples, (4..10).map(|value| value as f32).collect::<Vec<_>>());
    assert_eq!((start, end), (0, 0));
}

#[test]
fn room_for_a_resampled_frame_is_within_its_bounds() {
    let room = |input_rate, output_rate, samples| {
        AudioTrim::new(input_rate, output_rate, 2).resample_capacity(samples)
    };
    assert_eq!(room(48_000, 48_000, 1_024), Some(1_280));
    assert_eq!(room(44_100, 48_000, 441), Some(736));
    assert_eq!(room(48_000, 48_000, 0), None);
    assert_eq!(room(48_000, 0, 1_024), Some(256));
    assert_eq!(room(1, i32::MAX, i32::MAX), Some(i32::MAX));
    // Rates of different signs leave less room than the margin, but never none.
    assert_eq!(room(-2, 1, 3), Some(255));
    assert_eq!(room(1, -48_000, 1_024), Some(1));
    assert_eq!(room(-48_000, -48_000, 1_024), Some(1_280));
    assert_eq!(room(i32::MIN, i32::MIN, i32::MAX), Some(i32::MAX));
}

#[test]
fn rendered_audio_frames_are_the_media_clock() {
    assert_eq!(rendered_pts_us(20_000, 48_000 * 2, 48_000, 2), 1_020_000);
    assert_eq!(leading_silence_sample_count(0, 100_000, 48_000, 2), 9_600);
    assert_eq!(leading_silence_sample_count(100_000, 0, 48_000, 2), 0);
}

#[test]
fn live_delay_is_scoped_to_its_owner_when_two_sessions_reuse_a_track_id() {
    // Two surfaces streaming at once will normally both allocate track 7. The delay one session
    // needs for its link must not become the delay the other plays with.
    let identity = |presenter: u8| -> TrackIdentity {
        SessionIdentity::new(PresenterInstanceId([presenter; 16]), 1)
            .unwrap()
            .context(1)
            .unwrap()
            .surface(1)
            .unwrap()
            .track(7)
            .unwrap()
    };
    let (first, second) = (identity(1), identity(2));
    assert_ne!(first, second, "identity must distinguish the two owners");

    let mut outputs = vec![
        (first, AudioOutput::open(48_000, 2)),
        (second, AudioOutput::open(48_000, 2)),
    ];
    outputs[0].1.observe_audio_pts(1_000_000);
    outputs[1].1.observe_audio_pts(1_000_000);
    outputs[0].1.request_live_delay(400_000);

    assert_eq!(outputs[0].1.live_delay_us(), 400_000);
    assert_eq!(outputs[1].1.live_delay_us(), 0);
}

#[test]
fn a_callback_hears_silence_until_enough_is_buffered() {
    let mut output = AudioOutput::open(1_000, 1);
    assert_eq!(ring_capacity(0, 2), 1);
    output.start();
    output.sample_queued();
    let rendering = output.render(4, 1);
    assert_eq!((rendering.discarded, rendering.leading, rendering.played), (0, 0, 0));
    output.finish_decode();
    let rendering = output.render(4, 1);
    assert_eq!((rendering.discarded, rendering.leading, rendering.played), (0, 0, 1));
    assert_eq!(output.shared.played_samples, 1);
    assert_eq!(output.shared.rendered_samples, 4);
}

#[test]
fn a_stopped_output_is_silent_at_once() {
    let mut output = AudioOutput::open(48_000, 2);
    output.start();
    output.stop();
    assert!(output.shared.stopped && !output.shared.enabled);
    assert_eq!(output.shared.timeline_origin_us, UNSET_PTS);
    assert!(!matches!(output.wait_drained(), Drained::Waiting));
}
