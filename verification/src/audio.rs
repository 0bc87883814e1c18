//! The audio output as the media clock.
//!
//! Samples go into a ring, and a device callback takes them out. Everything that decides what the
//! device hears, and which media time it has reached, is here; the ring and the device are with the
//! caller.

use vstd::prelude::*;

use crate::decoder::{cap, capped, contains_nul, extradata_of, extradata_plan, has_nul};
use crate::decoder::DecoderRefusal;
use crate::number::{counted, difference, positive_part, product, signed_difference, signed_sum};
use crate::number::{signed_64, smaller, unsigned_64, wrapped_64};

verus! {

/// How many seconds of samples the ring holds.
pub const RING_BUFFER_SECONDS: u64 = 2;

/// How much is buffered before playing when nothing else was asked for.
pub const PREBUFFER_MILLISECONDS: u64 = 100;

/// How long video waits for linked audio that never arrives.
pub const LINKED_AUDIO_STALL_FALLBACK_US: u64 = 2_000_000;

/// The media time that stands for none.
pub const UNSET_PTS: i64 = i64::MIN;

/// What the decoder, the device callback and the session share.
pub struct Shared {
    pub enabled: bool,
    pub prebuffered: bool,
    pub received_samples: bool,
    pub stopped: bool,
    pub decode_done: bool,
    pub eos_observed: bool,
    pub queued_samples: u64,
    pub played_samples: u64,
    pub discard_samples: u64,
    pub rendered_samples: u64,
    pub timeline_origin_us: i64,
    pub first_audio_pts_us: i64,
    pub leading_silence_samples: u64,
    pub prebuffer_samples: u64,
    pub requested_start_pts_us: i64,
    pub play_configured_at_us: Option<u64>,
    pub error: Option<String>,
}

/// What two optional texts hold.
pub open spec fn text_view(text: Option<String>) -> Option<Seq<char>> {
    match text {
        Some(text) => Some(text@),
        None => None,
    }
}

impl Shared {
    /// Nothing heard, nothing asked for.
    pub fn new(prebuffer_samples: u64) -> (r: Self)
        ensures
            r == (Shared {
                enabled: false,
                prebuffered: false,
                received_samples: false,
                stopped: false,
                decode_done: false,
                eos_observed: false,
                queued_samples: 0,
                played_samples: 0,
                discard_samples: 0,
                rendered_samples: 0,
                timeline_origin_us: UNSET_PTS,
                first_audio_pts_us: UNSET_PTS,
                leading_silence_samples: 0,
                prebuffer_samples,
                requested_start_pts_us: UNSET_PTS,
                play_configured_at_us: None,
                error: None,
            }),
    {
        Shared {
            enabled: false,
            prebuffered: false,
            received_samples: false,
            stopped: false,
            decode_done: false,
            eos_observed: false,
            queued_samples: 0,
            played_samples: 0,
            discard_samples: 0,
            rendered_samples: 0,
            timeline_origin_us: UNSET_PTS,
            first_audio_pts_us: UNSET_PTS,
            leading_silence_samples: 0,
            prebuffer_samples,
            requested_start_pts_us: UNSET_PTS,
            play_configured_at_us: None,
            error: None,
        }
    }

    /// Remember the first thing that went wrong.
    pub fn set_error(&mut self, message: String)
        ensures
            *final(self) == (Shared {
                error: if old(self).error is None {
                    Some(message)
                } else {
                    old(self).error
                },
                ..*old(self)
            }),
    {
        if self.error.is_none() {
            self.error = Some(message);
        }
    }

    /// The first thing that went wrong.
    pub fn error(&self) -> (r: Option<String>)
        ensures
            text_view(r) == text_view(self.error),
    {
        match &self.error {
            Some(message) => Some(message.clone()),
            None => None,
        }
    }
}

/// An open audio output.
pub struct AudioOutput {
    pub shared: Shared,
    pub sample_rate: u32,
    pub channels: u16,
    /// How long live audio is held back, so that it is heard with the picture it belongs to.
    pub live_delay_us: u64,
}

/// What the producer may do with its next sample.
pub enum PushStep {
    /// The output is stopped: the rest is dropped.
    Stopped,
    /// The device failed.
    Failed(String),
    /// Offer the sample to the ring.
    Offer,
}

/// Whether everything was heard.
pub enum Drained {
    Done,
    Stopped,
    Failed(String),
    Waiting,
}

/// What one device callback does: the first `discarded` samples of the ring are dropped, then the
/// output gets `leading` samples of silence, then `played` samples of the ring, then silence.
#[derive(Clone, Copy, Debug, PartialEq, Eq, Structural)]
pub struct Rendering {
    pub discarded: u64,
    pub leading: u64,
    pub played: u64,
}

/// How many samples of silence stand between the origin of a timeline and the first sample.
pub open spec fn leading_silence(
    timeline_origin_us: i64,
    audio_origin_us: i64,
    sample_rate: u32,
    channels: u16,
) -> int {
    let gap = signed_64(audio_origin_us - timeline_origin_us);
    unsigned_64((if gap < 0 {
        0int
    } else {
        gap as int
    }) * sample_rate) as int / 1_000_000 * channels
}

/// The media time after some samples of a timeline.
pub open spec fn rendered_pts(origin_us: i64, samples: u64, sample_rate: u32, channels: u16) -> i64 {
    if sample_rate == 0 || channels == 0 {
        origin_us
    } else {
        signed_64(
            origin_us + capped(
                (unsigned_64(samples as int / channels as int * 1_000_000) as int / sample_rate as int) as u64,
            ),
        )
    }
}

/// How many samples a duration has.
pub open spec fn samples_in(sample_rate: u32, channels: u16, duration_us: u64) -> u64 {
    (unsigned_64(unsigned_64(sample_rate * channels) * duration_us) as int / 1_000_000) as u64
}

/// How many samples of silence stand between the origin of a timeline and the first sample.
pub fn leading_silence_sample_count(
    timeline_origin_us: i64,
    audio_origin_us: i64,
    sample_rate: u32,
    channels: u16,
) -> (r: u64)
    ensures
        r == leading_silence(timeline_origin_us, audio_origin_us, sample_rate, channels),
{
    let gap = positive_part(signed_difference(audio_origin_us, timeline_origin_us));
    let frames: u64 = product(gap, sample_rate as u64) / 1_000_000;
    assert(frames * channels <= 18_446_744_073_709 * 65_535) by (nonlinear_arith)
        requires
            frames <= 18_446_744_073_709,
            channels <= 65_535,
    ;
    frames * channels as u64
}

/// The media time after some samples of a timeline.
pub fn rendered_pts_us(origin_us: i64, samples: u64, sample_rate: u32, channels: u16) -> (r: i64)
    ensures
        r == rendered_pts(origin_us, samples, sample_rate, channels),
{
    if sample_rate == 0 || channels == 0 {
        return origin_us;
    }
    let frames: u64 = samples / channels as u64;
    let elapsed_us: u64 = product(frames, 1_000_000) / sample_rate as u64;
    signed_sum(origin_us, cap(elapsed_us))
}

fn sample_count(sample_rate: u32, channels: u16, duration_us: u64) -> (r: u64)
    ensures
        r == samples_in(sample_rate, channels, duration_us),
{
    product(product(sample_rate as u64, channels as u64), duration_us) / 1_000_000
}

/// How many samples the ring of an output holds.
pub fn ring_capacity(sample_rate: u32, channels: u16) -> (r: u64)
    ensures
        r == (if sample_rate == 0 || channels == 0 {
            1int
        } else {
            sample_rate * channels * RING_BUFFER_SECONDS
        }),
{
    assert(sample_rate * channels <= 0xffff_ffff * 0xffff) by (nonlinear_arith)
        requires
            sample_rate <= 0xffff_ffff,
            channels <= 0xffff,
    ;
    assert(sample_rate == 0 || channels == 0 <==> sample_rate * channels == 0) by (nonlinear_arith);
    assert(sample_rate * channels >= 0) by (nonlinear_arith);
    let samples: u64 = sample_rate as u64 * channels as u64 * RING_BUFFER_SECONDS;
    if samples == 0 {
        1
    } else {
        samples
    }
}

/// What a device callback does, and what is shared afterwards.
pub open spec fn rendering_of(shared: Shared, length: u64, available: u64) -> (Shared, Rendering) {
    let discarded = if length <= shared.discard_samples && length <= available {
        length
    } else if shared.discard_samples <= available {
        shared.discard_samples
    } else {
        available
    };
    let silence = Rendering { discarded, leading: 0, played: 0 };
    let buffered = unsigned_64(shared.queued_samples - shared.played_samples);
    if discarded > 0 {
        (
            Shared {
                discard_samples: (shared.discard_samples - discarded) as u64,
                played_samples: wrapped_64(shared.played_samples + discarded),
                ..shared
            },
            silence,
        )
    } else if !shared.enabled {
        (shared, silence)
    } else if !shared.prebuffered && buffered < shared.prebuffer_samples && !shared.decode_done {
        (shared, silence)
    } else {
        let leading = if length <= shared.leading_silence_samples {
            length
        } else {
            shared.leading_silence_samples
        };
        let played = if length - leading <= available {
            (length - leading) as u64
        } else {
            available
        };
        (
            Shared {
                prebuffered: true,
                leading_silence_samples: (shared.leading_silence_samples - leading) as u64,
                played_samples: wrapped_64(shared.played_samples + played),
                rendered_samples: wrapped_64(shared.rendered_samples + length),
                ..shared
            },
            Rendering { discarded: 0, leading, played },
        )
    }
}

/// What is shared once a media time of the timeline was seen.
pub open spec fn timeline_observed(output: AudioOutput, pts_us: i64) -> Shared {
    let shared = output.shared;
    if pts_us == UNSET_PTS || shared.requested_start_pts_us != UNSET_PTS {
        shared
    } else {
        let origin = if shared.timeline_origin_us == UNSET_PTS || pts_us < shared.timeline_origin_us {
            pts_us
        } else {
            shared.timeline_origin_us
        };
        Shared {
            timeline_origin_us: origin,
            leading_silence_samples: if shared.first_audio_pts_us == UNSET_PTS {
                shared.leading_silence_samples
            } else {
                unsigned_64(
                    leading_silence(
                        origin,
                        shared.first_audio_pts_us,
                        output.sample_rate,
                        output.channels,
                    ) - shared.rendered_samples,
                )
            },
            ..shared
        }
    }
}

/// How many of a packet's samples come before the requested start.
pub open spec fn before_start(
    output: AudioOutput,
    pts_us: i64,
    duration_us: u64,
    length: nat,
) -> int {
    let start = output.shared.requested_start_pts_us;
    if start == UNSET_PTS || pts_us >= start {
        0
    } else if signed_64(pts_us + capped(duration_us)) <= start || duration_us == 0 {
        length as int
    } else {
        let discard = samples_in(
            output.sample_rate,
            output.channels,
            signed_64(start - pts_us) as u64,
        );
        if discard <= length {
            discard as int
        } else {
            length as int
        }
    }
}

/// Take the first items out.
fn drop_front<T>(items: &mut Vec<T>, count: usize)
    requires
        count <= old(items)@.len(),
    ensures
        final(items)@ == old(items)@.skip(count as int),
{
    let mut rest = items.split_off(count);
    std::mem::swap(items, &mut rest);
    assert(items@ =~= old(items)@.skip(count as int));
}

impl AudioOutput {
    /// An output on a device.
    pub fn open(sample_rate: u32, channels: u16) -> (r: Self)
        ensures
            r.sample_rate == sample_rate,
            r.channels == channels,
            r.live_delay_us == 0,
            r.shared.prebuffer_samples == unsigned_64(
                unsigned_64(sample_rate * channels) * PREBUFFER_MILLISECONDS,
            ) as int / 1_000,
            !r.shared.enabled && !r.shared.prebuffered && !r.shared.received_samples
                && !r.shared.stopped && !r.shared.decode_done && !r.shared.eos_observed,
            r.shared.queued_samples == 0 && r.shared.played_samples == 0 && r.shared.discard_samples
                == 0 && r.shared.rendered_samples == 0 && r.shared.leading_silence_samples == 0,
            r.shared.timeline_origin_us == UNSET_PTS && r.shared.first_audio_pts_us == UNSET_PTS
                && r.shared.requested_start_pts_us == UNSET_PTS,
            r.shared.play_configured_at_us is None && r.shared.error is None,
    {
        let prebuffer_samples: u64 = product(
            product(sample_rate as u64, channels as u64),
            PREBUFFER_MILLISECONDS,
        ) / 1_000;
        AudioOutput { shared: Shared::new(prebuffer_samples), sample_rate, channels, live_delay_us: 0 }
    }

    /// Let the device hear samples.
    pub fn start(&mut self)
        ensures
            *final(self) == (AudioOutput {
                shared: (Shared { enabled: true, ..old(self).shared }),
                ..*old(self)
            }),
    {
        self.shared.enabled = true;
    }

    /// Set where playing starts and how much is buffered first.
    pub fn configure_play(&mut self, start_pts_us: i64, minimum_buffer_us: u64, now_us: u64)
        ensures
            *final(self) == (AudioOutput {
                shared: (Shared {
                    requested_start_pts_us: start_pts_us,
                    timeline_origin_us: start_pts_us,
                    prebuffer_samples: samples_in(
                        old(self).sample_rate,
                        old(self).channels,
                        minimum_buffer_us,
                    ),
                    prebuffered: false,
                    play_configured_at_us: Some(now_us),
                    ..old(self).shared
                }),
                ..*old(self)
            }),
    {
        self.shared.requested_start_pts_us = start_pts_us;
        self.shared.timeline_origin_us = start_pts_us;
        self.shared.prebuffer_samples =
        sample_count(self.sample_rate, self.channels, minimum_buffer_us);
        self.shared.prebuffered = false;
        self.shared.play_configured_at_us = Some(now_us);
    }

    /// Silence the device.
    pub fn pause(&mut self)
        ensures
            *final(self) == (AudioOutput {
                shared: (Shared { enabled: false, ..old(self).shared }),
                ..*old(self)
            }),
    {
        self.shared.enabled = false;
    }

    /// Forget the timeline, and drop what is still in the ring.
    pub fn flush(&mut self)
        ensures
            *final(self) == (AudioOutput {
                shared: (Shared {
                    enabled: false,
                    discard_samples: unsigned_64(
                        old(self).shared.queued_samples - old(self).shared.played_samples,
                    ),
                    prebuffered: false,
                    received_samples: false,
                    decode_done: false,
                    eos_observed: false,
                    rendered_samples: 0,
                    timeline_origin_us: UNSET_PTS,
                    requested_start_pts_us: UNSET_PTS,
                    first_audio_pts_us: UNSET_PTS,
                    leading_silence_samples: 0,
                    play_configured_at_us: None,
                    ..old(self).shared
                }),
                ..*old(self)
            }),
    {
        self.pause();
        self.shared.discard_samples =
        difference(self.shared.queued_samples, self.shared.played_samples);
        self.shared.prebuffered = false;
        self.shared.received_samples = false;
        self.shared.decode_done = false;
        self.shared.eos_observed = false;
        self.shared.rendered_samples = 0;
        self.shared.timeline_origin_us = UNSET_PTS;
        self.shared.requested_start_pts_us = UNSET_PTS;
        self.shared.first_audio_pts_us = UNSET_PTS;
        self.shared.leading_silence_samples = 0;
        self.shared.play_configured_at_us = None;
    }

    /// The earliest media time seen is the origin, unless playing was asked to start elsewhere.
    pub fn observe_timeline_pts(&mut self, pts_us: i64)
        ensures
            *final(self) == (AudioOutput {
                shared: timeline_observed(*old(self), pts_us),
                ..*old(self)
            }),
    {
        if pts_us == UNSET_PTS || self.shared.requested_start_pts_us != UNSET_PTS {
            return;
        }
        if self.shared.timeline_origin_us == UNSET_PTS || pts_us < self.shared.timeline_origin_us {
            self.shared.timeline_origin_us = pts_us;
        }
        if self.shared.first_audio_pts_us != UNSET_PTS {
            let desired = leading_silence_sample_count(
                self.shared.timeline_origin_us,
                self.shared.first_audio_pts_us,
                self.sample_rate,
                self.channels,
            );
            self.shared.leading_silence_samples = difference(desired, self.shared.rendered_samples);
        }
    }

    /// The first media time of the audio is where its samples start.
    pub fn observe_audio_pts(&mut self, pts_us: i64)
        ensures
            *final(self) == ({
                let first = AudioOutput {
                    shared: (Shared {
                        first_audio_pts_us: if old(self).shared.first_audio_pts_us == UNSET_PTS {
                            pts_us
                        } else {
                            old(self).shared.first_audio_pts_us
                        },
                        ..old(self).shared
                    }),
                    ..*old(self)
                };
                AudioOutput { shared: timeline_observed(first, pts_us), ..first }
            }),
    {
        if pts_us != UNSET_PTS && self.shared.first_audio_pts_us == UNSET_PTS {
            self.shared.first_audio_pts_us = pts_us;
        }
        self.observe_timeline_pts(pts_us);
    }

    /// Drop the samples of a packet that come before the requested start.
    pub fn trim_before_start<T>(&self, pts_us: i64, duration_us: u64, samples: &mut Vec<T>)
        ensures
            final(samples)@ == old(samples)@.skip(
                before_start(*self, pts_us, duration_us, old(samples)@.len()),
            ),
    {
        let start = self.shared.requested_start_pts_us;
        if start == UNSET_PTS || pts_us >= start || samples.len() == 0 {
            assert(samples@ =~= samples@.skip(0));
            return;
        }
        let length = samples.len();
        if signed_sum(pts_us, cap(duration_us)) <= start || duration_us == 0 {
            drop_front(samples, length);
            return;
        }
        let discard_us = signed_difference(start, pts_us) as u64;
        let discard = sample_count(self.sample_rate, self.channels, discard_us);
        if discard <= length as u64 {
            drop_front(samples, discard as usize);
        } else {
            drop_front(samples, length);
        }
    }

    /// Whether the device has reached a media time.
    pub fn pts_reached(&self, pts_us: i64) -> (r: bool)
        ensures
            r == (self.shared.enabled && self.shared.prebuffered && self.shared.timeline_origin_us
                != UNSET_PTS && pts_us <= rendered_pts(
                self.shared.timeline_origin_us,
                self.shared.rendered_samples,
                self.sample_rate,
                self.channels,
            )),
    {
        if !self.shared.enabled || !self.shared.prebuffered {
            return false;
        }
        let origin = self.shared.timeline_origin_us;
        origin != UNSET_PTS && pts_us <= rendered_pts_us(
            origin,
            self.shared.rendered_samples,
            self.sample_rate,
            self.channels,
        )
    }

    /// Whether video has waited long enough for audio that never arrived.
    pub fn video_gate_stalled(&self, now_us: u64) -> (r: bool)
        ensures
            r == (self.shared.enabled && !self.shared.prebuffered && !self.shared.received_samples
                && (self.shared.play_configured_at_us matches Some(configured) && now_us
                - configured > LINKED_AUDIO_STALL_FALLBACK_US)),
    {
        if !self.shared.enabled || self.shared.prebuffered || self.shared.received_samples {
            return false;
        }
        match self.shared.play_configured_at_us {
            Some(configured) => difference(now_us, configured) > LINKED_AUDIO_STALL_FALLBACK_US,
            None => false,
        }
    }

    /// Samples arrived from the decoder.
    pub fn receive(&mut self, count: usize)
        ensures
            *final(self) == (AudioOutput {
                shared: (Shared {
                    received_samples: old(self).shared.received_samples || count > 0,
                    ..old(self).shared
                }),
                ..*old(self)
            }),
    {
        if count > 0 {
            self.shared.received_samples = true;
        }
    }

    /// What the producer may do with its next sample.
    pub fn push_step(&self) -> (r: PushStep)
        ensures
            match r {
                PushStep::Stopped => self.shared.stopped,
                PushStep::Failed(message) => !self.shared.stopped && text_view(self.shared.error) == Some(
                    message@,
                ),
                PushStep::Offer => !self.shared.stopped && self.shared.error is None,
            },
    {
        if self.shared.stopped {
            return PushStep::Stopped;
        }
        match self.shared.error() {
            Some(message) => PushStep::Failed(message),
            None => PushStep::Offer,
        }
    }

    /// The ring took a sample.
    pub fn sample_queued(&mut self)
        ensures
            *final(self) == (AudioOutput {
                shared: (Shared {
                    queued_samples: wrapped_64(old(self).shared.queued_samples + 1),
                    ..old(self).shared
                }),
                ..*old(self)
            }),
    {
        self.shared.queued_samples = counted(self.shared.queued_samples, 1);
    }

    /// The decoder has given everything.
    pub fn finish_decode(&mut self)
        ensures
            *final(self) == (AudioOutput {
                shared: (Shared { decode_done: true, ..old(self).shared }),
                ..*old(self)
            }),
    {
        self.shared.decode_done = true;
    }

    /// The producer said that the stream ends.
    pub fn signal_eos(&mut self)
        ensures
            *final(self) == (AudioOutput {
                shared: (Shared { eos_observed: true, ..old(self).shared }),
                ..*old(self)
            }),
    {
        self.shared.eos_observed = true;
    }

    /// Whether everything was heard. What was heard is done even where the output stopped since.
    pub fn wait_drained(&self) -> (r: Drained)
        ensures
            ({
                let heard = self.shared.eos_observed && self.shared.decode_done
                    && self.shared.played_samples >= self.shared.queued_samples;
                match r {
                    Drained::Done => heard,
                    Drained::Stopped => !heard && self.shared.stopped,
                    Drained::Failed(message) => !heard && !self.shared.stopped
                        && text_view(self.shared.error) == Some(message@),
                    Drained::Waiting => !heard && !self.shared.stopped && self.shared.error is None,
                }
            }),
    {
        if self.shared.eos_observed && self.shared.decode_done && self.shared.played_samples
            >= self.shared.queued_samples {
            return Drained::Done;
        }
        if self.shared.stopped {
            return Drained::Stopped;
        }
        match self.shared.error() {
            Some(message) => Drained::Failed(message),
            None => Drained::Waiting,
        }
    }

    /// End the output. The device is silenced at once: samples already in the ring must not be
    /// heard after the track they belong to is gone.
    pub fn stop(&mut self)
        ensures
            *final(self) == (AudioOutput {
                shared: (Shared { stopped: true, enabled: false, ..old(self).shared }),
                ..*old(self)
            }),
    {
        self.shared.stopped = true;
        self.shared.enabled = false;
    }

    /// Hold live audio back by this much.
    pub fn request_live_delay(&mut self, delay_us: u64)
        ensures
            *final(self) == (AudioOutput { live_delay_us: delay_us, ..*old(self) }),
    {
        self.live_delay_us = delay_us;
    }

    /// How long live audio is held back.
    pub fn live_delay_us(&self) -> (r: u64)
        ensures
            r == self.live_delay_us,
    {
        self.live_delay_us
    }

    /// Fill a device buffer of some length from a ring that holds some samples.
    pub fn render(&mut self, length: u64, available: u64) -> (r: Rendering)
        ensures
            final(self).shared == rendering_of(old(self).shared, length, available).0,
            r == rendering_of(old(self).shared, length, available).1,
            final(self).sample_rate == old(self).sample_rate,
            final(self).channels == old(self).channels,
            final(self).live_delay_us == old(self).live_delay_us,
    {
        let discarded = smaller(length, smaller(self.shared.discard_samples, available));
        if discarded > 0 {
            self.shared.discard_samples = self.shared.discard_samples - discarded;
            self.shared.played_samples = counted(self.shared.played_samples, discarded);
            return Rendering { discarded, leading: 0, played: 0 };
        }
        if !self.shared.enabled {
            return Rendering { discarded: 0, leading: 0, played: 0 };
        }
        if !self.shared.prebuffered {
            let buffered = difference(self.shared.queued_samples, self.shared.played_samples);
            if buffered < self.shared.prebuffer_samples && !self.shared.decode_done {
                return Rendering { discarded: 0, leading: 0, played: 0 };
            }
            self.shared.prebuffered = true;
        }
        let leading = smaller(length, self.shared.leading_silence_samples);
        let played = smaller(length - leading, available);
        self.shared.leading_silence_samples = self.shared.leading_silence_samples - leading;
        self.shared.played_samples = counted(self.shared.played_samples, played);
        self.shared.rendered_samples = counted(self.shared.rendered_samples, length);
        Rendering { discarded: 0, leading, played }
    }
}

/// A paused or stopped output is not heard, and its clock stands still.
pub proof fn a_silenced_output_is_not_heard(shared: Shared, length: u64, available: u64)
    requires
        !shared.enabled,
    ensures
        rendering_of(shared, length, available).1.played == 0,
        rendering_of(shared, length, available).0.rendered_samples == shared.rendered_samples,
{
}

/// No buffer is overrun, and no more is taken from the ring than it holds.
pub proof fn a_rendering_fits_its_buffer(shared: Shared, length: u64, available: u64)
    ensures
        ({
            let rendering = rendering_of(shared, length, available).1;
            &&& rendering.leading + rendering.played <= length
            &&& rendering.discarded + rendering.played <= available
            &&& rendering.discarded <= shared.discard_samples
        }),
{
}

/// Samples that were flushed are dropped before anything is heard again.
pub proof fn flushed_samples_are_never_heard(shared: Shared, length: u64, available: u64)
    requires
        shared.discard_samples > 0,
        length > 0,
        available > 0,
    ensures
        rendering_of(shared, length, available).1.played == 0,
        rendering_of(shared, length, available).0.discard_samples < shared.discard_samples,
{
}

/// The media clock never goes back while more frames are rendered.
pub proof fn the_media_clock_follows_the_rendered_frames(
    origin_us: i64,
    fewer: u64,
    more: u64,
    sample_rate: u32,
    channels: u16,
)
    requires
        fewer <= more,
    ensures
        rendered_pts(origin_us, fewer, sample_rate, channels) <= rendered_pts(
            origin_us,
            more,
            sample_rate,
            channels,
        ),
{
    if sample_rate != 0 && channels != 0 {
        vstd::arithmetic::div_mod::lemma_div_is_ordered(fewer as int, more as int, channels as int);
        let a = unsigned_64(fewer as int / channels as int * 1_000_000) as int;
        let b = unsigned_64(more as int / channels as int * 1_000_000) as int;
        vstd::arithmetic::div_mod::lemma_div_is_ordered(a, b, sample_rate as int);
        vstd::arithmetic::div_mod::lemma_div_pos_is_pos(a, sample_rate as int);
        vstd::arithmetic::div_mod::lemma_div_nonincreasing(b, sample_rate as int);
    }
}

/// What a track says of its audio.
pub struct AudioSourceConfig {
    pub codec: String,
    pub sample_rate: u32,
    pub channels: u16,
    pub channel_mask: u64,
    pub bitrate: u64,
    pub extradata_length: usize,
}

/// Where the speakers of a stream stand.
#[derive(Clone, Copy, Debug, PartialEq, Eq, Structural)]
pub enum ChannelLayout {
    /// The usual places for a number of channels.
    Default(u16),
    /// The places of a mask.
    Mask(u64),
}

/// What FFmpeg is told to decode.
#[derive(Clone, Copy, Debug, PartialEq, Eq)]
pub struct AudioParameters {
    pub bit_rate: i64,
    pub extradata: Option<(u64, i32)>,
    pub sample_rate: i64,
    pub layout: ChannelLayout,
}

/// What FFmpeg is told for a track, or why it cannot be.
pub open spec fn audio_parameters_of(config: AudioSourceConfig) -> Result<
    AudioParameters,
    DecoderRefusal,
> {
    if has_nul(config.codec@) {
        Err(DecoderRefusal::CodecHasNul)
    } else {
        match extradata_of(config.extradata_length as nat) {
            Err(refusal) => Err(refusal),
            Ok(extradata) => Ok(
                AudioParameters {
                    bit_rate: capped(config.bitrate),
                    extradata,
                    sample_rate: config.sample_rate as i64,
                    layout: if config.channel_mask == 0 {
                        ChannelLayout::Default(config.channels)
                    } else {
                        ChannelLayout::Mask(config.channel_mask)
                    },
                },
            ),
        }
    }
}

/// What FFmpeg is told for a track.
pub fn audio_parameters(config: &AudioSourceConfig) -> (r: Result<AudioParameters, DecoderRefusal>)
    ensures
        r == audio_parameters_of(*config),
{
    if contains_nul(config.codec.as_str()) {
        return Err(DecoderRefusal::CodecHasNul);
    }
    match extradata_plan(config.extradata_length) {
        Err(refusal) => Err(refusal),
        Ok(extradata) => Ok(
            AudioParameters {
                bit_rate: cap(config.bitrate),
                extradata,
                sample_rate: config.sample_rate as i64,
                layout: if config.channel_mask == 0 {
                    ChannelLayout::Default(config.channels)
                } else {
                    ChannelLayout::Mask(config.channel_mask)
                },
            },
        ),
    }
}

/// How many output samples a trim of input samples is. Part of an output frame counts as a whole
/// one, so that a trim keeps channels aligned.
pub open spec fn converted_trim(
    input_samples: u32,
    input_rate: i32,
    output_rate: i32,
    output_channels: i32,
) -> int {
    if input_rate <= 0 || output_rate <= 0 || output_channels <= 0 {
        0
    } else {
        let frames = (input_samples * output_rate + input_rate - 1) / input_rate as int;
        let samples = unsigned_64(frames * output_channels);
        if samples <= usize::MAX {
            samples as int
        } else {
            usize::MAX as int
        }
    }
}

/// How many output samples a trim of input samples is.
pub fn converted_trim_samples(
    input_samples: u32,
    input_rate: i32,
    output_rate: i32,
    output_channels: i32,
) -> (r: usize)
    ensures
        r == converted_trim(input_samples, input_rate, output_rate, output_channels),
{
    if input_rate <= 0 || output_rate <= 0 || output_channels <= 0 {
        return 0;
    }
    assert(0 <= input_samples * output_rate <= 0xffff_ffff * 0x7fff_ffff) by (nonlinear_arith)
        requires
            0 <= input_samples <= 0xffff_ffff,
            0 < output_rate <= 0x7fff_ffff,
    ;
    let scaled: u64 = input_samples as u64 * output_rate as u64;
    let frames: u64 = (scaled + (input_rate as u64 - 1)) / input_rate as u64;
    let samples = product(frames, output_channels as u64);
    if samples <= usize::MAX as u64 {
        samples as usize
    } else {
        usize::MAX
    }
}

/// Take pending trims off both ends of what was decoded. A trim larger than what was decoded stays
/// pending for what comes.
pub fn trim_pending_samples<T>(samples: &mut Vec<T>, start: &mut usize, end: &mut usize)
    ensures
        ({
            let length = old(samples)@.len() as int;
            let front = if *old(start) <= length {
                *old(start) as int
            } else {
                length
            };
            let back = if *old(end) <= length - front {
                *old(end) as int
            } else {
                length - front
            };
            &&& final(samples)@ == old(samples)@.subrange(front, length - back)
            &&& *final(start) == *old(start) - front
            &&& *final(end) == *old(end) - back
        }),
{
    let length = samples.len();
    let front: usize = if *start <= length {
        *start
    } else {
        length
    };
    drop_front(samples, front);
    *start = *start - front;
    let rest = samples.len();
    let back: usize = if *end <= rest {
        *end
    } else {
        rest
    };
    samples.truncate(rest - back);
    *end = *end - back;
    assert(samples@ =~= old(samples)@.subrange(front as int, length - back));
}

/// A quotient without its part of a whole.
pub open spec fn toward_zero(dividend: int, divisor: int) -> int {
    let left = if dividend < 0 {
        -dividend
    } else {
        dividend
    };
    let right = if divisor < 0 {
        -divisor
    } else {
        divisor
    };
    if (dividend < 0) == (divisor < 0) {
        left / right
    } else {
        -(left / right)
    }
}

/// A number without its sign.
fn magnitude(number: i32) -> (r: u64)
    ensures
        r == (if number < 0 {
            -number
        } else {
            number as int
        }),
{
    if number < 0 {
        (-(number as i64)) as u64
    } else {
        number as u64
    }
}

/// The trims of an audio decoder, which outlive the packets that asked for them: a decoder may give
/// nothing for a packet until later ones arrive.
pub struct AudioTrim {
    pub input_rate: i32,
    pub output_rate: i32,
    pub output_channels: i32,
    pub pending_trim_start: usize,
    pub pending_trim_end: usize,
}

/// A sum, at most the largest size.
pub open spec fn size_sum(left: usize, right: int) -> usize {
    if left + right > usize::MAX {
        usize::MAX
    } else {
        (left + right) as usize
    }
}

impl AudioTrim {
    /// No trim is pending.
    pub fn new(input_rate: i32, output_rate: i32, output_channels: i32) -> (r: Self)
        ensures
            r == (AudioTrim {
                input_rate,
                output_rate,
                output_channels,
                pending_trim_start: 0,
                pending_trim_end: 0,
            }),
    {
        AudioTrim {
            input_rate,
            output_rate,
            output_channels,
            pending_trim_start: 0,
            pending_trim_end: 0,
        }
    }

    /// The decoder accepted a packet with these trims.
    pub fn accepted(&mut self, trim_start_samples: u32, trim_end_samples: u32)
        ensures
            *final(self) == (AudioTrim {
                pending_trim_start: size_sum(
                    old(self).pending_trim_start,
                    converted_trim(
                        trim_start_samples,
                        old(self).input_rate,
                        old(self).output_rate,
                        old(self).output_channels,
                    ),
                ),
                pending_trim_end: size_sum(
                    old(self).pending_trim_end,
                    converted_trim(
                        trim_end_samples,
                        old(self).input_rate,
                        old(self).output_rate,
                        old(self).output_channels,
                    ),
                ),
                ..*old(self)
            }),
    {
        let start = converted_trim_samples(
            trim_start_samples,
            self.input_rate,
            self.output_rate,
            self.output_channels,
        );
        let end = converted_trim_samples(
            trim_end_samples,
            self.input_rate,
            self.output_rate,
            self.output_channels,
        );
        self.pending_trim_start = self.pending_trim_start.saturating_add(start);
        self.pending_trim_end = self.pending_trim_end.saturating_add(end);
    }

    /// Take the pending trims off what was decoded.
    pub fn trim<T>(&mut self, samples: &mut Vec<T>)
        ensures
            ({
                let length = old(samples)@.len() as int;
                let front = if old(self).pending_trim_start <= length {
                    old(self).pending_trim_start as int
                } else {
                    length
                };
                let back = if old(self).pending_trim_end <= length - front {
                    old(self).pending_trim_end as int
                } else {
                    length - front
                };
                &&& final(samples)@ == old(samples)@.subrange(front, length - back)
                &&& *final(self) == (AudioTrim {
                    pending_trim_start: (old(self).pending_trim_start - front) as usize,
                    pending_trim_end: (old(self).pending_trim_end - back) as usize,
                    ..*old(self)
                })
            }),
    {
        let mut start = self.pending_trim_start;
        let mut end = self.pending_trim_end;
        trim_pending_samples(samples, &mut start, &mut end);
        self.pending_trim_start = start;
        self.pending_trim_end = end;
    }

    /// How many output frames to make room for when a decoded frame is resampled. A frame without
    /// samples is passed over.
    pub fn resample_capacity(&self, frame_samples: i32) -> (r: Option<i32>)
        requires
            self.input_rate != 0,
        ensures
            r == (if frame_samples <= 0 {
                None
            } else {
                let frames = toward_zero(
                    frame_samples * self.output_rate,
                    self.input_rate as int,
                ) + 256;
                Some(
                    if frames < 1 {
                        1i32
                    } else if frames <= i32::MAX {
                        frames as i32
                    } else {
                        i32::MAX
                    },
                )
            }),
    {
        if frame_samples <= 0 {
            return None;
        }
        let input_rate = magnitude(self.input_rate);
        let output_rate = magnitude(self.output_rate);
        assert(0 <= frame_samples * output_rate <= 0x7fff_ffff * 0x8000_0000) by (nonlinear_arith)
            requires
                0 < frame_samples <= 0x7fff_ffff,
                0 <= output_rate <= 0x8000_0000,
        ;
        let scaled: u64 = frame_samples as u64 * output_rate;
        let quotient: u64 = scaled / input_rate;
        proof {
            assert(0 <= quotient <= scaled) by (nonlinear_arith)
                requires
                    quotient == scaled / input_rate,
                    0 <= scaled,
                    input_rate > 0,
            ;
            let product = frame_samples * self.output_rate;
            assert(frame_samples * (-self.output_rate) == -product) by (nonlinear_arith)
                requires
                    product == frame_samples * self.output_rate,
            ;
            assert(self.output_rate >= 0 ==> product >= 0) by (nonlinear_arith)
                requires
                    product == frame_samples * self.output_rate,
                    0 < frame_samples,
            ;
            assert(self.output_rate < 0 ==> product < 0) by (nonlinear_arith)
                requires
                    product == frame_samples * self.output_rate,
                    0 < frame_samples,
            ;
        }
        if (self.output_rate < 0) == (self.input_rate < 0) {
            let frames: u64 = quotient + 256;
            if frames <= i32::MAX as u64 {
                Some(frames as i32)
            } else {
                Some(i32::MAX)
            }
        } else if quotient < 256 {
            Some((256 - quotient) as i32)
        } else {
            Some(1)
        }
    }
}

/// A packet is cut at its media time. What comes before the requested start is dropped from its
/// front and the rest is kept: of a packet that the start falls into, a sample is dropped only if
/// it begins before the start, and kept only if it ends after it. A packet that is over by the
/// start is dropped whole, and one that is not before the start is kept whole.
pub proof fn a_packet_is_cut_at_the_start<T>(
    output: &AudioOutput,
    pts_us: i64,
    duration_us: u64,
    samples: &mut Vec<T>,
    k: int,
)
    requires
        call_ensures(
            AudioOutput::trim_before_start::<T>,
            (output, pts_us, duration_us, samples),
            (),
        ),
        0 <= k < old(samples)@.len(),
    ensures
        ({
            let start = output.shared.requested_start_pts_us;
            let dropped = old(samples)@.len() - final(samples)@.len();
            let samples_per_second = output.sample_rate * output.channels;
            &&& dropped >= 0
            &&& final(samples)@ == old(samples)@.skip(dropped)
            &&& start == UNSET_PTS || start <= pts_us ==> dropped == 0
            &&& start != UNSET_PTS && pts_us < start && (duration_us == 0 || pts_us + duration_us
                <= start) ==> final(samples)@.len() == 0
            &&& start != UNSET_PTS && pts_us < start < pts_us + duration_us <= i64::MAX
                && duration_us <= i64::MAX && samples_per_second * (start - pts_us) <= u64::MAX ==> {
                &&& k < dropped ==> k * 1_000_000 < samples_per_second * (start - pts_us)
                &&& k >= dropped ==> (k + 1) * 1_000_000 > samples_per_second * (start - pts_us)
            }
        }),
{
    let start = output.shared.requested_start_pts_us;
    let length = old(samples)@.len();
    let dropped = before_start(*output, pts_us, duration_us, length);
    let rate = output.sample_rate * output.channels;
    assert(0 <= rate <= 0xffff_ffff * 0xffff) by (nonlinear_arith)
        requires
            rate == output.sample_rate * output.channels,
            0 <= output.sample_rate <= 0xffff_ffff,
            0 <= output.channels <= 0xffff,
    ;
    if start != UNSET_PTS && pts_us < start < pts_us + duration_us <= i64::MAX && duration_us
        <= i64::MAX && rate * (start - pts_us) <= u64::MAX {
        assert(start - pts_us <= i64::MAX);
        let gap = start - pts_us;
        assert(rate * gap >= 0) by (nonlinear_arith)
            requires
                rate >= 0,
                gap >= 0,
        ;
        let whole = samples_in(output.sample_rate, output.channels, gap as u64);
        assert(whole == rate * gap / 1_000_000);
        if k < dropped {
            assert(k < whole);
        } else {
            assert(k >= whole);
        }
    }
}

/// The nearer the start is to the time of a packet, the less of the packet is dropped.
pub proof fn a_later_start_drops_no_less(
    output: AudioOutput,
    later_start_us: i64,
    pts_us: i64,
    duration_us: u64,
    length: nat,
)
    requires
        output.shared.requested_start_pts_us != UNSET_PTS,
        later_start_us != UNSET_PTS,
        output.shared.requested_start_pts_us <= later_start_us,
    ensures
        before_start(output, pts_us, duration_us, length) <= before_start(
            AudioOutput {
                shared: Shared { requested_start_pts_us: later_start_us, ..output.shared },
                ..output
            },
            pts_us,
            duration_us,
            length,
        ),
{
    let start = output.shared.requested_start_pts_us;
    if start > pts_us {
        let nearer = signed_64(start - pts_us);
        let farther = signed_64(later_start_us - pts_us);
        let rate = unsigned_64(output.sample_rate * output.channels) as int;
        assert(rate * nearer <= rate * farther) by (nonlinear_arith)
            requires
                0 <= rate,
                nearer <= farther,
        ;
        vstd::arithmetic::div_mod::lemma_div_is_ordered(
            unsigned_64(rate * nearer) as int,
            unsigned_64(rate * farther) as int,
            1_000_000,
        );
    }
}

/// The silence in front of the first sample is as long as the first sample is late, to within one
/// frame, and is made of whole frames. Sound that is not late gets none.
pub proof fn leading_silence_lasts_until_the_first_sample(
    timeline_origin_us: i64,
    audio_origin_us: i64,
    sample_rate: u32,
    channels: u16,
    r: u64,
)
    requires
        call_ensures(
            leading_silence_sample_count,
            (timeline_origin_us, audio_origin_us, sample_rate, channels),
            r,
        ),
        channels > 0,
        audio_origin_us - timeline_origin_us <= i64::MAX,
        (audio_origin_us - timeline_origin_us) * sample_rate <= u64::MAX,
    ensures
        r as int % channels as int == 0,
        audio_origin_us <= timeline_origin_us ==> r == 0,
        audio_origin_us > timeline_origin_us ==> {
            let frames = r as int / channels as int;
            &&& frames * 1_000_000 <= (audio_origin_us - timeline_origin_us) * sample_rate
            &&& (audio_origin_us - timeline_origin_us) * sample_rate < (frames + 1) * 1_000_000
        },
{
    let gap = audio_origin_us - timeline_origin_us;
    let positive = if gap < 0 {
        0
    } else {
        gap
    };
    assert(0 <= positive * sample_rate <= u64::MAX) by (nonlinear_arith)
        requires
            positive == 0 || positive == gap,
            positive >= 0,
            gap * sample_rate <= u64::MAX,
            sample_rate >= 0,
    ;
    let frames = positive * sample_rate / 1_000_000;
    assert(r == frames * channels);
    vstd::arithmetic::div_mod::lemma_fundamental_div_mod_converse(
        r as int,
        channels as int,
        frames,
        0,
    );
    if gap <= 0 {
        assert(positive * sample_rate == 0 && 0 * channels == 0) by (nonlinear_arith)
            requires
                positive == 0,
        ;
    }
}

/// The media clock is the origin and the time that the rendered frames take, to within a
/// microsecond.
pub proof fn the_media_clock_counts_the_frames(
    origin_us: i64,
    samples: u64,
    sample_rate: u32,
    channels: u16,
    r: i64,
)
    requires
        call_ensures(rendered_pts_us, (origin_us, samples, sample_rate, channels), r),
        sample_rate > 0,
        channels > 0,
        samples as int / channels as int * 1_000_000 <= i64::MAX,
        r < i64::MAX,
    ensures
        origin_us <= r,
        (r - origin_us) * sample_rate <= samples as int / channels as int * 1_000_000,
        samples as int / channels as int * 1_000_000 < (r - origin_us + 1) * sample_rate,
{
    let elapsed = samples as int / channels as int * 1_000_000;
    vstd::arithmetic::div_mod::lemma_div_pos_is_pos(samples as int, channels as int);
    vstd::arithmetic::div_mod::lemma_div_pos_is_pos(elapsed, sample_rate as int);
    vstd::arithmetic::div_mod::lemma_div_nonincreasing(elapsed, sample_rate as int);
    vstd::arithmetic::div_mod::lemma_fundamental_div_mod(elapsed, sample_rate as int);
    vstd::arithmetic::div_mod::lemma_mod_bound(elapsed, sample_rate as int);
    let time = elapsed / sample_rate as int;
    assert(r - origin_us == time);
    assert(sample_rate * time == time * sample_rate) by (nonlinear_arith);
    assert((time + 1) * sample_rate == time * sample_rate + sample_rate) by (nonlinear_arith);
}

/// What one device callback does. What was flushed is dropped first, as much of it as there is,
/// and while any of it is dropped nothing is heard. Otherwise the device is heard if it may be and
/// enough is buffered: first the silence that is owed, then the ring, until the buffer is full or
/// the ring is empty. The clock moves by what was asked for, and only while the device is heard.
/// Every sample that leaves the ring is counted.
pub proof fn a_callback_drops_then_waits_then_plays(
    output: &mut AudioOutput,
    length: u64,
    available: u64,
    r: Rendering,
)
    requires
        call_ensures(AudioOutput::render, (output, length, available), r),
    ensures
        ({
            let before = old(output).shared;
            let after = final(output).shared;
            let ready = before.prebuffered || before.decode_done || before.queued_samples
                - before.played_samples >= before.prebuffer_samples || before.prebuffer_samples == 0;
            let heard = r.discarded == 0 && before.enabled && ready;
            &&& r.discarded <= length && r.discarded <= available && r.discarded
                <= before.discard_samples
            &&& r.discarded == length || r.discarded == available || r.discarded
                == before.discard_samples
            &&& after.discard_samples + r.discarded == before.discard_samples
            &&& after.played_samples == wrapped_64(
                before.played_samples + r.discarded + r.played,
            )
            &&& after.leading_silence_samples + r.leading == before.leading_silence_samples
            &&& !heard ==> r.leading == 0 && r.played == 0 && after.rendered_samples
                == before.rendered_samples && after.prebuffered == before.prebuffered
            &&& heard ==> {
                &&& after.prebuffered
                &&& after.rendered_samples == wrapped_64(before.rendered_samples + length)
                &&& r.leading + r.played <= length
                &&& r.played > 0 ==> after.leading_silence_samples == 0
                &&& r.leading < length ==> after.leading_silence_samples == 0
                &&& r.leading + r.played < length ==> r.played == available
            }
            &&& after.enabled == before.enabled && after.stopped == before.stopped
                && after.decode_done == before.decode_done && after.queued_samples
                == before.queued_samples && after.timeline_origin_us == before.timeline_origin_us
        }),
{
}

/// The origin of a timeline is the earliest time that was seen of it. A time that was asked for
/// stays the origin, whatever is seen.
pub proof fn the_origin_is_the_earliest_time(output: &mut AudioOutput, pts_us: i64)
    requires
        call_ensures(AudioOutput::observe_timeline_pts, (output, pts_us), ()),
    ensures
        ({
            let before = old(output).shared;
            let after = final(output).shared;
            &&& before.requested_start_pts_us != UNSET_PTS || pts_us == UNSET_PTS ==> after == before
            &&& before.requested_start_pts_us == UNSET_PTS && pts_us != UNSET_PTS ==> {
                &&& after.timeline_origin_us != UNSET_PTS
                &&& after.timeline_origin_us <= pts_us
                &&& after.timeline_origin_us == pts_us || after.timeline_origin_us
                    == before.timeline_origin_us
                &&& before.timeline_origin_us != UNSET_PTS ==> after.timeline_origin_us
                    <= before.timeline_origin_us
            }
            &&& after.rendered_samples == before.rendered_samples
            &&& after.first_audio_pts_us == before.first_audio_pts_us
        }),
{
}

/// The first time that is seen of the audio is kept, and no later one.
pub proof fn the_first_time_of_the_audio_is_kept(output: &mut AudioOutput, pts_us: i64)
    requires
        call_ensures(AudioOutput::observe_audio_pts, (output, pts_us), ()),
    ensures
        old(output).shared.first_audio_pts_us == UNSET_PTS ==> final(output).shared.first_audio_pts_us == pts_us,
        old(output).shared.first_audio_pts_us != UNSET_PTS ==> final(output).shared.first_audio_pts_us == old(output).shared.first_audio_pts_us,
        old(output).shared.requested_start_pts_us == UNSET_PTS && pts_us != UNSET_PTS ==> final(output).shared.timeline_origin_us <= pts_us,
{
}

/// Nothing of a play that was just configured is heard until as much is buffered as was asked for
/// or everything was decoded.
pub proof fn a_configured_play_waits_for_its_buffer(
    output: &mut AudioOutput,
    start_pts_us: i64,
    minimum_buffer_us: u64,
    now_us: u64,
    next: &mut AudioOutput,
    length: u64,
    available: u64,
    r: Rendering,
)
    requires
        call_ensures(
            AudioOutput::configure_play,
            (output, start_pts_us, minimum_buffer_us, now_us),
            (),
        ),
        *final(output) == *old(next),
        call_ensures(AudioOutput::render, (next, length, available), r),
        old(output).sample_rate * old(output).channels * minimum_buffer_us <= u64::MAX,
        old(output).shared.played_samples <= old(output).shared.queued_samples,
    ensures
        old(next).shared.timeline_origin_us == start_pts_us,
        old(next).shared.requested_start_pts_us == start_pts_us,
        old(next).shared.play_configured_at_us == Some(now_us),
        old(next).shared.enabled == old(output).shared.enabled,
        !old(output).shared.decode_done && (old(output).shared.queued_samples - old(output).shared.played_samples + 1) * 1_000_000 <= old(output).sample_rate * old(output).channels
            * minimum_buffer_us ==> r.played == 0 && final(next).shared.rendered_samples == old(output).shared.rendered_samples,
{
    let sample_rate: u32 = old(output).sample_rate;
    let channels: u16 = old(output).channels;
    let rate = sample_rate * channels;
    assert(0 <= rate <= 0xffff_ffff * 0xffff) by (nonlinear_arith)
        requires
            rate == sample_rate * channels,
            0 <= sample_rate <= 0xffff_ffff,
            0 <= channels <= 0xffff,
    ;
    assert(rate * minimum_buffer_us >= 0) by (nonlinear_arith)
        requires
            rate >= 0,
            minimum_buffer_us >= 0,
    ;
    assert(old(next).shared.prebuffer_samples == rate * minimum_buffer_us / 1_000_000);
}

/// What a flush leaves in the ring is dropped, and nothing of it is ever heard: the callbacks that
/// follow drop as much as was queued and not played, before anything else, and the clock has no
/// origin until a new time is seen.
pub proof fn a_flush_forgets_what_was_queued(output: &mut AudioOutput)
    requires
        call_ensures(AudioOutput::flush, (output,), ()),
        old(output).shared.played_samples <= old(output).shared.queued_samples,
    ensures
        ({
            let before = old(output).shared;
            let after = final(output).shared;
            &&& after.discard_samples + before.played_samples == before.queued_samples
            &&& after.queued_samples == before.queued_samples
            &&& after.played_samples == before.played_samples
            &&& !after.enabled && !after.prebuffered && !after.decode_done && !after.eos_observed
                && !after.received_samples
            &&& after.rendered_samples == 0 && after.leading_silence_samples == 0
            &&& after.timeline_origin_us == UNSET_PTS && after.first_audio_pts_us == UNSET_PTS
                && after.requested_start_pts_us == UNSET_PTS
            &&& after.play_configured_at_us is None
            &&& after.stopped == before.stopped
        }),
{
}

/// An output that was stopped stays silent whatever is rendered, and takes no more samples.
pub proof fn a_stopped_output_is_silent_and_takes_nothing(
    output: &mut AudioOutput,
    next: &mut AudioOutput,
    length: u64,
    available: u64,
    r: Rendering,
    step: PushStep,
)
    requires
        call_ensures(AudioOutput::stop, (output,), ()),
        *final(output) == *old(next),
        call_ensures(AudioOutput::render, (next, length, available), r),
        call_ensures(AudioOutput::push_step, (&*final(output),), step),
    ensures
        step is Stopped,
        r.played == 0,
        r.leading == 0,
        final(next).shared.rendered_samples == old(output).shared.rendered_samples,
        final(next).shared.stopped,
{
}

/// A pause keeps everything that was buffered, and a start takes it up where it was: the two
/// undo each other on an output that was playing.
pub proof fn a_start_takes_up_what_a_pause_left(output: &mut AudioOutput, next: &mut AudioOutput)
    requires
        call_ensures(AudioOutput::pause, (output,), ()),
        *final(output) == *old(next),
        call_ensures(AudioOutput::start, (next,), ()),
    ensures
        !final(output).shared.enabled,
        final(next).shared.enabled,
        old(output).shared.enabled ==> *final(next) == *old(output),
{
}

/// Media time is reached on a device that is heard, in the order of the times: where a time is
/// reached, so is every earlier one. Nothing is reached while the device is silent, before enough
/// is buffered, or before the timeline has an origin; and the origin is reached once it has.
pub proof fn media_time_is_reached_in_order(
    output: &AudioOutput,
    earlier_us: i64,
    later_us: i64,
    earlier: bool,
    later: bool,
)
    requires
        earlier_us <= later_us,
        call_ensures(AudioOutput::pts_reached, (output, earlier_us), earlier),
        call_ensures(AudioOutput::pts_reached, (output, later_us), later),
    ensures
        later ==> earlier,
        later ==> output.shared.enabled && output.shared.prebuffered
            && output.shared.timeline_origin_us != UNSET_PTS,
        output.shared.enabled && output.shared.prebuffered && output.shared.timeline_origin_us
            != UNSET_PTS && later_us <= output.shared.timeline_origin_us ==> later,
        later && later_us > output.shared.timeline_origin_us ==> output.shared.rendered_samples > 0,
{
    let rate = output.sample_rate as int;
    let channels = output.channels as int;
    if rate != 0 && channels != 0 {
        let samples = output.shared.rendered_samples as int;
        vstd::arithmetic::div_mod::lemma_div_pos_is_pos(samples, channels);
        let scaled = unsigned_64(samples / channels * 1_000_000) as int;
        vstd::arithmetic::div_mod::lemma_div_pos_is_pos(scaled, rate);
        vstd::arithmetic::div_mod::lemma_div_nonincreasing(scaled, rate);
        if samples == 0 {
            vstd::arithmetic::div_mod::lemma_basic_div(0, channels);
            vstd::arithmetic::div_mod::lemma_basic_div(0, rate);
        }
    }
}

/// Video stops waiting for its sound only where no sound came for longer than the fallback since
/// play was configured, and from then on it keeps on not waiting.
pub proof fn video_waits_for_sound_no_longer_than_the_fallback(
    output: &AudioOutput,
    earlier_us: u64,
    later_us: u64,
    earlier: bool,
    later: bool,
)
    requires
        earlier_us <= later_us,
        call_ensures(AudioOutput::video_gate_stalled, (output, earlier_us), earlier),
        call_ensures(AudioOutput::video_gate_stalled, (output, later_us), later),
    ensures
        earlier ==> later,
        later ==> output.shared.enabled && !output.shared.prebuffered
            && !output.shared.received_samples,
        later ==> (output.shared.play_configured_at_us matches Some(configured_us) && later_us
            > configured_us + LINKED_AUDIO_STALL_FALLBACK_US),
        output.shared.enabled && !output.shared.prebuffered && !output.shared.received_samples
            && (output.shared.play_configured_at_us matches Some(configured_us) && configured_us
            + LINKED_AUDIO_STALL_FALLBACK_US < later_us) ==> later,
{
}

/// An output is drained where the stream has ended, everything was decoded and everything queued
/// was played. While a sample is still to be heard it is not.
pub proof fn an_output_is_drained_when_all_was_heard(output: &AudioOutput, r: Drained)
    requires
        call_ensures(AudioOutput::wait_drained, (output,), r),
    ensures
        r is Done <==> output.shared.eos_observed && output.shared.decode_done
            && output.shared.queued_samples <= output.shared.played_samples,
        output.shared.played_samples < output.shared.queued_samples ==> !(r is Done),
        !(r is Done) && output.shared.stopped <==> r is Stopped,
        r is Failed ==> output.shared.error is Some,
        r is Waiting ==> output.shared.error is None && !output.shared.stopped,
{
}

/// A fresh output asks for a buffer of the set length before it is heard, and has heard nothing.
pub proof fn a_fresh_output_buffers_first(sample_rate: u32, channels: u16, r: AudioOutput)
    requires
        call_ensures(AudioOutput::open, (sample_rate, channels), r),
    ensures
        r.sample_rate == sample_rate && r.channels == channels,
        r.shared.prebuffer_samples * 1_000 <= sample_rate * channels * 100,
        sample_rate * channels * 100 < (r.shared.prebuffer_samples + 1) * 1_000,
        !r.shared.enabled && !r.shared.prebuffered,
        r.shared.queued_samples == 0 && r.shared.played_samples == 0 && r.shared.rendered_samples
            == 0,
{
    let rate = sample_rate * channels;
    assert(0 <= rate <= 0xffff_ffff * 0xffff) by (nonlinear_arith)
        requires
            rate == sample_rate * channels,
            0 <= sample_rate <= 0xffff_ffff,
            0 <= channels <= 0xffff,
    ;
}

/// A trim of input samples covers at least as long in output samples, by less than one output
/// frame more, and takes whole frames.
pub proof fn a_converted_trim_covers_what_was_asked(
    input_samples: u32,
    input_rate: i32,
    output_rate: i32,
    output_channels: i32,
    r: usize,
)
    requires
        call_ensures(
            converted_trim_samples,
            (input_samples, input_rate, output_rate, output_channels),
            r,
        ),
        input_rate > 0,
        output_rate > 0,
        output_channels > 0,
        r < usize::MAX,
    ensures
        r as int % output_channels as int == 0,
        ({
            let frames = r as int / output_channels as int;
            &&& frames * input_rate >= input_samples * output_rate
            &&& (frames - 1) * input_rate < input_samples * output_rate
        }),
{
    let scaled = input_samples * output_rate;
    assert(scaled >= 0) by (nonlinear_arith)
        requires
            scaled == input_samples * output_rate,
            input_samples >= 0,
            output_rate > 0,
    ;
    let frames = (scaled + input_rate - 1) / input_rate as int;
    vstd::arithmetic::div_mod::lemma_div_pos_is_pos(scaled + input_rate - 1, input_rate as int);
    vstd::arithmetic::div_mod::lemma_fundamental_div_mod(scaled + input_rate - 1, input_rate as int);
    vstd::arithmetic::div_mod::lemma_mod_bound(scaled + input_rate - 1, input_rate as int);
    assert(frames * output_channels >= 0) by (nonlinear_arith)
        requires
            frames >= 0,
            output_channels > 0,
    ;
    assert(r == frames * output_channels);
    vstd::arithmetic::div_mod::lemma_fundamental_div_mod_converse(
        r as int,
        output_channels as int,
        frames,
        0,
    );
    assert(input_rate * frames == frames * input_rate) by (nonlinear_arith);
    assert((frames - 1) * input_rate == frames * input_rate - input_rate) by (nonlinear_arith);
}

/// A trim at the start takes samples off the front and one at the end off the back. What it takes
/// no longer stays pending, and anything is kept only where no trim stays pending at the start.
pub proof fn a_trim_takes_from_its_own_end<T>(trim: &mut AudioTrim, samples: &mut Vec<T>)
    requires
        call_ensures(AudioTrim::trim::<T>, (trim, samples), ()),
    ensures
        ({
            let front = old(trim).pending_trim_start - final(trim).pending_trim_start;
            let back = old(trim).pending_trim_end - final(trim).pending_trim_end;
            &&& front >= 0 && back >= 0
            &&& front + back + final(samples)@.len() == old(samples)@.len()
            &&& forall|i: int|
                0 <= i < final(samples)@.len() ==> #[trigger] final(samples)@[i] == old(samples)@[front + i]
            &&& final(samples)@.len() > 0 ==> final(trim).pending_trim_start == 0 && final(trim).pending_trim_end == 0
        }),
{
}

/// The two trims of a packet are added each to what is pending at its own end.
pub proof fn the_trims_of_a_packet_stay_apart(
    trim: &mut AudioTrim,
    trim_start_samples: u32,
    trim_end_samples: u32,
)
    requires
        call_ensures(AudioTrim::accepted, (trim, trim_start_samples, trim_end_samples), ()),
    ensures
        final(trim).pending_trim_start >= old(trim).pending_trim_start,
        final(trim).pending_trim_end >= old(trim).pending_trim_end,
        trim_start_samples == 0 ==> final(trim).pending_trim_start == old(trim).pending_trim_start,
        trim_end_samples == 0 ==> final(trim).pending_trim_end == old(trim).pending_trim_end,
        old(trim).input_rate > 0 && old(trim).output_rate > 0 && old(trim).output_channels > 0
            && trim_start_samples > 0 && old(trim).pending_trim_start < usize::MAX ==> final(trim).pending_trim_start > old(trim).pending_trim_start,
        old(trim).input_rate > 0 && old(trim).output_rate > 0 && old(trim).output_channels > 0
            && trim_end_samples > 0 && old(trim).pending_trim_end < usize::MAX ==> final(trim).pending_trim_end > old(trim).pending_trim_end,
{
    lemma_converted_trim_signs(
        trim_start_samples,
        old(trim).input_rate,
        old(trim).output_rate,
        old(trim).output_channels,
    );
    lemma_converted_trim_signs(
        trim_end_samples,
        old(trim).input_rate,
        old(trim).output_rate,
        old(trim).output_channels,
    );
}

proof fn lemma_converted_trim_signs(
    input_samples: u32,
    input_rate: i32,
    output_rate: i32,
    output_channels: i32,
)
    ensures
        ({
            let trim = converted_trim(input_samples, input_rate, output_rate, output_channels);
            &&& trim >= 0
            &&& input_samples == 0 ==> trim == 0
            &&& input_samples > 0 && input_rate > 0 && output_rate > 0 && output_channels > 0
                ==> trim > 0
        }),
{
    if input_rate > 0 && output_rate > 0 && output_channels > 0 {
        let scaled = input_samples * output_rate;
        assert(scaled >= 0 && (input_samples > 0 ==> scaled > 0) && (input_samples == 0 ==> scaled
            == 0)) by (nonlinear_arith)
            requires
                scaled == input_samples * output_rate,
                input_samples >= 0,
                output_rate > 0,
        ;
        let frames = (scaled + input_rate - 1) / input_rate as int;
        vstd::arithmetic::div_mod::lemma_div_pos_is_pos(scaled + input_rate - 1, input_rate as int);
        if input_samples == 0 {
            vstd::arithmetic::div_mod::lemma_basic_div(input_rate - 1, input_rate as int);
        } else {
            vstd::arithmetic::div_mod::lemma_div_is_ordered(
                input_rate as int,
                scaled + input_rate - 1,
                input_rate as int,
            );
            vstd::arithmetic::div_mod::lemma_div_by_self(input_rate as int);
        }
        assert(frames * output_channels >= frames) by (nonlinear_arith)
            requires
                frames >= 0,
                output_channels > 0,
        ;
        assert(frames == 0 ==> frames * output_channels == 0) by (nonlinear_arith);
    }
}

/// The room made for a resampled frame holds at least what the frame has at the output rate.
pub proof fn a_resampled_frame_fits_its_room(trim: &AudioTrim, frame_samples: i32, r: Option<i32>)
    requires
        call_ensures(AudioTrim::resample_capacity, (trim, frame_samples), r),
        trim.input_rate > 0,
        trim.output_rate > 0,
    ensures
        r is Some <==> frame_samples > 0,
        r matches Some(room) ==> {
            &&& room >= 1
            &&& room < i32::MAX ==> room * trim.input_rate > frame_samples * trim.output_rate
            &&& room < i32::MAX ==> (room - 256) * trim.input_rate <= frame_samples * trim.output_rate
        },
{
    if frame_samples > 0 {
        let scaled = frame_samples * trim.output_rate;
        assert(scaled > 0) by (nonlinear_arith)
            requires
                scaled == frame_samples * trim.output_rate,
                frame_samples > 0,
                trim.output_rate > 0,
        ;
        let quotient = scaled / trim.input_rate as int;
        vstd::arithmetic::div_mod::lemma_div_pos_is_pos(scaled, trim.input_rate as int);
        vstd::arithmetic::div_mod::lemma_fundamental_div_mod(scaled, trim.input_rate as int);
        vstd::arithmetic::div_mod::lemma_mod_bound(scaled, trim.input_rate as int);
        assert((quotient + 256) * trim.input_rate > scaled && quotient * trim.input_rate <= scaled)
            by (nonlinear_arith)
            requires
                scaled < trim.input_rate * quotient + trim.input_rate,
                scaled >= trim.input_rate * quotient,
                trim.input_rate > 0,
        ;
    }
}

/// A ring holds whole frames, for the set number of seconds.
pub proof fn a_ring_holds_whole_seconds(sample_rate: u32, channels: u16, r: u64)
    requires
        call_ensures(ring_capacity, (sample_rate, channels), r),
    ensures
        r >= 1,
        sample_rate > 0 && channels > 0 ==> r == sample_rate * RING_BUFFER_SECONDS * channels,
{
    if sample_rate > 0 && channels > 0 {
        assert(sample_rate * channels * RING_BUFFER_SECONDS == sample_rate * RING_BUFFER_SECONDS
            * channels) by (nonlinear_arith);
        assert(sample_rate * channels >= 1) by (nonlinear_arith)
            requires
                sample_rate > 0,
                channels > 0,
        ;
    }
}

/// A decoder is set up for the rate and the speakers that the track declares; the usual places are
/// taken only where the track names none.
pub proof fn a_sound_decoder_is_set_up_as_the_track_declares(
    config: &AudioSourceConfig,
    r: Result<AudioParameters, DecoderRefusal>,
)
    requires
        call_ensures(audio_parameters, (config,), r),
    ensures
        r matches Ok(parameters) ==> {
            &&& parameters.sample_rate == config.sample_rate
            &&& config.bitrate <= i64::MAX ==> parameters.bit_rate == config.bitrate
            &&& config.channel_mask != 0 ==> parameters.layout == ChannelLayout::Mask(
                config.channel_mask,
            )
            &&& config.channel_mask == 0 ==> parameters.layout == ChannelLayout::Default(
                config.channels,
            )
            &&& parameters.extradata is None <==> config.extradata_length == 0
            &&& parameters.extradata matches Some(extradata) ==> extradata.1
                == config.extradata_length && extradata.0 > extradata.1
        },
        r is Err <==> (has_nul(config.codec@) || config.extradata_length > i32::MAX
            || config.extradata_length + crate::decoder::INPUT_BUFFER_PADDING > usize::MAX),
{
}

/// The first error is the one that is told, whatever follows.
pub proof fn the_first_error_is_told(
    first: &mut Shared,
    message: String,
    second: &mut Shared,
    later: String,
    r: Option<String>,
)
    requires
        old(first).error is None,
        call_ensures(Shared::set_error, (first, message), ()),
        *old(second) == *final(first),
        call_ensures(Shared::set_error, (second, later), ()),
        call_ensures(Shared::error, (&*final(second),), r),
    ensures
        r is Some && r->0@ == message@,
{
}

/// What is cut from both ends leaves the middle, and what could not be cut yet is still to be cut.
pub proof fn what_is_cut_from_both_ends_leaves_the_middle(
    samples: &mut Vec<i16>,
    start: &mut usize,
    end: &mut usize,
)
    requires
        call_ensures(trim_pending_samples::<i16>, (samples, start, end), ()),
    ensures
        *old(start) + *old(end) <= old(samples)@.len() ==> final(samples)@ == old(samples)@.subrange(
            *old(start) as int,
            old(samples)@.len() - *old(end),
        ) && *final(start) == 0 && *final(end) == 0,
        old(samples)@.len() - final(samples)@.len() == (*old(start) - *final(start)) + (*old(end)
            - *final(end)),
        *final(start) > 0 ==> final(samples)@.len() == 0,
        *final(end) > 0 ==> final(samples)@.len() == 0,
{
}

} // verus!
