//! Keeping live sound and picture together.
//!
//! Both are stamped on one capture clock, but video queues behind itself in the transport. Sound is
//! held back by what video arrives late by, and given back once video has been early for a while.

use vstd::prelude::*;

use crate::number::{difference, positive_part, signed_64, signed_difference, signed_sum, sum};
use crate::number::unsigned_64;

verus! {

/// How long video has to be early before the delay is reviewed.
pub const LIVE_DELAY_REVIEW_US: u64 = 5_000_000;

/// What a review leaves to absorb jitter.
pub const LIVE_DELAY_HEADROOM_US: i64 = 100_000;

/// A step in the audio timeline that is more than jitter.
pub const AUDIO_GAP_US: i64 = 60_000;

/// How far apart key frames are asked for because of lateness.
pub const LATENCY_KEYFRAME_INTERVAL_US: u64 = 2_000_000;

/// The longest single sleep of a track that is being paced.
pub const MAXIMUM_PACING_SLEEP_US: u64 = 50_000;

/// How often linked audio is looked at again.
pub const LINKED_AUDIO_RECHECK_US: u64 = 20_000;

/// The shortest wait for linked audio.
pub const MINIMUM_LINKED_AUDIO_WAIT_US: u64 = 1_000;

/// The part of a number that is negative, as a positive number that fits.
pub open spec fn shortfall(headroom_us: i64) -> int {
    if headroom_us >= 0 {
        0
    } else if headroom_us == i64::MIN {
        i64::MAX as int
    } else {
        -headroom_us
    }
}

/// The delay after video arrived this far ahead of the audio clock. The clock is already held back
/// by the delay in force, so what video was behind by is exactly what has to be added.
pub fn grown_live_delay_us(current_us: u64, headroom_us: i64) -> (r: u64)
    ensures
        r == unsigned_64(current_us + shortfall(headroom_us)),
{
    let behind = positive_part(signed_difference(0, headroom_us));
    sum(current_us, behind)
}

/// The delay after a review in which video was never late. Only what exceeds the headroom is given
/// back.
pub open spec fn given_back(least_headroom_us: i64) -> int {
    if least_headroom_us <= LIVE_DELAY_HEADROOM_US {
        0
    } else {
        least_headroom_us - LIVE_DELAY_HEADROOM_US
    }
}

/// The delay after a review in which video was never late.
pub fn shrunk_live_delay_us(current_us: u64, least_headroom_us: i64) -> (r: u64)
    ensures
        r == unsigned_64(current_us - given_back(least_headroom_us)),
{
    let spare = positive_part(signed_difference(least_headroom_us, LIVE_DELAY_HEADROOM_US));
    difference(current_us, spare)
}

/// What a step in the live audio timeline means.
#[derive(Debug, Clone, Copy, PartialEq, Eq, Structural)]
pub enum AudioTimelineStep {
    /// Where the previous packet ended, within jitter.
    Continuous,
    /// The producer dropped this much of the timeline: silence keeps the clock aligned.
    Gap(u64),
    /// The producer's clock went back, which a timeline cannot express.
    Restart,
}

/// What a step in the audio timeline means.
pub open spec fn audio_step(expected_pts_us: Option<i64>, pts_us: i64, live: bool) -> AudioTimelineStep {
    match expected_pts_us {
        Some(expected) => {
            let step = signed_64(pts_us - expected);
            if !live {
                AudioTimelineStep::Continuous
            } else if step >= AUDIO_GAP_US {
                AudioTimelineStep::Gap(step as u64)
            } else if step <= -AUDIO_GAP_US {
                AudioTimelineStep::Restart
            } else {
                AudioTimelineStep::Continuous
            }
        },
        None => AudioTimelineStep::Continuous,
    }
}

/// What a step in the audio timeline means. Timed media keeps its exact times.
pub fn classify_audio_step(expected_pts_us: Option<i64>, pts_us: i64, live: bool) -> (r:
    AudioTimelineStep)
    ensures
        r == audio_step(expected_pts_us, pts_us, live),
{
    match expected_pts_us {
        Some(expected) => {
            if !live {
                return AudioTimelineStep::Continuous;
            }
            let step = signed_difference(pts_us, expected);
            if step >= AUDIO_GAP_US {
                AudioTimelineStep::Gap(step as u64)
            } else if step <= -AUDIO_GAP_US {
                AudioTimelineStep::Restart
            } else {
                AudioTimelineStep::Continuous
            }
        },
        None => AudioTimelineStep::Continuous,
    }
}

/// Where the audio timeline continues after a packet.
pub fn expected_after(pts_us: i64, duration_us: u64) -> (r: i64)
    ensures
        r == signed_64(pts_us + crate::decoder::capped(duration_us)),
{
    signed_sum(pts_us, crate::decoder::cap(duration_us))
}

/// The review of how far ahead video arrives.
#[derive(Debug, Clone, Copy, PartialEq, Eq, Structural)]
pub struct DelayReview {
    pub started_us: u64,
    pub least_headroom_us: Option<i64>,
}

/// The least headroom once another was seen.
pub open spec fn least(seen: Option<i64>, headroom_us: i64) -> i64 {
    match seen {
        Some(seen) => if seen <= headroom_us {
            seen
        } else {
            headroom_us
        },
        None => headroom_us,
    }
}

/// The delay that is asked for when a live video packet arrives, if any, and the review after it.
pub open spec fn reviewed(
    review: DelayReview,
    packet_pts_us: i64,
    rendered_pts_us: i64,
    current_delay_us: u64,
    now_us: u64,
) -> (Option<u64>, DelayReview) {
    let headroom = signed_64(packet_pts_us - rendered_pts_us);
    let lowest = least(review.least_headroom_us, headroom);
    let noted = DelayReview { least_headroom_us: Some(lowest), ..review };
    if headroom < 0 {
        (Some(unsigned_64(current_delay_us + shortfall(headroom))), noted)
    } else if now_us - review.started_us >= LIVE_DELAY_REVIEW_US {
        (
            Some(unsigned_64(current_delay_us - given_back(lowest))),
            DelayReview { started_us: now_us, least_headroom_us: None },
        )
    } else {
        (None, noted)
    }
}

impl DelayReview {
    /// Nothing was seen yet.
    pub fn new(now_us: u64) -> (r: Self)
        ensures
            r == (DelayReview { started_us: now_us, least_headroom_us: None }),
    {
        DelayReview { started_us: now_us, least_headroom_us: None }
    }

    /// A live video packet arrived while linked audio had rendered up to a time: the delay to ask
    /// for, if it changes.
    pub fn observe(
        &mut self,
        packet_pts_us: i64,
        rendered_pts_us: i64,
        current_delay_us: u64,
        now_us: u64,
    ) -> (r: Option<u64>)
        ensures
            r == reviewed(*old(self), packet_pts_us, rendered_pts_us, current_delay_us, now_us).0,
            *final(self) == reviewed(
                *old(self),
                packet_pts_us,
                rendered_pts_us,
                current_delay_us,
                now_us,
            ).1,
    {
        let headroom = signed_difference(packet_pts_us, rendered_pts_us);
        let lowest: i64 = match self.least_headroom_us {
            Some(seen) => if seen <= headroom {
                seen
            } else {
                headroom
            },
            None => headroom,
        };
        self.least_headroom_us = Some(lowest);
        if headroom < 0 {
            return Some(grown_live_delay_us(current_delay_us, headroom));
        }
        if difference(now_us, self.started_us) >= LIVE_DELAY_REVIEW_US {
            self.started_us = now_us;
            self.least_headroom_us = None;
            return Some(shrunk_live_delay_us(current_delay_us, lowest));
        }
        None
    }
}

/// The requests for key frames because video is late. A key frame is the largest thing that could be
/// added to the queue that made video late, so requests are spaced, and made once per epoch.
#[derive(Debug, Clone, Copy, PartialEq, Eq, Structural)]
pub struct LatencyRecovery {
    pub epoch: Option<u32>,
    pub requested_at_us: Option<u64>,
}

/// Whether a key frame is asked for.
pub open spec fn asks_for_keyframe(
    recovery: LatencyRecovery,
    late: bool,
    packet_epoch: u32,
    now_us: u64,
) -> bool {
    late && recovery.epoch != Some(packet_epoch) && (match recovery.requested_at_us {
        Some(at) => now_us - at >= LATENCY_KEYFRAME_INTERVAL_US,
        None => true,
    })
}

impl LatencyRecovery {
    /// Nothing was asked for.
    pub fn new() -> (r: Self)
        ensures
            r == (LatencyRecovery { epoch: None, requested_at_us: None }),
    {
        LatencyRecovery { epoch: None, requested_at_us: None }
    }

    /// A video packet arrived: whether to ask for a key frame. A key frame of a later epoch ends the
    /// recovery.
    pub fn observe(&mut self, late: bool, packet_epoch: u32, random_access: bool, now_us: u64) -> (r:
        bool)
        ensures
            r == asks_for_keyframe(*old(self), late, packet_epoch, now_us),
            *final(self) == (if r {
                LatencyRecovery { epoch: Some(packet_epoch), requested_at_us: Some(now_us) }
            } else if random_access && (old(self).epoch matches Some(epoch) && packet_epoch > epoch) {
                LatencyRecovery { epoch: None, ..*old(self) }
            } else {
                *old(self)
            }),
    {
        let spaced = match self.requested_at_us {
            Some(at) => difference(now_us, at) >= LATENCY_KEYFRAME_INTERVAL_US,
            None => true,
        };
        let known = match self.epoch {
            Some(epoch) => epoch == packet_epoch,
            None => false,
        };
        if late && !known && spaced {
            self.epoch = Some(packet_epoch);
            self.requested_at_us = Some(now_us);
            return true;
        }
        let recovered = match self.epoch {
            Some(epoch) => random_access && packet_epoch > epoch,
            None => false,
        };
        if recovered {
            self.epoch = None;
        }
        false
    }
}

/// How a decoded frame waits for its time.
#[derive(Debug, Clone, Copy, PartialEq, Eq, Structural)]
pub enum VideoWait {
    /// It is shown now.
    Due,
    /// The surface's own clock decides. A frame of the first output is due as soon as playing
    /// starts.
    Scene { priming: bool },
    /// Look again after this long.
    Sleep(u64),
}

/// What linked audio says of a frame.
#[derive(Debug, Clone, Copy, PartialEq, Eq, Structural)]
pub struct LinkedAudio {
    pub reached: bool,
    pub stalled: bool,
    /// How long until the frame is due, where it can be computed.
    pub until_us: Option<u64>,
}

/// How a decoded frame waits for its time.
pub open spec fn video_wait(priming: bool, live: bool, audio: Option<LinkedAudio>) -> VideoWait {
    if priming {
        VideoWait::Scene { priming: true }
    } else if live {
        VideoWait::Due
    } else {
        match audio {
            None => VideoWait::Scene { priming: false },
            Some(audio) => if audio.reached {
                VideoWait::Due
            } else if audio.stalled {
                VideoWait::Scene { priming: false }
            } else {
                VideoWait::Sleep(
                    match audio.until_us {
                        None => LINKED_AUDIO_RECHECK_US,
                        Some(until) => if until < MINIMUM_LINKED_AUDIO_WAIT_US {
                            MINIMUM_LINKED_AUDIO_WAIT_US
                        } else if until > LINKED_AUDIO_RECHECK_US {
                            LINKED_AUDIO_RECHECK_US
                        } else {
                            until
                        },
                    },
                )
            },
        }
    }
}

/// How a decoded frame waits for its time. Live video is paced by its capture already: waiting here
/// would only back its producer up.
pub fn wait_until_video_due(priming: bool, live: bool, audio: Option<LinkedAudio>) -> (r: VideoWait)
    ensures
        r == video_wait(priming, live, audio),
{
    if priming {
        return VideoWait::Scene { priming: true };
    }
    if live {
        return VideoWait::Due;
    }
    match audio {
        None => VideoWait::Scene { priming: false },
        Some(audio) => {
            if audio.reached {
                return VideoWait::Due;
            }
            if audio.stalled {
                return VideoWait::Scene { priming: false };
            }
            VideoWait::Sleep(
                match audio.until_us {
                    None => LINKED_AUDIO_RECHECK_US,
                    Some(until) => if until < MINIMUM_LINKED_AUDIO_WAIT_US {
                        MINIMUM_LINKED_AUDIO_WAIT_US
                    } else if until > LINKED_AUDIO_RECHECK_US {
                        LINKED_AUDIO_RECHECK_US
                    } else {
                        until
                    },
                },
            )
        },
    }
}

/// Video that is early never lengthens the delay, and video that is late never shortens it.
pub proof fn the_delay_follows_lateness(
    review: DelayReview,
    packet_pts_us: i64,
    rendered_pts_us: i64,
    current_delay_us: u64,
    now_us: u64,
)
    ensures
        ({
            let asked = reviewed(review, packet_pts_us, rendered_pts_us, current_delay_us, now_us).0;
            &&& packet_pts_us >= rendered_pts_us ==> (asked matches Some(delay) ==> delay
                <= current_delay_us)
            &&& packet_pts_us < rendered_pts_us ==> (asked matches Some(delay) && delay
                >= current_delay_us)
        }),
{
}

/// A delay grows by exactly as much as a packet is late and never for one that is on time, and
/// shrinks by exactly what the least headroom is above the reserve and never below zero.
pub proof fn a_delay_moves_by_what_was_measured(current_us: u64, headroom_us: i64, grown: u64, shrunk: u64)
    requires
        call_ensures(grown_live_delay_us, (current_us, headroom_us), grown),
        call_ensures(shrunk_live_delay_us, (current_us, headroom_us), shrunk),
    ensures
        headroom_us >= 0 ==> grown == current_us,
        i64::MIN < headroom_us < 0 && current_us - headroom_us <= u64::MAX ==> grown - current_us
            == -headroom_us,
        grown >= current_us,
        shrunk <= current_us,
        headroom_us <= 100_000 ==> shrunk == current_us,
        headroom_us > 100_000 && headroom_us - 100_000 <= current_us ==> current_us - shrunk
            == headroom_us - 100_000,
        headroom_us > 100_000 && headroom_us - 100_000 > current_us ==> shrunk == 0,
{
}

/// Live sound that comes the gap or more after its time leaves a gap of exactly that length, sound
/// that comes the gap or more before it restarts the timeline, and everything else goes on. Sound
/// that is not live, or the first of a track, always goes on.
pub proof fn live_sound_is_classified_by_its_lateness(
    expected_pts_us: i64,
    pts_us: i64,
    live: bool,
    r: AudioTimelineStep,
    first: AudioTimelineStep,
)
    requires
        call_ensures(classify_audio_step, (Some(expected_pts_us), pts_us, live), r),
        call_ensures(classify_audio_step, (None::<i64>, pts_us, live), first),
        i64::MIN <= pts_us - expected_pts_us <= i64::MAX,
    ensures
        first is Continuous,
        !live ==> r is Continuous,
        live ==> (r is Gap <==> pts_us >= expected_pts_us + 60_000),
        live ==> (r is Restart <==> pts_us <= expected_pts_us - 60_000),
        r matches AudioTimelineStep::Gap(gap_us) ==> expected_pts_us + gap_us == pts_us,
{
}

/// A packet that begins where the one before it ends goes on.
pub proof fn packets_back_to_back_go_on(
    pts_us: i64,
    duration_us: u64,
    expected_pts_us: i64,
    live: bool,
    r: AudioTimelineStep,
)
    requires
        pts_us + duration_us <= i64::MAX,
        duration_us <= i64::MAX,
        call_ensures(expected_after, (pts_us, duration_us), expected_pts_us),
        call_ensures(
            classify_audio_step,
            (Some(expected_pts_us), (pts_us + duration_us) as i64, live),
            r,
        ),
    ensures
        expected_pts_us == pts_us + duration_us,
        r is Continuous,
{
}

/// A late packet asks at once for a delay that would have been enough for it. A packet on time asks
/// for nothing until a review is over; then the delay gives back what no packet of the review needed
/// above the reserve, and the next review starts.
pub proof fn a_review_gives_back_what_nobody_needed(
    review: &mut DelayReview,
    packet_pts_us: i64,
    rendered_pts_us: i64,
    current_delay_us: u64,
    now_us: u64,
    r: Option<u64>,
)
    requires
        call_ensures(
            DelayReview::observe,
            (review, packet_pts_us, rendered_pts_us, current_delay_us, now_us),
            r,
        ),
        i64::MIN < packet_pts_us - rendered_pts_us <= i64::MAX,
        current_delay_us + rendered_pts_us - packet_pts_us <= u64::MAX,
    ensures
        ({
            let late = rendered_pts_us - packet_pts_us;
            let over = now_us - old(review).started_us >= 5_000_000;
            &&& late > 0 ==> r == Some((current_delay_us + late) as u64)
            &&& late <= 0 && !over ==> r is None
            &&& late <= 0 && over ==> r is Some && r->0 <= current_delay_us && final(review).started_us == now_us && final(review).least_headroom_us is None
            &&& late <= 0 && over && r->0 < current_delay_us ==> {
                &&& current_delay_us - r->0 <= -late - 100_000
                &&& old(review).least_headroom_us matches Some(least) ==> current_delay_us - r->0
                    <= least - 100_000
            }
            &&& late > 0 || !over ==> {
                &&& final(review).started_us == old(review).started_us
                &&& final(review).least_headroom_us matches Some(least) && least <= -late
                &&& old(review).least_headroom_us matches Some(before) ==> final(review).least_headroom_us->0 <= before
                &&& final(review).least_headroom_us == Some((-late) as i64) || final(review).least_headroom_us == old(review).least_headroom_us
            }
        }),
{
}

/// A keyframe is asked for only when a packet is late, once for each epoch, and no sooner than the
/// interval after the last time.
pub proof fn keyframes_are_asked_for_sparingly(
    recovery: &mut LatencyRecovery,
    first_epoch: u32,
    first_random: bool,
    first_us: u64,
    next: &mut LatencyRecovery,
    late: bool,
    epoch: u32,
    random: bool,
    now_us: u64,
    r: bool,
)
    requires
        call_ensures(LatencyRecovery::observe, (recovery, true, first_epoch, first_random, first_us), true),
        *final(recovery) == *old(next),
        call_ensures(LatencyRecovery::observe, (next, late, epoch, random, now_us), r),
    ensures
        r ==> late && epoch != first_epoch && now_us >= first_us + 2_000_000,
        late && epoch != first_epoch && now_us >= first_us + 2_000_000 ==> r,
        !r && !(random && epoch > first_epoch) ==> *final(next) == *old(next),
{
}

/// The first late packet asks for a keyframe at once, and one that is on time never does.
pub proof fn the_first_late_packet_asks_at_once(
    fresh: LatencyRecovery,
    recovery: &mut LatencyRecovery,
    late: bool,
    epoch: u32,
    random: bool,
    now_us: u64,
    r: bool,
)
    requires
        call_ensures(LatencyRecovery::new, (), fresh),
        *old(recovery) == fresh,
        call_ensures(LatencyRecovery::observe, (recovery, late, epoch, random, now_us), r),
    ensures
        r == late,
        r ==> final(recovery).epoch == Some(epoch) && final(recovery).requested_at_us == Some(now_us),
        !r ==> *final(recovery) == fresh,
{
}

/// Video is shown at once where it is live, or where its sound has reached it, but never before it
/// was primed. Otherwise it waits: by the scene's own clock where there is no sound or the sound
/// has stalled, and by the sound else, for a time that is never shorter nor longer than the limits.
pub proof fn video_waits_for_its_sound(
    priming: bool,
    live: bool,
    audio: Option<LinkedAudio>,
    r: VideoWait,
)
    requires
        call_ensures(wait_until_video_due, (priming, live, audio), r),
    ensures
        r is Due <==> !priming && (live || (audio matches Some(sound) && sound.reached)),
        r is Scene <==> priming || (!live && (audio is None || (!audio->0.reached
            && audio->0.stalled))),
        r matches VideoWait::Scene { priming: primes } ==> primes == priming,
        r is Sleep <==> !priming && !live && (audio matches Some(sound) && !sound.reached
            && !sound.stalled),
        r matches VideoWait::Sleep(wait_us) ==> {
            &&& 1_000 <= wait_us <= 20_000
            &&& audio->0.until_us is None ==> wait_us == 20_000
            &&& audio->0.until_us matches Some(until_us) ==> {
                &&& 1_000 <= until_us <= 20_000 ==> wait_us == until_us
                &&& until_us < 1_000 ==> wait_us == 1_000
                &&& until_us > 20_000 ==> wait_us == 20_000
            }
        },
{
}

} // verus!
