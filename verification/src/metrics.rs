//! What the tracks of a presenter did, counted together.

use vstd::prelude::*;

use crate::number::{sum, unsigned_64};

verus! {

/// What a track did.
#[derive(Debug, Clone, Copy, PartialEq, Eq, Structural)]
pub struct TrackMetrics {
    pub decoded_frames: u64,
    pub discarded_late_frames: u64,
    pub latency_keyframe_requests: u64,
    pub audio_rebases: u64,
}

/// What tracks did together, no count going over its end.
pub open spec fn total(tracks: Seq<TrackMetrics>) -> TrackMetrics
    decreases tracks.len(),
{
    if tracks.len() == 0 {
        TrackMetrics {
            decoded_frames: 0,
            discarded_late_frames: 0,
            latency_keyframe_requests: 0,
            audio_rebases: 0,
        }
    } else {
        let earlier = total(tracks.drop_last());
        let last = tracks.last();
        TrackMetrics {
            decoded_frames: unsigned_64(earlier.decoded_frames + last.decoded_frames),
            discarded_late_frames: unsigned_64(
                earlier.discarded_late_frames + last.discarded_late_frames,
            ),
            latency_keyframe_requests: unsigned_64(
                earlier.latency_keyframe_requests + last.latency_keyframe_requests,
            ),
            audio_rebases: unsigned_64(earlier.audio_rebases + last.audio_rebases),
        }
    }
}

/// What tracks did together.
pub fn streaming_metrics(tracks: &Vec<TrackMetrics>) -> (r: TrackMetrics)
    ensures
        r == total(tracks@),
{
    let mut count = TrackMetrics {
        decoded_frames: 0,
        discarded_late_frames: 0,
        latency_keyframe_requests: 0,
        audio_rebases: 0,
    };
    let mut index: usize = 0;
    while index < tracks.len()
        invariant
            index <= tracks@.len(),
            count == total(tracks@.take(index as int)),
        decreases tracks@.len() - index,
    {
        assert(tracks@.take(index + 1).drop_last() =~= tracks@.take(index as int));
        let track = tracks[index];
        count =
        TrackMetrics {
            decoded_frames: sum(count.decoded_frames, track.decoded_frames),
            discarded_late_frames: sum(count.discarded_late_frames, track.discarded_late_frames),
            latency_keyframe_requests: sum(
                count.latency_keyframe_requests,
                track.latency_keyframe_requests,
            ),
            audio_rebases: sum(count.audio_rebases, track.audio_rebases),
        };
        index = index + 1;
    }
    assert(tracks@.take(index as int) =~= tracks@);
    count
}

/// The sum over two groups of tracks is the sum of their sums, counter by counter, and the sum over
/// one track is what that track counted.
pub proof fn counters_add_up(left: Seq<TrackMetrics>, right: Seq<TrackMetrics>, only: TrackMetrics)
    ensures
        total(left + right).decoded_frames == unsigned_64(
            total(left).decoded_frames + total(right).decoded_frames,
        ),
        total(left + right).discarded_late_frames == unsigned_64(
            total(left).discarded_late_frames + total(right).discarded_late_frames,
        ),
        total(left + right).latency_keyframe_requests == unsigned_64(
            total(left).latency_keyframe_requests + total(right).latency_keyframe_requests,
        ),
        total(left + right).audio_rebases == unsigned_64(
            total(left).audio_rebases + total(right).audio_rebases,
        ),
        total(seq![only]) == only,
    decreases right.len(),
{
    reveal_with_fuel(total, 2);
    assert(seq![only].drop_last() =~= Seq::<TrackMetrics>::empty());
    if right.len() == 0 {
        assert(left + right =~= left);
    } else {
        assert((left + right).drop_last() =~= left + right.drop_last());
        counters_add_up(left, right.drop_last(), only);
    }
}

} // verus!
