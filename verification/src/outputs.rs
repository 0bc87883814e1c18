//! The audio outputs of tracks.

use vstd::prelude::*;

use crate::identity::{SessionIdentity, TrackIdentity};
use crate::table::{kept, EntryTest, Table, TableKey};

verus! {

/// The audio outputs that play, by the complete identities of their tracks. An output is named by
/// the number of its device stream.
pub struct AudioOutputs {
    pub table: Table<TrackIdentity, u64>,
}

/// The tracks of a session.
pub struct OfSession {
    pub session: SessionIdentity,
}

impl EntryTest<TrackIdentity, u64> for OfSession {
    open spec fn holds(&self, key: TrackIdentity, value: u64) -> bool {
        key.surface.context.session == self.session
    }

    fn test(&self, key: &TrackIdentity, value: &u64) -> (r: bool) {
        key.surface.context.session.same(&self.session)
    }
}

/// The streams of a session's outputs, in the order in which they started.
pub open spec fn session_streams(entries: Seq<(TrackIdentity, u64)>, session: SessionIdentity) -> Seq<u64>
    decreases entries.len(),
{
    if entries.len() == 0 {
        Seq::empty()
    } else {
        let streams = session_streams(entries.drop_last(), session);
        if entries.last().0.surface.context.session == session {
            streams.push(entries.last().1)
        } else {
            streams
        }
    }
}

/// Whether an output is one of a session's.
pub open spec fn of_session(session: SessionIdentity) -> spec_fn(TrackIdentity, u64) -> bool {
    |track: TrackIdentity, stream: u64| track.surface.context.session == session
}

impl View for AudioOutputs {
    type V = Map<TrackIdentity, u64>;

    open spec fn view(&self) -> Map<TrackIdentity, u64> {
        self.table@
    }
}

impl AudioOutputs {
    /// What always holds.
    pub open spec fn wf(self) -> bool {
        self.table.wf()
    }

    /// No output plays.
    pub fn new() -> (r: Self)
        ensures
            r.wf(),
            r@ == Map::<TrackIdentity, u64>::empty(),
    {
        AudioOutputs { table: Table::new() }
    }

    /// Note the stream of a track's output. An earlier one is handed back.
    pub fn start(&mut self, track: TrackIdentity, stream: u64) -> (r: Option<u64>)
        requires
            old(self).wf(),
        ensures
            final(self).wf(),
            final(self)@ == old(self)@.insert(track, stream),
            r == old(self)@.get(track),
    {
        self.table.insert(track, stream)
    }

    /// The stream of a track's output.
    pub fn stream(&self, track: &TrackIdentity) -> (r: Option<u64>)
        requires
            self.wf(),
        ensures
            r == self@.get(*track),
    {
        match self.table.get(track) {
            Some(stream) => Some(*stream),
            None => None,
        }
    }

    /// Forget the output of a track, whose stream is to be stopped.
    pub fn stop_failed_audio_output(&mut self, track: &TrackIdentity) -> (r: Option<u64>)
        requires
            old(self).wf(),
        ensures
            final(self).wf(),
            final(self)@ == old(self)@.remove(*track),
            r == old(self)@.get(*track),
    {
        self.table.remove(track)
    }

    /// Forget the outputs of a session, whose streams are to be stopped.
    pub fn stop_session_audio(&mut self, session: &SessionIdentity) -> (r: Vec<u64>)
        requires
            old(self).wf(),
        ensures
            final(self).wf(),
            final(self)@ == kept(old(self)@, of_session(*session)),
            r@ == session_streams(old(self).table.entries@, *session),
    {
        let mut streams: Vec<u64> = Vec::new();
        let mut index: usize = 0;
        while index < self.table.entries.len()
            invariant
                *self == *old(self),
                index <= self.table.entries@.len(),
                streams@ == session_streams(self.table.entries@.take(index as int), *session),
            decreases self.table.entries@.len() - index,
        {
            proof {
                let taken = self.table.entries@.take(index + 1);
                assert(taken.drop_last() =~= self.table.entries@.take(index as int));
            }
            if self.table.entries[index].0.surface.context.session.same(session) {
                streams.push(self.table.entries[index].1);
            }
            index = index + 1;
        }
        assert(self.table.entries@.take(index as int) =~= self.table.entries@);
        let condition = OfSession { session: *session };
        self.table.remove_where(&condition);
        assert(self@ =~= kept(old(self)@, of_session(*session)));
        streams
    }
}

/// The stream of a track is the one that was started for it last, and starting one leaves the
/// streams of every other track alone.
pub proof fn a_track_has_the_stream_started_last(
    outputs: &mut AudioOutputs,
    track: TrackIdentity,
    stream: u64,
    before: Option<u64>,
    other: TrackIdentity,
    own: Option<u64>,
    theirs: Option<u64>,
    earlier: Option<u64>,
)
    requires
        old(outputs).wf(),
        other != track,
        call_ensures(AudioOutputs::stream, (&*old(outputs), &other), earlier),
        call_ensures(AudioOutputs::start, (outputs, track, stream), before),
        call_ensures(AudioOutputs::stream, (&*final(outputs), &track), own),
        call_ensures(AudioOutputs::stream, (&*final(outputs), &other), theirs),
    ensures
        own == Some(stream),
        theirs == earlier,
        before is Some <==> old(outputs)@.contains_key(track),
{
}

/// A stream that is stopped is stopped once.
pub proof fn a_stopped_stream_is_gone(
    outputs: &mut AudioOutputs,
    track: TrackIdentity,
    r: Option<u64>,
    left: Option<u64>,
    own: Option<u64>,
)
    requires
        old(outputs).wf(),
        call_ensures(AudioOutputs::stream, (&*old(outputs), &track), own),
        call_ensures(AudioOutputs::stop_failed_audio_output, (outputs, &track), r),
        call_ensures(AudioOutputs::stream, (&*final(outputs), &track), left),
    ensures
        r == own,
        left is None,
{
}

/// The streams of a session end with it, and those of every other session go on.
pub proof fn a_session_takes_its_streams_along(
    outputs: &mut AudioOutputs,
    session: &SessionIdentity,
    r: Vec<u64>,
    track: TrackIdentity,
)
    requires
        old(outputs).wf(),
        call_ensures(AudioOutputs::stop_session_audio, (outputs, session), r),
    ensures
        final(outputs)@.contains_key(track) <==> old(outputs)@.contains_key(track)
            && track.surface.context.session != *session,
        final(outputs)@.contains_key(track) ==> final(outputs)@[track] == old(outputs)@[track],
{
}

} // verus!
