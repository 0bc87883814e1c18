//! Consent to be recorded, and the clock of what is recorded.
//!
//! A microphone is only ever sent to the one recipient that the person at the terminal chose, and
//! only while they left it on. The device and the sending are with the caller.

use std::collections::VecDeque;

use vstd::prelude::*;

use crate::identity::TrackIdentity;
use crate::number::{product, sum, unsigned_64};
use crate::table::{Table, TableKey};

verus! {

/// The longest title shown for a recipient.
pub const MAXIMUM_TITLE_CHARACTERS: usize = 48;

/// How long one packet of recorded samples lasts.
pub const PACKET_US: i64 = 20_000;

/// A recipient: a track, and which channel of it.
#[derive(Clone, Copy, Debug, PartialEq, Eq)]
pub struct RouteKey {
    pub track: TrackIdentity,
    pub generation: u64,
}

impl TableKey for RouteKey {
    fn same(&self, other: &Self) -> (r: bool) {
        self.generation == other.generation && self.track.same(&other.track)
    }
}

/// The numbers that a recipient is ordered by, the most significant first.
pub open spec fn rank_of(key: RouteKey) -> Seq<u64> {
    let surface = key.track.surface;
    let context = surface.context;
    Seq::new(16, |i: int| context.session.presenter.0@[i] as u64) + seq![
        context.session.session_id,
        context.context_id,
        surface.surface_id,
        key.track.track_id,
        key.generation,
    ]
}

/// Whether the first difference of two sequences is smaller in the first.
pub open spec fn precedes(left: Seq<u64>, right: Seq<u64>) -> bool {
    exists|i: int| first_difference(left, right, i)
}

/// Whether two sequences first differ at an index, where the first is smaller.
pub open spec fn first_difference(left: Seq<u64>, right: Seq<u64>, i: int) -> bool {
    &&& 0 <= i < left.len()
    &&& 0 <= i < right.len()
    &&& left[i] < right[i]
    &&& forall|j: int| 0 <= j < i ==> left[j] == right[j]
}

/// Whether a recipient comes before another.
pub open spec fn before(left: RouteKey, right: RouteKey) -> bool {
    precedes(rank_of(left), rank_of(right))
}

/// Whether a recipient comes after a bound, where there is one.
pub open spec fn beyond(key: RouteKey, bound: Option<RouteKey>) -> bool {
    match bound {
        Some(bound) => before(bound, key),
        None => true,
    }
}

/// Whether this is the first recipient after a bound.
pub open spec fn is_first(
    routes: Map<RouteKey, Route>,
    bound: Option<RouteKey>,
    found: Option<RouteKey>,
) -> bool {
    match found {
        Some(key) => {
            &&& routes.contains_key(key)
            &&& beyond(key, bound)
            &&& forall|other: RouteKey| #[trigger]
                routes.contains_key(other) && beyond(other, bound) ==> !before(other, key)
        },
        None => forall|other: RouteKey| #[trigger]
            routes.contains_key(other) ==> !beyond(other, bound),
    }
}

/// Whether this is the recipient after another one. After the last comes the first.
pub open spec fn is_next(
    routes: Map<RouteKey, Route>,
    chosen: Option<RouteKey>,
    next: Option<RouteKey>,
) -> bool {
    ||| next is Some && is_first(routes, chosen, next)
    ||| is_first(routes, chosen, None) && is_first(routes, None, next)
}

/// A recipient that can be chosen.
pub struct Route {
    pub enabled: bool,
    pub title: String,
}

/// Which recipients there are, and which one was chosen.
pub struct Microphone {
    pub routes: Table<RouteKey, Route>,
    pub selected: Option<RouteKey>,
    pub error: Option<String>,
}

/// A route that is turned on if it was off, and off if it was on.
pub open spec fn flipped(route: Route) -> Route {
    Route { enabled: !route.enabled, ..route }
}

/// A route that is off.
pub open spec fn muted(route: Route) -> Route {
    Route { enabled: false, ..route }
}

/// All routes off.
pub open spec fn all_muted(routes: Map<RouteKey, Route>) -> Map<RouteKey, Route> {
    Map::new(|key: RouteKey| routes.contains_key(key), |key: RouteKey| muted(routes[key]))
}

proof fn lemma_precedes_transitive(first: Seq<u64>, second: Seq<u64>, third: Seq<u64>)
    requires
        precedes(first, second),
        precedes(second, third),
        first.len() == second.len(),
        second.len() == third.len(),
    ensures
        precedes(first, third),
{
    let i = choose|i: int| first_difference(first, second, i);
    let j = choose|j: int| first_difference(second, third, j);
    if i <= j {
        assert(first_difference(first, third, i));
    } else {
        assert(first_difference(first, third, j));
    }
}

/// A recipient is before another, after it, or the same: there is one first recipient.
pub proof fn recipients_are_ordered(left: RouteKey, right: RouteKey)
    ensures
        left == right || before(left, right) || before(right, left),
        !(before(left, right) && before(right, left)),
        !before(left, left),
{
    let a = rank_of(left);
    let b = rank_of(right);
    if before(left, right) && before(right, left) {
        let i = choose|i: int| first_difference(a, b, i);
        let j = choose|j: int| first_difference(b, a, j);
        assert(false);
    }
    if before(left, left) {
        let i = choose|i: int| first_difference(a, a, i);
        assert(false);
    }
    if !before(left, right) && !before(right, left) {
        lemma_equal_ranks(a, b, 21);
        assert(left.track.surface.context.session.presenter.0@
            =~= right.track.surface.context.session.presenter.0@) by {
            assert forall|i: int| 0 <= i < 16 implies left.track.surface.context.session.presenter.0@[i]
                == right.track.surface.context.session.presenter.0@[i] by {
                assert(a[i] == b[i]);
            }
        }
        assert(left.track.surface.context.session.presenter.0
            =~= right.track.surface.context.session.presenter.0);
        assert(a[16] == b[16] && a[17] == b[17] && a[18] == b[18] && a[19] == b[19] && a[20]
            == b[20]);
    }
}

proof fn lemma_equal_ranks(left: Seq<u64>, right: Seq<u64>, count: int)
    requires
        0 <= count <= left.len(),
        left.len() == right.len(),
        !precedes(left, right),
        !precedes(right, left),
    ensures
        forall|i: int| 0 <= i < count ==> left[i] == right[i],
    decreases count,
{
    if count > 0 {
        lemma_equal_ranks(left, right, count - 1);
        if left[count - 1] < right[count - 1] {
            assert(first_difference(left, right, count - 1));
        }
        if right[count - 1] < left[count - 1] {
            assert(first_difference(right, left, count - 1));
        }
    }
}

fn rank(key: &RouteKey) -> (r: Vec<u64>)
    ensures
        r@ == rank_of(*key),
{
    let surface = key.track.surface;
    let context = surface.context;
    let mut numbers: Vec<u64> = Vec::new();
    let mut index: usize = 0;
    while index < 16
        invariant
            index <= 16,
            numbers@.len() == index,
            forall|i: int|
                0 <= i < index ==> numbers@[i] == context.session.presenter.0@[i] as u64,
        decreases 16 - index,
    {
        numbers.push(context.session.presenter.0[index] as u64);
        index = index + 1;
    }
    numbers.push(context.session.session_id);
    numbers.push(context.context_id);
    numbers.push(surface.surface_id);
    numbers.push(key.track.track_id);
    numbers.push(key.generation);
    assert(numbers@ =~= rank_of(*key));
    numbers
}

/// Whether a recipient comes before another.
fn is_before(left: &RouteKey, right: &RouteKey) -> (r: bool)
    ensures
        r == before(*left, *right),
{
    let left_rank = rank(left);
    let right_rank = rank(right);
    let mut index: usize = 0;
    while index < 21
        invariant
            index <= 21,
            left_rank@ == rank_of(*left),
            right_rank@ == rank_of(*right),
            forall|j: int| 0 <= j < index ==> left_rank@[j] == right_rank@[j],
        decreases 21 - index,
    {
        if left_rank[index] < right_rank[index] {
            assert(first_difference(left_rank@, right_rank@, index as int));
            return true;
        }
        if left_rank[index] > right_rank[index] {
            return false;
        }
        index = index + 1;
    }
    false
}

fn is_beyond(key: &RouteKey, bound: &Option<RouteKey>) -> (r: bool)
    ensures
        r == beyond(*key, *bound),
{
    match bound {
        Some(bound) => is_before(bound, key),
        None => true,
    }
}

impl Microphone {
    /// Each recipient occurs once, and only channels of the chosen track are on: consent is given to
    /// one recipient at a time.
    pub open spec fn wf(&self) -> bool {
        &&& self.routes.wf()
        &&& forall|key: RouteKey| #[trigger]
            self.routes@.contains_key(key) && self.routes@[key].enabled ==> (
            self.selected matches Some(chosen) && chosen.track == key.track)
    }

    /// No recipient.
    pub fn new() -> (r: Self)
        ensures
            r.wf(),
            r.routes@ == Map::<RouteKey, Route>::empty(),
            r.selected is None,
            r.error is None,
    {
        Microphone { routes: Table::new(), selected: None, error: None }
    }

    /// The first recipient after a bound.
    fn first(&self, bound: Option<RouteKey>) -> (r: Option<RouteKey>)
        requires
            self.wf(),
        ensures
            is_first(self.routes@, bound, r),
    {
        let mut found: Option<RouteKey> = None;
        let mut index: usize = 0;
        while index < self.routes.entries.len()
            invariant
                self.wf(),
                index <= self.routes.entries@.len(),
                match found {
                    Some(key) => self.routes@.contains_key(key) && beyond(key, bound),
                    None => true,
                },
                forall|i: int|
                    0 <= i < index && beyond((#[trigger] self.routes.entries@[i]).0, bound)
                        ==> found is Some && !before(self.routes.entries@[i].0, found.unwrap()),
            decreases self.routes.entries@.len() - index,
        {
            let key = self.routes.entries[index].0;
            proof {
                self.routes.lemma_entry(index as int);
                recipients_are_ordered(key, key);
            }
            if is_beyond(&key, &bound) {
                let better = match &found {
                    Some(best) => is_before(&key, best),
                    None => true,
                };
                if better {
                    proof {
                        assert forall|i: int|
                            0 <= i < index && beyond(
                                (#[trigger] self.routes.entries@[i]).0,
                                bound,
                            ) implies !before(self.routes.entries@[i].0, key) by {
                            let other = self.routes.entries@[i].0;
                            if before(other, key) {
                                lemma_precedes_transitive(
                                    rank_of(other),
                                    rank_of(key),
                                    rank_of(found.unwrap()),
                                );
                            }
                        }
                    }
                    found = Some(key);
                }
            }
            index = index + 1;
        }
        proof {
            assert forall|other: RouteKey| #[trigger]
                self.routes@.contains_key(other) && beyond(other, bound) implies found is Some
                && !before(other, found.unwrap()) by {
                let i = choose|i: int|
                    0 <= i < self.routes.entries@.len() && (#[trigger] self.routes.entries@[i]).0
                        == other;
                assert(beyond(self.routes.entries@[i].0, bound));
            }
        }
        found
    }

    /// Turn the chosen recipient on or off; where none was chosen yet, choose the first.
    pub fn toggle(&mut self)
        requires
            old(self).wf(),
        ensures
            final(self).wf(),
            final(self).error is None,
            old(self).selected is Some ==> final(self).selected == old(self).selected,
            old(self).selected is None ==> is_first(old(self).routes@, None, final(self).selected),
            final(self).routes@ == (match final(self).selected {
                Some(key) => if old(self).routes@.contains_key(key) {
                    old(self).routes@.insert(key, flipped(old(self).routes@[key]))
                } else {
                    old(self).routes@
                },
                None => old(self).routes@,
            }),
    {
        if self.selected.is_none() {
            self.selected = self.first(None);
        }
        if let Some(key) = self.selected {
            if let Some(route) = self.routes.get_mut(&key) {
                route.enabled = !route.enabled;
            }
        }
        self.error = None;
    }

    /// Choose the next recipient. Everybody is off until turned on.
    pub fn next(&mut self)
        requires
            old(self).wf(),
        ensures
            final(self).wf(),
            final(self).error is None,
            final(self).routes@ == all_muted(old(self).routes@),
            is_next(old(self).routes@, old(self).selected, final(self).selected),
    {
        let next = self.first(self.selected);
        let chosen = match next {
            Some(key) => Some(key),
            None => self.first(None),
        };
        let ghost before = self.routes;
        let mut index: usize = 0;
        while index < self.routes.entries.len()
            invariant
                before.wf(),
                self.routes.entries@.len() == before.entries@.len(),
                index <= before.entries@.len(),
                forall|i: int|
                    0 <= i < index ==> (#[trigger] self.routes.entries@[i]) == (
                        before.entries@[i].0,
                        muted(before.entries@[i].1),
                    ),
                forall|i: int|
                    index <= i < before.entries@.len() ==> (#[trigger] self.routes.entries@[i])
                        == before.entries@[i],
            decreases before.entries@.len() - index,
        {
            let entry = &mut self.routes.entries[index];
            entry.1.enabled = false;
            index = index + 1;
        }
        proof {
            lemma_muted(before.entries@, self.routes.entries@);
        }
        self.selected = chosen;
        self.error = None;
    }

    /// What is shown of the microphone.
    pub fn label(&self) -> (r: String)
        requires
            self.wf(),
        ensures
            match (self.error, self.selected) {
                (Some(error), _) => r@ == "MIC unavailable: "@ + error@,
                (None, Some(key)) => r@ == if self.routes@.contains_key(key) {
                    route_label(self.routes@[key])
                } else {
                    "MIC OFF: recipient disconnected"@
                },
                (None, None) => exists|first: Option<RouteKey>| #[trigger]
                    is_first(self.routes@, None, first) && r@ == (match first {
                        Some(key) => route_label(self.routes@[key]),
                        None => Seq::empty(),
                    }),
            },
    {
        if let Some(error) = &self.error {
            let mut text = "MIC unavailable: ".to_owned();
            text.append(error.as_str());
            return text;
        }
        let key = match self.selected {
            Some(key) => key,
            None => {
                let first = self.first(None);
                match first {
                    Some(key) => {
                        let ghost found = first;
                        assert(is_first(self.routes@, None, found));
                        key
                    },
                    None => {
                        let text = String::new();
                        assert(text@ =~= Seq::<char>::empty());
                        assert(is_first(self.routes@, None, None));
                        return text;
                    },
                }
            },
        };
        match self.routes.get(&key) {
            Some(route) => {
                let mut text = if route.enabled {
                    "MIC ON: ".to_owned()
                } else {
                    "MIC OFF: ".to_owned()
                };
                text.append(route.title.as_str());
                text
            },
            None => "MIC OFF: recipient disconnected".to_owned(),
        }
    }

    /// A channel of a track can be sent to. It starts off. Where this track was chosen under another
    /// channel, the choice follows it.
    pub fn register(&mut self, key: RouteKey, title: String)
        requires
            old(self).wf(),
        ensures
            final(self).wf(),
            final(self).routes@ == old(self).routes@.insert(key, Route { enabled: false, title }),
            final(self).error == old(self).error,
            final(self).selected == (match old(self).selected {
                Some(chosen) => if chosen.track == key.track {
                    Some(key)
                } else {
                    Some(chosen)
                },
                None => None,
            }),
    {
        self.routes.insert(key, Route { enabled: false, title });
        if let Some(chosen) = self.selected {
            if chosen.track.same(&key.track) {
                self.selected = Some(key);
            }
        }
    }

    /// A channel is gone. The choice stays with its owner: nobody else is sent to instead.
    pub fn unregister(&mut self, key: &RouteKey)
        requires
            old(self).wf(),
        ensures
            final(self).wf(),
            final(self).routes@ == old(self).routes@.remove(*key),
            final(self).selected == old(self).selected,
            final(self).error == old(self).error,
    {
        self.routes.remove(key);
    }

    /// The device failed, and the recipient is off.
    pub fn fail(&mut self, key: &RouteKey, error: Option<String>)
        requires
            old(self).wf(),
        ensures
            final(self).wf(),
            final(self).routes@ == (if old(self).routes@.contains_key(*key) {
                old(self).routes@.insert(*key, muted(old(self).routes@[*key]))
            } else {
                old(self).routes@
            }),
            final(self).selected == old(self).selected,
            final(self).error == (if error is Some {
                error
            } else {
                old(self).error
            }),
    {
        if let Some(route) = self.routes.get_mut(key) {
            route.enabled = false;
        }
        if error.is_some() {
            self.error = error;
        }
    }

    /// Whether a recipient is being sent to.
    pub fn enabled(&self, key: &RouteKey) -> (r: bool)
        requires
            self.wf(),
        ensures
            r == (self.routes@.contains_key(*key) && self.routes@[*key].enabled),
    {
        match self.routes.get(key) {
            Some(route) => route.enabled,
            None => false,
        }
    }
}

proof fn lemma_muted(before: Seq<(RouteKey, Route)>, after: Seq<(RouteKey, Route)>)
    requires
        crate::table::entries_distinct(before),
        after.len() == before.len(),
        forall|i: int|
            0 <= i < before.len() ==> (#[trigger] after[i]) == (before[i].0, muted(before[i].1)),
    ensures
        crate::table::entries_distinct(after),
        crate::table::entries_map(after) == all_muted(crate::table::entries_map(before)),
{
    crate::table::lemma_pointwise(before, after, |key: RouteKey, route: Route| muted(route));
    assert(crate::table::entries_map(after) =~= all_muted(crate::table::entries_map(before)));
}

/// What is shown of a recipient.
pub open spec fn route_label(route: Route) -> Seq<char> {
    (if route.enabled {
        "MIC ON: "@
    } else {
        "MIC OFF: "@
    }) + route.title@
}

/// Consent is exclusive: whatever is on belongs to one track.
pub proof fn one_recipient_at_a_time(microphone: Microphone, left: RouteKey, right: RouteKey)
    requires
        microphone.wf(),
        microphone.routes@.contains_key(left) && microphone.routes@[left].enabled,
        microphone.routes@.contains_key(right) && microphone.routes@[right].enabled,
    ensures
        left.track == right.track,
{
}

/// After choosing the next recipient nobody is recorded.
pub proof fn choosing_turns_everybody_off(routes: Map<RouteKey, Route>, key: RouteKey)
    requires
        routes.contains_key(key),
    ensures
        all_muted(routes).contains_key(key),
        !all_muted(routes)[key].enabled,
        all_muted(routes)[key].title == routes[key].title,
{
}

/// Whether a character is a control character.
pub open spec fn is_control(character: char) -> bool {
    character as u32 <= 0x1f || 0x7f <= character as u32 <= 0x9f
}

/// A title without control characters.
pub open spec fn printable(title: Seq<char>) -> Seq<char>
    decreases title.len(),
{
    if title.len() == 0 {
        Seq::empty()
    } else if is_control(title.last()) {
        printable(title.drop_last())
    } else {
        printable(title.drop_last()).push(title.last())
    }
}

/// The title shown for a recipient: what can be printed of its surface's title.
pub fn route_title(title: Option<&str>) -> (r: String)
    ensures
        match title {
            Some(title) => r@ == (if printable(title@).len() <= MAXIMUM_TITLE_CHARACTERS {
                printable(title@)
            } else {
                printable(title@).take(MAXIMUM_TITLE_CHARACTERS as int)
            }),
            None => r@ == "remote microphone"@,
        },
{
    let title = match title {
        Some(title) => title,
        None => {
            return "remote microphone".to_owned();
        },
    };
    let length = title.unicode_len();
    let mut text = String::new();
    let mut taken: usize = 0;
    let mut index: usize = 0;
    assert(text@ =~= printable(title@.take(0)));
    while index < length && taken < MAXIMUM_TITLE_CHARACTERS
        invariant
            length == title@.len(),
            index <= length,
            taken == text@.len(),
            taken <= MAXIMUM_TITLE_CHARACTERS,
            text@ == printable(title@.take(index as int)),
        decreases length - index,
    {
        let character = title.get_char(index);
        proof {
            assert(title@.take(index + 1).drop_last() =~= title@.take(index as int));
        }
        let code = character as u32;
        if !(code <= 0x1f || (0x7f <= code && code <= 0x9f)) {
            text.push(character);
            taken = taken + 1;
        }
        index = index + 1;
    }
    proof {
        lemma_printable_prefix(title@, index as int);
        if index == length {
            assert(title@.take(index as int) =~= title@);
            if taken == MAXIMUM_TITLE_CHARACTERS {
                assert(text@ =~= printable(title@).take(MAXIMUM_TITLE_CHARACTERS as int));
            }
        }
    }
    text
}

proof fn lemma_printable_prefix(title: Seq<char>, index: int)
    requires
        0 <= index <= title.len(),
    ensures
        printable(title.take(index)).len() <= printable(title).len(),
        printable(title.take(index)) == printable(title).take(
            printable(title.take(index)).len() as int,
        ),
    decreases title.len(),
{
    if index == title.len() {
        assert(title.take(index) =~= title);
        assert(printable(title) =~= printable(title).take(printable(title).len() as int));
    } else {
        assert(title.drop_last().take(index) =~= title.take(index));
        lemma_printable_prefix(title.drop_last(), index);
        assert(printable(title.take(index)) =~= printable(title).take(
            printable(title.take(index)).len() as int,
        ));
    }
}

/// Whether a device can be recorded from.
pub fn capture_supported(sample_rate: u32, channels: u16) -> (r: bool)
    ensures
        r == (8_000 <= sample_rate <= 192_000 && 1 <= channels <= 8),
{
    8_000 <= sample_rate && sample_rate <= 192_000 && 1 <= channels && channels <= 8
}

/// Keep a recorded sample with its position. The oldest makes room: a fifth of a second is kept.
pub fn record_sample<T>(queue: &mut VecDeque<(u64, T)>, sample_rate: u32, position: u64, sample: T)
    requires
        old(queue)@.len() <= sample_rate / 5,
        sample_rate >= 5,
    ensures
        final(queue)@ == (if old(queue)@.len() == sample_rate / 5 {
            old(queue)@.drop_first()
        } else {
            old(queue)@
        }).push((position, sample)),
        final(queue)@.len() <= sample_rate / 5,
{
    if queue.len() == (sample_rate / 5) as usize {
        let oldest = queue.pop_front();
        assert(queue@ =~= old(queue)@.drop_first());
    }
    queue.push_back((position, sample));
}

/// The clock of what is recorded: which position comes next, and when the next packet is.
#[derive(Clone, Copy, Debug, PartialEq, Eq, Structural)]
pub struct CaptureClock {
    pub sample_rate: u32,
    pub expected: u64,
    pub pts_us: i64,
    pub last_pts_us: i64,
}

/// The clock cannot count further.
#[derive(Clone, Copy, Debug, PartialEq, Eq, Structural)]
pub struct ClockExhausted;

impl CaptureClock {
    /// A packet never goes back in time.
    pub open spec fn wf(&self) -> bool {
        &&& self.sample_rate > 0
        &&& self.last_pts_us >= -PACKET_US
        &&& self.pts_us >= self.last_pts_us + PACKET_US
    }

    /// Nothing was recorded.
    pub fn new(sample_rate: u32) -> (r: Self)
        requires
            sample_rate > 0,
        ensures
            r.wf(),
            r == (CaptureClock { sample_rate, expected: 0, pts_us: 0, last_pts_us: -20_000i64 }),
    {
        CaptureClock { sample_rate, expected: 0, pts_us: 0, last_pts_us: -20_000 }
    }

    /// Samples were recorded from one position to another. Whether some were missed before them, so
    /// that what was collected has to be given up and the clock moves to where they are.
    pub fn observe(&mut self, first: u64, last: u64) -> (r: Result<bool, ClockExhausted>)
        requires
            old(self).wf(),
        ensures
            ({
                let here = unsigned_64(first * 1_000_000) as int / old(self).sample_rate as int;
                let missed = first != old(self).expected;
                &&& r == (if missed && here > i64::MAX {
                    Err(ClockExhausted)
                } else {
                    Ok(missed)
                })
                &&& *final(self) == (if r is Err {
                    *old(self)
                } else {
                    CaptureClock {
                        expected: unsigned_64(last + 1),
                        pts_us: if !missed {
                            old(self).pts_us
                        } else if here <= old(self).last_pts_us + PACKET_US {
                            (old(self).last_pts_us + PACKET_US) as i64
                        } else {
                            here as i64
                        },
                        ..*old(self)
                    }
                })
            }),
            final(self).wf(),
    {
        if first != self.expected {
            let here: u64 = product(first, 1_000_000) / self.sample_rate as u64;
            if here > i64::MAX as u64 {
                return Err(ClockExhausted);
            }
            let here = here as i64;
            let earliest: i64 = self.last_pts_us + PACKET_US;
            self.pts_us = if here <= earliest {
                earliest
            } else {
                here
            };
            self.expected = sum(last, 1);
            return Ok(true);
        }
        self.expected = sum(last, 1);
        Ok(false)
    }

    /// A packet was sent: the next one is a packet later.
    pub fn sent(&mut self) -> (r: Result<(), ClockExhausted>)
        requires
            old(self).wf(),
        ensures
            r is Err <==> old(self).pts_us + PACKET_US > i64::MAX,
            r is Ok ==> *final(self) == (CaptureClock {
                last_pts_us: old(self).pts_us,
                pts_us: (old(self).pts_us + PACKET_US) as i64,
                ..*old(self)
            }),
            r is Err ==> *final(self) == *old(self),
            final(self).wf(),
    {
        match self.pts_us.checked_add(PACKET_US) {
            Some(next) => {
                self.last_pts_us = self.pts_us;
                self.pts_us = next;
                Ok(())
            },
            None => Err(ClockExhausted),
        }
    }
}

/// Turning the microphone on and off again leaves it as it was, and touches nobody but the chosen
/// recipient.
pub proof fn toggling_twice_changes_nothing(
    microphone: &mut Microphone,
    next: &mut Microphone,
    key: RouteKey,
)
    requires
        old(microphone).wf(),
        call_ensures(Microphone::toggle, (microphone,), ()),
        *final(microphone) == *old(next),
        call_ensures(Microphone::toggle, (next,), ()),
        old(microphone).routes@.contains_key(key),
    ensures
        final(next).routes@ == old(microphone).routes@,
        final(microphone).selected == Some(key) ==> final(microphone).routes@[key].enabled != old(microphone).routes@[key].enabled,
        final(microphone).selected != Some(key) ==> final(microphone).routes@[key] == old(microphone).routes@[key],
        final(microphone).routes@[key].title == old(microphone).routes@[key].title,
        final(microphone).selected is Some,
{
    if final(microphone).selected is None {
        assert(is_first(old(microphone).routes@, None, None));
        assert(beyond(key, None));
        assert(false);
    }
    let chosen = final(microphone).selected->0;
    if old(microphone).routes@.contains_key(chosen) {
        let route = old(microphone).routes@[chosen];
        assert(flipped(flipped(route)) == route);
    }
    assert(final(next).routes@ =~= old(microphone).routes@);
}

/// Going on to the next recipient records nobody, and a recipient that registers, leaves or fails
/// is not recorded either.
pub proof fn nobody_is_recorded_without_being_turned_on(
    microphone: &mut Microphone,
    moved: &mut Microphone,
    key: RouteKey,
    title: String,
    joined: &mut Microphone,
    failed: &mut Microphone,
    error: Option<String>,
    left: &mut Microphone,
)
    requires
        *old(moved) == *old(microphone),
        *old(joined) == *old(microphone),
        *old(failed) == *old(microphone),
        *old(left) == *old(microphone),
        call_ensures(Microphone::next, (moved,), ()),
        call_ensures(Microphone::register, (joined, key, title), ()),
        call_ensures(Microphone::fail, (failed, &key, error), ()),
        call_ensures(Microphone::unregister, (left, &key), ()),
    ensures
        forall|other: RouteKey| #[trigger]
            final(moved).routes@.contains_key(other) ==> !final(moved).routes@[other].enabled,
        final(joined).routes@.contains_key(key) && !final(joined).routes@[key].enabled && final(joined).routes@[key].title == title,
        final(failed).routes@.contains_key(key) ==> !final(failed).routes@[key].enabled,
        error is Some ==> final(failed).error == error,
        !final(left).routes@.contains_key(key),
        forall|other: RouteKey|
            #![trigger final(left).routes@.contains_key(other)]
            other != key ==> final(left).routes@.contains_key(other) == old(left).routes@.contains_key(other),
{
}

/// The label says that the microphone is on exactly where it is on for the chosen recipient.
pub proof fn the_label_says_whether_it_is_on(microphone: &Microphone, key: RouteKey, r: String)
    requires
        microphone.wf(),
        call_ensures(Microphone::label, (microphone,), r),
        microphone.error is None,
        microphone.selected == Some(key),
        microphone.routes@.contains_key(key),
    ensures
        microphone.routes@[key].enabled ==> r@ == "MIC ON: "@ + microphone.routes@[key].title@,
        !microphone.routes@[key].enabled ==> r@ == "MIC OFF: "@ + microphone.routes@[key].title@,
{
}

/// The title of a recipient is no longer than the limit and has no control character; one that is
/// short and has none is kept as it is.
pub proof fn a_title_is_short_and_printable(title: &str, r: String)
    requires
        call_ensures(route_title, (Some(title),), r),
    ensures
        r@.len() <= 48,
        forall|i: int| 0 <= i < r@.len() ==> !is_control(#[trigger] r@[i]),
        title@.len() <= 48 && (forall|i: int|
            0 <= i < title@.len() ==> !is_control(#[trigger] title@[i])) ==> r@ == title@,
{
    lemma_printable_characters(title@);
}

proof fn lemma_printable_characters(title: Seq<char>)
    ensures
        printable(title).len() <= title.len(),
        forall|i: int| 0 <= i < printable(title).len() ==> !is_control(#[trigger] printable(title)[i]),
        (forall|i: int| 0 <= i < title.len() ==> !is_control(#[trigger] title[i])) ==> printable(title)
            == title,
    decreases title.len(),
{
    if title.len() > 0 {
        lemma_printable_characters(title.drop_last());
        if forall|i: int| 0 <= i < title.len() ==> !is_control(#[trigger] title[i]) {
            assert forall|i: int| 0 <= i < title.drop_last().len() implies !is_control(
                #[trigger] title.drop_last()[i],
            ) by {
                assert(title.drop_last()[i] == title[i]);
            }
            assert(!is_control(title[title.len() - 1]));
            assert(title.drop_last().push(title.last()) =~= title);
        }
    }
}

/// The newest sample is kept, and the oldest makes room for it: never more than a fifth of a second
/// is held.
pub proof fn the_newest_samples_are_kept<T>(
    queue: &mut VecDeque<(u64, T)>,
    sample_rate: u32,
    position: u64,
    sample: T,
)
    requires
        old(queue)@.len() <= sample_rate / 5,
        sample_rate >= 5,
        call_ensures(record_sample::<T>, (queue, sample_rate, position, sample), ()),
    ensures
        final(queue)@.len() * 5 <= sample_rate,
        final(queue)@.last() == (position, sample),
        (old(queue)@.len() + 1) * 5 <= sample_rate ==> final(queue)@.drop_last() == old(queue)@,
        final(queue)@.len() == old(queue)@.len() ==> final(queue)@.drop_last() == old(queue)@.drop_first(),
{
    assert(final(queue)@.drop_last() =~= (if old(queue)@.len() == sample_rate / 5 {
        old(queue)@.drop_first()
    } else {
        old(queue)@
    }));
}

/// The clock of a recording goes up by one packet for every packet that is sent, and never less.
/// Samples that follow on keep it; samples that were lost move it to where the next ones are, and
/// never back.
pub proof fn a_capture_clock_never_goes_back(
    clock: &mut CaptureClock,
    sent: Result<(), ClockExhausted>,
    next: &mut CaptureClock,
    first: u64,
    last: u64,
    r: Result<bool, ClockExhausted>,
)
    requires
        old(clock).wf(),
        call_ensures(CaptureClock::sent, (clock,), sent),
        *final(clock) == *old(next),
        call_ensures(CaptureClock::observe, (next, first, last), r),
    ensures
        sent is Ok ==> final(clock).last_pts_us == old(clock).pts_us && final(clock).pts_us == old(clock).pts_us + 20_000,
        r == Ok::<bool, ClockExhausted>(false) <==> first == old(next).expected,
        r == Ok::<bool, ClockExhausted>(false) ==> final(next).pts_us == old(next).pts_us,
        r is Ok ==> final(next).pts_us >= final(next).last_pts_us + 20_000,
        r is Ok && last < u64::MAX ==> final(next).expected == last + 1,
        r == Ok::<bool, ClockExhausted>(true) && first * 1_000_000 <= u64::MAX && final(next).pts_us
            != final(next).last_pts_us + 20_000 ==> {
            &&& final(next).pts_us * old(next).sample_rate <= first * 1_000_000
            &&& first * 1_000_000 < (final(next).pts_us + 1) * old(next).sample_rate
        },
{
    let rate: int = old(next).sample_rate as int;
    let position = first * 1_000_000;
    if position <= u64::MAX {
        let here = position / rate;
        vstd::arithmetic::div_mod::lemma_fundamental_div_mod(position, rate);
        vstd::arithmetic::div_mod::lemma_mod_bound(position, rate);
        assert((here + 1) * rate == here * rate + rate && rate * here == here * rate)
            by (nonlinear_arith);
    }
}

/// A device is recorded from where it has between one and eight channels at a usual rate.
pub proof fn usual_devices_are_recorded_from(sample_rate: u32, channels: u16, r: bool)
    requires
        call_ensures(capture_supported, (sample_rate, channels), r),
    ensures
        r <==> channels >= 1 && channels <= 8 && sample_rate >= 8_000 && sample_rate <= 192_000,
{
}

} // verus!
