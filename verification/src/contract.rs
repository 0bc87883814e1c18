//! Finite resource contracts.

use vstd::prelude::*;
use vivid_protocol::cbor::Value;

use crate::value::{entries_value, payload_view, unsigned, value_view, ValueView};

verus! {

/// How many resources a contract bounds.
pub const RESOURCE_COUNT: usize = 33;

/// A resource that a contract bounds.
#[derive(Debug, Clone, Copy, PartialEq, Eq, Structural)]
pub enum Resource {
    Surfaces,
    Tracks,
    Nodes,
    VideoTracks,
    AudioTracks,
    RasterTracks,
    ImageTracks,
    DecoderInstances,
    CodedPixelsPerTrack,
    DecodedPixelsPerSecond,
    EncodedBitsPerSecond,
    MediaRecordsPerSecond,
    AudioSampleRate,
    AudioChannelsPerTrack,
    InflightMediaBytes,
    TrackConnections,
    RetainedPixels,
    MediaRecordBody,
    ControlRecordBody,
    PendingRequests,
    RegisteredWaits,
    IdempotencyEntries,
    ChildSessionLeases,
    DisconnectGraceUs,
    InputEventsPerSecond,
    ObservationQueueEntries,
    ImageCacheBytes,
    OpenSceneTransactions,
    ChildContexts,
    SuspendedChildSessions,
    PendingChannelOpenAttempts,
    ActiveTerminalAnchors,
    SeenTerminalAnchorIds,
}

impl Resource {
    /// The key of a resource in an encoded contract.
    pub open spec fn key(self) -> int {
        match self {
            Resource::Surfaces => 0,
            Resource::Tracks => 1,
            Resource::Nodes => 2,
            Resource::VideoTracks => 3,
            Resource::AudioTracks => 4,
            Resource::RasterTracks => 5,
            Resource::ImageTracks => 6,
            Resource::DecoderInstances => 7,
            Resource::CodedPixelsPerTrack => 8,
            Resource::DecodedPixelsPerSecond => 9,
            Resource::EncodedBitsPerSecond => 10,
            Resource::MediaRecordsPerSecond => 11,
            Resource::AudioSampleRate => 12,
            Resource::AudioChannelsPerTrack => 13,
            Resource::InflightMediaBytes => 14,
            Resource::TrackConnections => 15,
            Resource::RetainedPixels => 16,
            Resource::MediaRecordBody => 17,
            Resource::ControlRecordBody => 18,
            Resource::PendingRequests => 19,
            Resource::RegisteredWaits => 20,
            Resource::IdempotencyEntries => 21,
            Resource::ChildSessionLeases => 22,
            Resource::DisconnectGraceUs => 23,
            Resource::InputEventsPerSecond => 24,
            Resource::ObservationQueueEntries => 25,
            Resource::ImageCacheBytes => 26,
            Resource::OpenSceneTransactions => 27,
            Resource::ChildContexts => 28,
            Resource::SuspendedChildSessions => 29,
            Resource::PendingChannelOpenAttempts => 30,
            Resource::ActiveTerminalAnchors => 31,
            Resource::SeenTerminalAnchorIds => 32,
        }
    }

    fn index(self) -> (r: usize)
        ensures
            r == self.key(),
            r < RESOURCE_COUNT,
    {
        match self {
            Resource::Surfaces => 0,
            Resource::Tracks => 1,
            Resource::Nodes => 2,
            Resource::VideoTracks => 3,
            Resource::AudioTracks => 4,
            Resource::RasterTracks => 5,
            Resource::ImageTracks => 6,
            Resource::DecoderInstances => 7,
            Resource::CodedPixelsPerTrack => 8,
            Resource::DecodedPixelsPerSecond => 9,
            Resource::EncodedBitsPerSecond => 10,
            Resource::MediaRecordsPerSecond => 11,
            Resource::AudioSampleRate => 12,
            Resource::AudioChannelsPerTrack => 13,
            Resource::InflightMediaBytes => 14,
            Resource::TrackConnections => 15,
            Resource::RetainedPixels => 16,
            Resource::MediaRecordBody => 17,
            Resource::ControlRecordBody => 18,
            Resource::PendingRequests => 19,
            Resource::RegisteredWaits => 20,
            Resource::IdempotencyEntries => 21,
            Resource::ChildSessionLeases => 22,
            Resource::DisconnectGraceUs => 23,
            Resource::InputEventsPerSecond => 24,
            Resource::ObservationQueueEntries => 25,
            Resource::ImageCacheBytes => 26,
            Resource::OpenSceneTransactions => 27,
            Resource::ChildContexts => 28,
            Resource::SuspendedChildSessions => 29,
            Resource::PendingChannelOpenAttempts => 30,
            Resource::ActiveTerminalAnchors => 31,
            Resource::SeenTerminalAnchorIds => 32,
        }
    }
}

/// A ceiling for every resource.
#[derive(Debug, Clone, Copy, PartialEq, Eq)]
pub struct ResourceContract {
    pub values: [u64; 33],
}

impl ResourceContract {
    /// The ceiling of a resource.
    pub open spec fn ceiling(&self, resource: Resource) -> u64 {
        self.values@[resource.key()]
    }

    /// A contract that allows nothing.
    pub fn denied() -> (r: Self)
        ensures
            forall|i: int| 0 <= i < RESOURCE_COUNT ==> r.values@[i] == 0,
    {
        ResourceContract { values: [0u64; 33] }
    }

    /// The ceiling of a resource.
    pub fn get(&self, resource: Resource) -> (r: u64)
        ensures
            r == self.ceiling(resource),
    {
        self.values[resource.index()]
    }

    /// Set the ceiling of a resource.
    pub fn set(&mut self, resource: Resource, value: u64)
        ensures
            final(self).values@ == old(self).values@.update(resource.key(), value),
    {
        self.values[resource.index()] = value;
    }

    /// The encoded contract: every ceiling under its key.
    pub open spec fn encoded(&self) -> Seq<(u64, ValueView)> {
        Seq::new(
            RESOURCE_COUNT as nat,
            |i: int| (i as u64, ValueView::Unsigned(self.values@[i])),
        )
    }

    /// The encoded contract.
    pub(crate) fn to_value(&self) -> (r: Value)
        ensures
            value_view(r) == ValueView::Entries(self.encoded()),
    {
        let mut entries: Vec<(u64, Value)> = Vec::new();
        let mut index: usize = 0;
        while index < RESOURCE_COUNT
            invariant
                index <= RESOURCE_COUNT,
                entries@.len() == index,
                self.values@.len() == RESOURCE_COUNT,
                forall|i: int|
                    0 <= i < index ==> (#[trigger] payload_view(entries@)[i]) == (
                        i as u64,
                        ValueView::Unsigned(self.values@[i]),
                    ),
            decreases RESOURCE_COUNT - index,
        {
            let ghost earlier = entries@;
            entries.push((index as u64, unsigned(self.values[index])));
            assert forall|i: int| 0 <= i < index + 1 implies (#[trigger] payload_view(entries@)[i])
                == (i as u64, ValueView::Unsigned(self.values@[i])) by {
                if i < index {
                    assert(payload_view(earlier)[i] == (
                        i as u64,
                        ValueView::Unsigned(self.values@[i]),
                    ));
                }
            }
            index = index + 1;
        }
        assert(payload_view(entries@) =~= self.encoded());
        entries_value(entries)
    }
}

/// The larger body a browser carrier takes on its control connection.
pub const WEB_CONTROL_RECORD_BODY: u64 = 262_144;

/// The larger body a browser carrier takes on a media connection.
pub const WEB_MEDIA_RECORD_BODY: u64 = 8_388_608;

/// What a browser carrier reassembles at once.
pub const WEB_AGGREGATE_REASSEMBLY: u64 = 33_554_432;

/// The smaller of two ceilings.
pub open spec fn least(left: u64, right: u64) -> u64 {
    if left <= right {
        left
    } else {
        right
    }
}

fn smaller(left: u64, right: u64) -> (r: u64)
    ensures
        r == least(left, right),
{
    if left <= right {
        left
    } else {
        right
    }
}

/// Reduce a session contract to what a browser carrier can deliver.
pub fn clamp_contract_for_web(contract: &mut ResourceContract)
    ensures
        final(contract).values@ == web_clamped(old(contract).values@),
{
    let control = smaller(contract.get(Resource::ControlRecordBody), WEB_CONTROL_RECORD_BODY);
    contract.set(Resource::ControlRecordBody, control);
    let media = smaller(contract.get(Resource::MediaRecordBody), WEB_MEDIA_RECORD_BODY);
    contract.set(Resource::MediaRecordBody, media);
    let inflight = smaller(contract.get(Resource::InflightMediaBytes), WEB_AGGREGATE_REASSEMBLY);
    contract.set(Resource::InflightMediaBytes, inflight);
}

/// A contract that a browser can carry: the three ceilings that it bounds are reduced to its own.
pub open spec fn web_clamped(values: Seq<u64>) -> Seq<u64> {
    let control = Resource::ControlRecordBody.key();
    let media = Resource::MediaRecordBody.key();
    let inflight = Resource::InflightMediaBytes.key();
    values.update(control, least(values[control], WEB_CONTROL_RECORD_BODY)).update(
        media,
        least(values[media], WEB_MEDIA_RECORD_BODY),
    ).update(inflight, least(values[inflight], WEB_AGGREGATE_REASSEMBLY))
}

/// Whether a contract is the one of every session this presenter admits.
pub open spec fn is_presenter_contract(values: Seq<u64>) -> bool {
    forall|resource: Resource|
        values[#[trigger] resource.key()] == presenter_ceiling(resource)
}

/// The ceilings of every session this presenter admits.
pub open spec fn presenter_ceiling(resource: Resource) -> u64 {
    match resource {
        Resource::Surfaces => 64,
        Resource::Tracks => 256,
        Resource::Nodes => 256,
        Resource::VideoTracks => 32,
        Resource::AudioTracks => 32,
        Resource::RasterTracks => 64,
        Resource::ImageTracks => 64,
        Resource::DecoderInstances => 64,
        Resource::CodedPixelsPerTrack => 67_108_864,
        Resource::DecodedPixelsPerSecond => 4_026_531_840,
        Resource::EncodedBitsPerSecond => 1_000_000_000,
        Resource::MediaRecordsPerSecond => 4000,
        Resource::AudioSampleRate => 192_000,
        Resource::AudioChannelsPerTrack => 32,
        Resource::InflightMediaBytes => 268_435_456,
        Resource::TrackConnections => 64,
        Resource::RetainedPixels => 134_217_728,
        Resource::MediaRecordBody => 67_108_864,
        Resource::ControlRecordBody => 1_048_576,
        Resource::PendingRequests => 256,
        Resource::RegisteredWaits => 64,
        Resource::IdempotencyEntries => 256,
        Resource::ObservationQueueEntries => 64,
        Resource::ImageCacheBytes => 67_108_864,
        Resource::OpenSceneTransactions => 64,
        Resource::ChildContexts => 64,
        Resource::PendingChannelOpenAttempts => 64,
        Resource::ActiveTerminalAnchors => 4096,
        Resource::SeenTerminalAnchorIds => 8192,
        _ => 0,
    }
}

/// The contract of every session this presenter admits.
pub fn presenter_contract() -> (r: ResourceContract)
    ensures
        is_presenter_contract(r.values@),
{
    let mut contract = ResourceContract::denied();
    contract.set(Resource::Surfaces, 64);
    contract.set(Resource::Tracks, 256);
    contract.set(Resource::Nodes, 256);
    contract.set(Resource::VideoTracks, 32);
    contract.set(Resource::AudioTracks, 32);
    contract.set(Resource::RasterTracks, 64);
    contract.set(Resource::ImageTracks, 64);
    contract.set(Resource::DecoderInstances, 64);
    contract.set(Resource::CodedPixelsPerTrack, 67_108_864);
    contract.set(Resource::DecodedPixelsPerSecond, 4_026_531_840);
    contract.set(Resource::EncodedBitsPerSecond, 1_000_000_000);
    contract.set(Resource::MediaRecordsPerSecond, 4000);
    contract.set(Resource::AudioSampleRate, 192_000);
    contract.set(Resource::AudioChannelsPerTrack, 32);
    contract.set(Resource::InflightMediaBytes, 268_435_456);
    contract.set(Resource::TrackConnections, 64);
    contract.set(Resource::RetainedPixels, 134_217_728);
    contract.set(Resource::MediaRecordBody, 67_108_864);
    contract.set(Resource::ControlRecordBody, 1_048_576);
    contract.set(Resource::PendingRequests, 256);
    contract.set(Resource::RegisteredWaits, 64);
    contract.set(Resource::IdempotencyEntries, 256);
    contract.set(Resource::ObservationQueueEntries, 64);
    contract.set(Resource::ImageCacheBytes, 67_108_864);
    contract.set(Resource::OpenSceneTransactions, 64);
    contract.set(Resource::ChildContexts, 64);
    contract.set(Resource::PendingChannelOpenAttempts, 64);
    contract.set(Resource::ActiveTerminalAnchors, 4096);
    contract.set(Resource::SeenTerminalAnchorIds, 8192);
    contract
}

/// Clamping for a browser never raises a ceiling, and clamping twice is clamping once.
pub proof fn the_web_clamp_is_a_reduction(values: Seq<u64>, resource: int)
    requires
        values.len() == RESOURCE_COUNT,
        0 <= resource < RESOURCE_COUNT,
    ensures
        web_clamped(values)[resource] <= values[resource],
        web_clamped(web_clamped(values)) == web_clamped(values),
{
    assert(web_clamped(web_clamped(values)) =~= web_clamped(values));
}

/// The resources of a contract stand in one row, each right behind the one before it.
pub proof fn the_resources_stand_in_one_row()
    ensures
        Resource::Surfaces.key() == 0,
        Resource::Tracks.key() == Resource::Surfaces.key() + 1,
        Resource::Nodes.key() == Resource::Tracks.key() + 1,
        Resource::VideoTracks.key() == Resource::Nodes.key() + 1,
        Resource::AudioTracks.key() == Resource::VideoTracks.key() + 1,
        Resource::RasterTracks.key() == Resource::AudioTracks.key() + 1,
        Resource::ImageTracks.key() == Resource::RasterTracks.key() + 1,
        Resource::DecoderInstances.key() == Resource::ImageTracks.key() + 1,
        Resource::CodedPixelsPerTrack.key() == Resource::DecoderInstances.key() + 1,
        Resource::DecodedPixelsPerSecond.key() == Resource::CodedPixelsPerTrack.key() + 1,
        Resource::EncodedBitsPerSecond.key() == Resource::DecodedPixelsPerSecond.key() + 1,
        Resource::MediaRecordsPerSecond.key() == Resource::EncodedBitsPerSecond.key() + 1,
        Resource::AudioSampleRate.key() == Resource::MediaRecordsPerSecond.key() + 1,
        Resource::AudioChannelsPerTrack.key() == Resource::AudioSampleRate.key() + 1,
        Resource::InflightMediaBytes.key() == Resource::AudioChannelsPerTrack.key() + 1,
        Resource::TrackConnections.key() == Resource::InflightMediaBytes.key() + 1,
        Resource::RetainedPixels.key() == Resource::TrackConnections.key() + 1,
        Resource::MediaRecordBody.key() == Resource::RetainedPixels.key() + 1,
        Resource::ControlRecordBody.key() == Resource::MediaRecordBody.key() + 1,
        Resource::PendingRequests.key() == Resource::ControlRecordBody.key() + 1,
        Resource::RegisteredWaits.key() == Resource::PendingRequests.key() + 1,
        Resource::IdempotencyEntries.key() == Resource::RegisteredWaits.key() + 1,
        Resource::ChildSessionLeases.key() == Resource::IdempotencyEntries.key() + 1,
        Resource::DisconnectGraceUs.key() == Resource::ChildSessionLeases.key() + 1,
        Resource::InputEventsPerSecond.key() == Resource::DisconnectGraceUs.key() + 1,
        Resource::ObservationQueueEntries.key() == Resource::InputEventsPerSecond.key() + 1,
        Resource::ImageCacheBytes.key() == Resource::ObservationQueueEntries.key() + 1,
        Resource::OpenSceneTransactions.key() == Resource::ImageCacheBytes.key() + 1,
        Resource::ChildContexts.key() == Resource::OpenSceneTransactions.key() + 1,
        Resource::SuspendedChildSessions.key() == Resource::ChildContexts.key() + 1,
        Resource::PendingChannelOpenAttempts.key() == Resource::SuspendedChildSessions.key() + 1,
        Resource::ActiveTerminalAnchors.key() == Resource::PendingChannelOpenAttempts.key() + 1,
        Resource::SeenTerminalAnchorIds.key() == Resource::ActiveTerminalAnchors.key() + 1,
{
}

/// Every resource has a place of its own.
pub proof fn every_resource_has_a_place_of_its_own(left: Resource, right: Resource)
    ensures
        0 <= left.key() < 33,
        left.key() == right.key() <==> left == right,
{
}

/// What is set for a resource is what the contract says of it, and nothing else of the contract
/// changes.
pub proof fn what_is_set_is_what_is_got(
    contract: &mut ResourceContract,
    resource: Resource,
    value: u64,
    other: Resource,
    got: u64,
    before: u64,
    after: u64,
)
    requires
        other != resource,
        call_ensures(ResourceContract::set, (contract, resource, value), ()),
        call_ensures(ResourceContract::get, (&*final(contract), resource), got),
        call_ensures(ResourceContract::get, (&*old(contract), other), before),
        call_ensures(ResourceContract::get, (&*final(contract), other), after),
    ensures
        got == value,
        after == before,
{
    every_resource_has_a_place_of_its_own(resource, other);
}

/// A contract is told with every resource under its own number.
pub proof fn a_contract_is_told_in_full(contract: &ResourceContract, resource: Resource)
    ensures
        contract.encoded().len() == 33,
        contract.encoded()[resource.key()] == (
            resource.key() as u64,
            ValueView::Unsigned(contract.ceiling(resource)),
        ),
{
}

/// What nobody was granted is nothing.
pub proof fn a_denied_contract_grants_nothing(r: ResourceContract, resource: Resource)
    requires
        call_ensures(ResourceContract::denied, (), r),
    ensures
        r.ceiling(resource) == 0,
{
}

/// A contract for the web is held to what the web carries, in the three resources that it carries
/// less of, and in no other; what is within it already stays.
pub proof fn the_web_is_held_to_what_it_carries(contract: &mut ResourceContract, resource: Resource)
    requires
        call_ensures(clamp_contract_for_web, (contract,), ()),
    ensures
        final(contract).ceiling(Resource::ControlRecordBody) <= 262_144,
        final(contract).ceiling(Resource::MediaRecordBody) <= 8_388_608,
        final(contract).ceiling(Resource::InflightMediaBytes) <= 33_554_432,
        !(resource is ControlRecordBody) && !(resource is MediaRecordBody) && !(
        resource is InflightMediaBytes) ==> final(contract).ceiling(resource) == old(contract).ceiling(resource),
        old(contract).ceiling(Resource::ControlRecordBody) <= 262_144 ==> final(contract).ceiling(
            Resource::ControlRecordBody,
        ) == old(contract).ceiling(Resource::ControlRecordBody),
        old(contract).ceiling(Resource::MediaRecordBody) <= 8_388_608 ==> final(contract).ceiling(
            Resource::MediaRecordBody,
        ) == old(contract).ceiling(Resource::MediaRecordBody),
        old(contract).ceiling(Resource::InflightMediaBytes) <= 33_554_432 ==> final(contract).ceiling(Resource::InflightMediaBytes) == old(contract).ceiling(
            Resource::InflightMediaBytes,
        ),
{
    every_resource_has_a_place_of_its_own(resource, Resource::ControlRecordBody);
    every_resource_has_a_place_of_its_own(resource, Resource::MediaRecordBody);
    every_resource_has_a_place_of_its_own(resource, Resource::InflightMediaBytes);
}

/// What the presenter grants hangs together: no kind of track may outnumber the tracks, a record
/// fits into what may be in flight, every anchor that is active was seen, and a frame of the largest
/// side fits a track sixty times a second.
pub proof fn the_presenter_grants_hang_together(r: ResourceContract)
    requires
        call_ensures(presenter_contract, (), r),
    ensures
        r.ceiling(Resource::VideoTracks) + r.ceiling(Resource::AudioTracks) + r.ceiling(
            Resource::RasterTracks,
        ) + r.ceiling(Resource::ImageTracks) <= r.ceiling(Resource::Tracks),
        r.ceiling(Resource::DecoderInstances) >= r.ceiling(Resource::VideoTracks) + r.ceiling(
            Resource::AudioTracks,
        ),
        r.ceiling(Resource::MediaRecordBody) <= r.ceiling(Resource::InflightMediaBytes),
        r.ceiling(Resource::ControlRecordBody) < r.ceiling(Resource::MediaRecordBody),
        r.ceiling(Resource::RegisteredWaits) <= r.ceiling(Resource::PendingRequests),
        r.ceiling(Resource::ActiveTerminalAnchors) <= r.ceiling(Resource::SeenTerminalAnchorIds),
        r.ceiling(Resource::CodedPixelsPerTrack) == 8192 * 8192,
        r.ceiling(Resource::DecodedPixelsPerSecond) == 60 * r.ceiling(Resource::CodedPixelsPerTrack),
        r.ceiling(Resource::RetainedPixels) == 2 * r.ceiling(Resource::CodedPixelsPerTrack),
        r.ceiling(Resource::ChildSessionLeases) == 0 && r.ceiling(Resource::DisconnectGraceUs) == 0
            && r.ceiling(Resource::InputEventsPerSecond) == 0 && r.ceiling(
            Resource::SuspendedChildSessions,
        ) == 0,
{
    assert(r.values@[Resource::VideoTracks.key()] == presenter_ceiling(Resource::VideoTracks));
    assert(r.values@[Resource::AudioTracks.key()] == presenter_ceiling(Resource::AudioTracks));
    assert(r.values@[Resource::RasterTracks.key()] == presenter_ceiling(Resource::RasterTracks));
    assert(r.values@[Resource::ImageTracks.key()] == presenter_ceiling(Resource::ImageTracks));
}

} // verus!
