//! Immutable track configurations, as far as the presenter reads them.

use vstd::prelude::*;
use vivid_protocol::cbor::Value;
use vivid_protocol::messages::MessageError;

use crate::number::{product, sum, unsigned_64};
use crate::value::{payload_view, value_view, ValueView};

verus! {

/// The slot of the picture a surface plays.
pub const SLOT_PRIMARY_VIDEO: u64 = 1;

/// The slot of the sound a surface plays.
pub const SLOT_AUDIO: u64 = 2;

/// The slot of the raster a surface shows.
pub const SLOT_RASTER: u64 = 3;

/// The slot of the still image a surface shows.
pub const SLOT_POSTER: u64 = 4;

/// How much live audio may be in flight: what is dropped of it cannot be heard later.
pub const LIVE_AUDIO_FLOW_RESERVE_US: u64 = 2_000_000;

/// The largest gain, twice the amplitude in 32.32 fixed point.
pub const MAXIMUM_AUDIO_GAIN: u64 = 0x2_0000_0000;

/// Whether media is shown as it comes or by its clock.
#[derive(Debug, Clone, Copy, PartialEq, Eq, Structural)]
pub enum TrackMode {
    Live,
    Timed,
}

impl TrackMode {
    /// The code of a mode.
    pub open spec fn code_spec(self) -> u64 {
        match self {
            TrackMode::Live => 1,
            TrackMode::Timed => 2,
        }
    }

    /// The code of a mode.
    pub fn code(self) -> (r: u64)
        ensures
            r == self.code_spec(),
    {
        match self {
            TrackMode::Live => 1,
            TrackMode::Timed => 2,
        }
    }
}

/// What a connection carries, by how urgent it is.
#[derive(Debug, Clone, Copy, PartialEq, Eq, Structural)]
pub enum LaneClass {
    Control,
    Interactive,
    Realtime,
    Bulk,
}

impl LaneClass {
    /// The code of a lane.
    pub open spec fn code_spec(self) -> u64 {
        match self {
            LaneClass::Control => 0,
            LaneClass::Interactive => 1,
            LaneClass::Realtime => 2,
            LaneClass::Bulk => 3,
        }
    }

    /// The code of a lane.
    pub fn code(self) -> (r: u64)
        ensures
            r == self.code_spec(),
    {
        match self {
            LaneClass::Control => 0,
            LaneClass::Interactive => 1,
            LaneClass::Realtime => 2,
            LaneClass::Bulk => 3,
        }
    }
}

/// What a track carries.
#[derive(Debug, Clone, Copy, PartialEq, Eq, Structural)]
pub enum TrackKind {
    Video,
    Audio,
    Raster,
    EncodedImage,
    VectorScene,
}

impl TrackKind {
    /// The code of a kind.
    pub open spec fn code_spec(self) -> u64 {
        match self {
            TrackKind::Video => 1,
            TrackKind::Audio => 2,
            TrackKind::Raster => 3,
            TrackKind::EncodedImage => 4,
            TrackKind::VectorScene => 5,
        }
    }

    /// The code of a kind.
    pub fn code(self) -> (r: u64)
        ensures
            r == self.code_spec(),
    {
        match self {
            TrackKind::Video => 1,
            TrackKind::Audio => 2,
            TrackKind::Raster => 3,
            TrackKind::EncodedImage => 4,
            TrackKind::VectorScene => 5,
        }
    }
}

/// What is read of a video configuration.
#[derive(Debug, Clone, Copy, PartialEq, Eq, Structural)]
pub struct VideoConfiguration {
    pub aspect_numerator: u64,
    pub aspect_denominator: u64,
}

/// A raster configuration.
#[derive(Debug, Clone, Copy, PartialEq, Eq, Structural)]
pub struct RasterConfiguration {
    pub width: u32,
    pub height: u32,
    pub alpha_mode: u64,
    pub delta_enabled: bool,
    pub maximum_delta_operations: u8,
    pub zstd_enabled: bool,
}

/// What is read of an image configuration.
#[derive(Debug, Clone, Copy, PartialEq, Eq)]
pub struct ImageConfiguration {
    pub encoding: u64,
    pub width: u32,
    pub height: u32,
    pub encoded_length: u32,
    pub sha256: Option<[u8; 32]>,
}

/// What a track carries, and how.
#[derive(Debug, Clone, Copy, PartialEq, Eq)]
pub enum KindConfiguration {
    Video(VideoConfiguration),
    Audio,
    Raster(RasterConfiguration),
    EncodedImage(ImageConfiguration),
    VectorScene,
}

impl KindConfiguration {
    /// What the track carries.
    pub open spec fn kind_spec(self) -> TrackKind {
        match self {
            KindConfiguration::Video(_) => TrackKind::Video,
            KindConfiguration::Audio => TrackKind::Audio,
            KindConfiguration::Raster(_) => TrackKind::Raster,
            KindConfiguration::EncodedImage(_) => TrackKind::EncodedImage,
            KindConfiguration::VectorScene => TrackKind::VectorScene,
        }
    }

    /// What the track carries.
    pub fn kind(&self) -> (r: TrackKind)
        ensures
            r == self.kind_spec(),
    {
        match self {
            KindConfiguration::Video(_) => TrackKind::Video,
            KindConfiguration::Audio => TrackKind::Audio,
            KindConfiguration::Raster(_) => TrackKind::Raster,
            KindConfiguration::EncodedImage(_) => TrackKind::EncodedImage,
            KindConfiguration::VectorScene => TrackKind::VectorScene,
        }
    }
}

/// What is read of a track configuration.
#[derive(Debug, Clone, Copy, PartialEq, Eq)]
pub struct TrackSettings {
    pub context_id: u64,
    pub surface_id: u64,
    pub track_id: u64,
    pub slot: u64,
    pub mode: TrackMode,
    pub lane: LaneClass,
    pub maximum_record_body: u32,
    pub maximum_encoded_bits_per_second: u64,
    pub maximum_records_per_second: u64,
    pub maximum_inflight_body_bytes: u64,
    pub kind: KindConfiguration,
    pub maximum_latency_us: u64,
}

/// A complete track configuration, held by the codec's own type.
#[verifier::external_type_specification]
#[verifier::external_body]
pub struct ExTrackConfiguration(vivid_protocol::track::TrackConfiguration);

/// What is read of a complete configuration.
pub uninterp spec fn track_view(configuration: vivid_protocol::track::TrackConfiguration) ->
    TrackSettings;

/// The payload that a complete configuration is sent as.
pub uninterp spec fn track_fields(
    configuration: vivid_protocol::track::TrackConfiguration,
    probe: bool,
) -> Option<Seq<(u64, ValueView)>>;

/// What is read of the configuration that a payload holds, where it is valid.
pub uninterp spec fn track_decoded(object_id: u64, payload: ValueView, probe: bool) -> Option<
    TrackSettings,
>;

/// `vivid_protocol::track::TrackConfiguration::decode`: the configuration depends on the object ID,
/// the payload and the rules that are asked for, and is refused where it is not valid.
#[verifier::external_body]
pub(crate) fn decode_track(object_id: u64, payload: &Value, probe: bool) -> (r: Result<
    vivid_protocol::track::TrackConfiguration,
    MessageError,
>)
    ensures
        match r {
            Ok(configuration) => track_decoded(object_id, value_view(*payload), probe) == Some(
                track_view(configuration),
            ),
            Err(_) => track_decoded(object_id, value_view(*payload), probe) is None,
        },
{
    vivid_protocol::track::TrackConfiguration::decode(object_id, payload, probe)
}

/// `vivid_protocol::track::TrackConfiguration::payload`: the payload depends on the configuration
/// and the rules that are asked for, and is refused where the configuration breaks them.
#[verifier::external_body]
pub(crate) fn track_payload(configuration: &vivid_protocol::track::TrackConfiguration, probe: bool) -> (r:
    Result<Vec<(u64, Value)>, MessageError>)
    ensures
        match r {
            Ok(fields) => track_fields(*configuration, probe) == Some(payload_view(fields@)),
            Err(_) => track_fields(*configuration, probe) is None,
        },
{
    configuration.payload(probe)
}

/// The public field `vivid_protocol::track::TrackConfiguration::kind`, moved over field by field.
#[verifier::external_body]
fn kind_of(configuration: &vivid_protocol::track::TrackConfiguration) -> (r: KindConfiguration)
    ensures
        r == track_view(*configuration).kind,
{
    match &configuration.kind {
        vivid_protocol::track::KindConfiguration::Video(v) => KindConfiguration::Video(
            VideoConfiguration { aspect_numerator: v.aspect_numerator, aspect_denominator: v.aspect_denominator }),
        vivid_protocol::track::KindConfiguration::Audio(_) => KindConfiguration::Audio,
        vivid_protocol::track::KindConfiguration::Raster(r) => KindConfiguration::Raster(
            RasterConfiguration { width: r.width, height: r.height, alpha_mode: r.alpha_mode,
                delta_enabled: r.delta_enabled, maximum_delta_operations: r.maximum_delta_operations,
                zstd_enabled: r.zstd_enabled }),
        vivid_protocol::track::KindConfiguration::EncodedImage(i) => KindConfiguration::EncodedImage(
            ImageConfiguration { encoding: i.encoding, width: i.width, height: i.height,
                encoded_length: i.encoded_length, sha256: i.sha256 }),
        vivid_protocol::track::KindConfiguration::VectorScene(_) => KindConfiguration::VectorScene,
    }
}

/// The public fields `mode` and `lane` of `vivid_protocol::track::TrackConfiguration`, moved over.
#[verifier::external_body]
fn classes_of(configuration: &vivid_protocol::track::TrackConfiguration) -> (r: (TrackMode, LaneClass))
    ensures
        r == (track_view(*configuration).mode, track_view(*configuration).lane),
{
    let mode = match configuration.mode {
        vivid_protocol::track::TrackMode::Live => TrackMode::Live,
        vivid_protocol::track::TrackMode::Timed => TrackMode::Timed,
    };
    let lane = match configuration.lane {
        vivid_protocol::messages::LaneClass::Control => LaneClass::Control,
        vivid_protocol::messages::LaneClass::Interactive => LaneClass::Interactive,
        vivid_protocol::messages::LaneClass::Realtime => LaneClass::Realtime,
        vivid_protocol::messages::LaneClass::Bulk => LaneClass::Bulk,
    };
    (mode, lane)
}

/// The public number fields of `vivid_protocol::track::TrackConfiguration`, moved over beside the
/// classes and the kind that are given.
#[verifier::external_body]
fn numbers_of(
    configuration: &vivid_protocol::track::TrackConfiguration,
    classes: (TrackMode, LaneClass),
    kind: KindConfiguration,
) -> (r: TrackSettings)
    ensures
        r == (TrackSettings {
            mode: classes.0,
            lane: classes.1,
            kind,
            ..track_view(*configuration)
        }),
{
    TrackSettings {
        context_id: configuration.context_id,
        surface_id: configuration.surface_id,
        track_id: configuration.track_id,
        slot: configuration.slot,
        mode: classes.0, lane: classes.1, kind,
        maximum_record_body: configuration.maximum_record_body,
        maximum_encoded_bits_per_second: configuration.maximum_encoded_bits_per_second,
        maximum_records_per_second: configuration.maximum_records_per_second,
        maximum_inflight_body_bytes: configuration.maximum_inflight_body_bytes,
        maximum_latency_us: configuration.maximum_latency_us,
    }
}

/// What is read of a complete configuration.
pub fn read_track(configuration: &vivid_protocol::track::TrackConfiguration) -> (r: TrackSettings)
    ensures
        r == track_view(*configuration),
{
    numbers_of(configuration, classes_of(configuration), kind_of(configuration))
}

/// Whether the presenter plays a track, where whether its codec can be decoded is known.
pub open spec fn track_supported(configuration: TrackSettings, decodable: bool) -> bool {
    match configuration.kind {
        KindConfiguration::Video(_) => configuration.slot == SLOT_PRIMARY_VIDEO && decodable,
        KindConfiguration::Audio => configuration.slot == SLOT_AUDIO && decodable,
        KindConfiguration::Raster(_) => configuration.slot == SLOT_RASTER || configuration.slot
            == SLOT_POSTER,
        KindConfiguration::EncodedImage(_) => configuration.slot == SLOT_POSTER,
        KindConfiguration::VectorScene => false,
    }
}

/// Whether the presenter plays a track. What the decoder says matters for sound and video only.
pub fn supports_track(configuration: &TrackSettings, decodable: bool) -> (r: bool)
    ensures
        r == track_supported(*configuration, decodable),
        configuration.kind is Video ==> r == (decodable && configuration.slot == SLOT_PRIMARY_VIDEO),
        configuration.kind is Audio ==> r == (decodable && configuration.slot == SLOT_AUDIO),
        configuration.kind is Raster ==> r == (configuration.slot == SLOT_RASTER
            || configuration.slot == SLOT_POSTER),
        configuration.kind is EncodedImage ==> r == (configuration.slot == SLOT_POSTER),
        configuration.kind is VectorScene ==> !r,
{
    match configuration.kind {
        KindConfiguration::Video(_) => configuration.slot == SLOT_PRIMARY_VIDEO && decodable,
        KindConfiguration::Audio => configuration.slot == SLOT_AUDIO && decodable,
        KindConfiguration::Raster(_) => configuration.slot == SLOT_RASTER || configuration.slot
            == SLOT_POSTER,
        KindConfiguration::EncodedImage(_) => configuration.slot == SLOT_POSTER,
        KindConfiguration::VectorScene => false,
    }
}

/// A quotient, rounded up.
pub open spec fn rounded_up(numerator: int, denominator: int) -> int {
    (numerator + denominator - 1) / denominator
}

fn divide_up(numerator: u64, denominator: u64) -> (r: u64)
    requires
        denominator > 1,
    ensures
        r == rounded_up(numerator as int, denominator as int),
{
    let quotient: u64 = numerator / denominator;
    let remainder: u64 = numerator % denominator;
    proof {
        let n = numerator as int;
        let d = denominator as int;
        vstd::arithmetic::div_mod::lemma_fundamental_div_mod(n, d);
        if remainder == 0 {
            assert(n + d - 1 == d * quotient + (d - 1));
            vstd::arithmetic::div_mod::lemma_fundamental_div_mod_converse(
                n + d - 1,
                d,
                quotient as int,
                d - 1,
            );
        } else {
            assert(n + d - 1 == (quotient + 1) * d + (remainder - 1)) by (nonlinear_arith)
                requires
                    n == d * quotient + remainder,
            ;
            vstd::arithmetic::div_mod::lemma_fundamental_div_mod_converse(
                n + d - 1,
                d,
                quotient + 1,
                remainder - 1,
            );
        }
        assert(quotient <= numerator / 2) by (nonlinear_arith)
            requires
                quotient == numerator / denominator,
                denominator >= 2,
        ;
    }
    if remainder == 0 {
        quotient
    } else {
        quotient + 1
    }
}

/// For how long media of a track may be in flight.
pub open spec fn flow_horizon(configuration: TrackSettings) -> u64 {
    if configuration.mode == TrackMode::Live && configuration.kind is Audio {
        LIVE_AUDIO_FLOW_RESERVE_US
    } else if configuration.maximum_latency_us == 0 {
        1
    } else {
        configuration.maximum_latency_us
    }
}

/// How many bytes and records of a track may be in flight: one record, and what the track sends in
/// its horizon, but no more than the track allows and never less than one record, or two records.
pub open spec fn channel_flow(configuration: TrackSettings) -> (int, int) {
    let horizon = flow_horizon(configuration);
    let record = configuration.maximum_record_body as int;
    let bytes = unsigned_64(
        record + rounded_up(
            unsigned_64(configuration.maximum_encoded_bits_per_second * horizon) as int,
            8_000_000,
        ),
    ) as int;
    let capped = if bytes <= configuration.maximum_inflight_body_bytes {
        bytes
    } else {
        configuration.maximum_inflight_body_bytes as int
    };
    let records = rounded_up(
        unsigned_64(configuration.maximum_records_per_second * horizon) as int,
        1_000_000,
    );
    (
        if capped < record {
            record
        } else {
            capped
        },
        if records < 2 {
            2
        } else {
            records
        },
    )
}

/// How many bytes and records of a track may be in flight.
pub fn live_channel_flow(configuration: &TrackSettings) -> (r: (u64, u64))
    ensures
        r.0 == channel_flow(*configuration).0,
        r.1 == channel_flow(*configuration).1,
{
    let is_audio = match configuration.kind {
        KindConfiguration::Audio => true,
        _ => false,
    };
    let horizon: u64 = if configuration.mode == TrackMode::Live && is_audio {
        LIVE_AUDIO_FLOW_RESERVE_US
    } else if configuration.maximum_latency_us == 0 {
        1
    } else {
        configuration.maximum_latency_us
    };
    let record = configuration.maximum_record_body as u64;
    let latency_bytes = divide_up(
        product(configuration.maximum_encoded_bits_per_second, horizon),
        8_000_000,
    );
    let bytes = sum(record, latency_bytes);
    let capped = if bytes <= configuration.maximum_inflight_body_bytes {
        bytes
    } else {
        configuration.maximum_inflight_body_bytes
    };
    let records = divide_up(product(configuration.maximum_records_per_second, horizon), 1_000_000);
    (
        if capped < record {
            record
        } else {
            capped
        },
        if records < 2 {
            2
        } else {
            records
        },
    )
}

/// A channel can always carry one largest record, and never more than its track allows beyond that.
pub proof fn a_channel_carries_at_least_one_record(configuration: TrackSettings)
    ensures
        channel_flow(configuration).0 >= configuration.maximum_record_body,
        channel_flow(configuration).1 >= 2,
        channel_flow(configuration).0 <= configuration.maximum_inflight_body_bytes || channel_flow(
            configuration,
        ).0 == configuration.maximum_record_body,
{
}

/// A track is played in the slot of its kind and in no other: video in the primary video slot and
/// sound in the audio slot, each where it can be decoded, a raster in the raster slot or as the
/// poster, an encoded image as the poster. A vector scene is played nowhere.
pub proof fn a_track_plays_in_the_slot_of_its_kind(configuration: TrackSettings, decodable: bool)
    ensures
        configuration.kind is Video && configuration.slot == SLOT_PRIMARY_VIDEO ==> track_supported(
            configuration,
            decodable,
        ) == decodable,
        configuration.kind is Video && configuration.slot != SLOT_PRIMARY_VIDEO
            ==> !track_supported(configuration, decodable),
        configuration.kind is Audio && configuration.slot == SLOT_AUDIO ==> track_supported(
            configuration,
            decodable,
        ) == decodable,
        configuration.kind is Audio && configuration.slot != SLOT_AUDIO ==> !track_supported(
            configuration,
            decodable,
        ),
        configuration.kind is Raster ==> (track_supported(configuration, decodable) <==> (
        configuration.slot == SLOT_RASTER || configuration.slot == SLOT_POSTER)),
        configuration.kind is EncodedImage ==> (track_supported(configuration, decodable)
            <==> configuration.slot == SLOT_POSTER),
        configuration.kind is VectorScene ==> !track_supported(configuration, decodable),
{
}

/// No slot takes both sound and pictures, and no slot both video and stills: two tracks that are
/// played in one slot are both sound, both video, or both stills.
pub proof fn tracks_of_one_slot_are_of_one_sort(
    left: TrackSettings,
    right: TrackSettings,
    left_decodable: bool,
    right_decodable: bool,
)
    requires
        left.slot == right.slot,
        track_supported(left, left_decodable),
        track_supported(right, right_decodable),
    ensures
        left.kind is Audio <==> right.kind is Audio,
        left.kind is Video <==> right.kind is Video,
{
}

/// The four slots are four different numbers, as the protocol counts them.
pub proof fn the_slots_are_told_apart()
    ensures
        SLOT_PRIMARY_VIDEO == 1,
        SLOT_AUDIO == SLOT_PRIMARY_VIDEO + 1,
        SLOT_RASTER == SLOT_AUDIO + 1,
        SLOT_POSTER == SLOT_RASTER + 1,
{
}

/// Kinds, modes and lanes go by the numbers of the protocol.
pub proof fn kinds_modes_and_lanes_go_by_their_numbers(kind: TrackKind, mode: TrackMode, lane: LaneClass)
    ensures
        kind is Video <==> kind.code_spec() == 1,
        kind is Audio <==> kind.code_spec() == 2,
        kind is Raster <==> kind.code_spec() == 3,
        kind is EncodedImage <==> kind.code_spec() == 4,
        kind is VectorScene <==> kind.code_spec() == 5,
        mode is Live <==> mode.code_spec() == 1,
        mode is Timed <==> mode.code_spec() == 2,
        lane is Control <==> lane.code_spec() == 0,
        lane is Interactive <==> lane.code_spec() == 1,
        lane is Realtime <==> lane.code_spec() == 2,
        lane is Bulk <==> lane.code_spec() == 3,
{
}

/// A configuration is of the kind that it is made of.
pub proof fn a_configuration_is_of_its_own_kind(kind: KindConfiguration)
    ensures
        kind is Video <==> kind.kind_spec() is Video,
        kind is Audio <==> kind.kind_spec() is Audio,
        kind is Raster <==> kind.kind_spec() is Raster,
        kind is EncodedImage <==> kind.kind_spec() is EncodedImage,
        kind is VectorScene <==> kind.kind_spec() is VectorScene,
{
}

/// What may be in flight is one record and what the track sends while it may be late: that many
/// bytes, to within one, unless the track allows less or one record is more; and that many records,
/// to within one, but two at least. Live sound has a reserve of its own, whatever its latency.
pub proof fn what_is_in_flight_covers_the_latency(configuration: &TrackSettings, r: (u64, u64))
    requires
        call_ensures(live_channel_flow, (configuration,), r),
        configuration.maximum_latency_us > 0,
    ensures
        ({
            let late_us = if configuration.mode is Live && configuration.kind is Audio {
                LIVE_AUDIO_FLOW_RESERVE_US
            } else {
                configuration.maximum_latency_us
            };
            let bits = configuration.maximum_encoded_bits_per_second * late_us;
            let records = configuration.maximum_records_per_second * late_us;
            let record = configuration.maximum_record_body;
            &&& r.0 >= record
            &&& r.0 > record ==> r.0 <= configuration.maximum_inflight_body_bytes
            &&& bits <= u64::MAX / 2 && record < r.0 < configuration.maximum_inflight_body_bytes ==> {
                &&& (r.0 - record) * 8_000_000 >= bits
                &&& (r.0 - record - 1) * 8_000_000 < bits
            }
            &&& r.1 >= 2
            &&& records <= u64::MAX ==> r.1 * 1_000_000 >= records
            &&& records <= u64::MAX && r.1 > 2 ==> (r.1 - 1) * 1_000_000 < records
        }),
{
    let late_us: u64 = flow_horizon(*configuration);
    let bits: u64 = configuration.maximum_encoded_bits_per_second;
    let rate: u64 = configuration.maximum_records_per_second;
    assert(bits * late_us >= 0 && rate * late_us >= 0) by (nonlinear_arith)
        requires
            bits >= 0,
            rate >= 0,
            late_us >= 0,
    ;
}

} // verus!
