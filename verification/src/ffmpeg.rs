//! Which FFmpeg structure layouts a linked library uses.
//!
//! FFmpeg freezes field offsets within a major version but not across them, so the offsets are
//! probed instead of assumed: every structure FFmpeg allocates is reset to documented sentinels,
//! and the candidate layout that reads those sentinels back is the one in use. A library that no
//! candidate reads is refused.

use vstd::prelude::*;

use crate::failure::ErrorKind;
use crate::text::{decimal, decimal_text};

verus! {

/// The timestamp of a frame or packet that has none.
pub const NO_PTS: i64 = i64::MIN;

/// The profile and level of codec parameters that have none.
pub const UNKNOWN_PROFILE: i32 = -99;

/// Whether a frame still declares `key_frame`.
#[derive(Clone, Copy, Debug, PartialEq, Eq, Structural)]
pub enum FrameLayout {
    /// FFmpeg 7 and earlier.
    Legacy,
    /// FFmpeg 8 and later.
    Current,
}

/// Whether codec parameters carry `coded_side_data`.
#[derive(Clone, Copy, Debug, PartialEq, Eq, Structural)]
pub enum ParametersLayout {
    /// FFmpeg 6 and earlier.
    Legacy,
    /// FFmpeg 7 and later.
    Current,
}

/// The verified layout of a linked FFmpeg.
#[derive(Clone, Copy, Debug, PartialEq, Eq, Structural)]
pub struct Abi {
    pub frame: FrameLayout,
    pub parameters: ParametersLayout,
}

/// What the candidate layouts read from a freshly reset frame.
#[derive(Clone, Copy, Debug, PartialEq, Eq, Structural)]
pub struct FrameProbe {
    pub legacy_pts: i64,
    pub current_pts: i64,
}

/// What one candidate layout reads from freshly reset codec parameters.
#[derive(Clone, Copy, Debug, PartialEq, Eq, Structural)]
pub struct ParametersReading {
    pub format: i32,
    pub profile: i32,
    pub level: i32,
}

impl ParametersReading {
    /// Whether the reading is the documented defaults.
    pub open spec fn is_default(self) -> bool {
        self.format == -1 && self.profile == UNKNOWN_PROFILE && self.level == UNKNOWN_PROFILE
    }

    fn default_fields(self) -> (r: bool)
        ensures
            r == self.is_default(),
    {
        self.format == -1 && self.profile == UNKNOWN_PROFILE && self.level == UNKNOWN_PROFILE
    }
}

/// What the candidate layouts read from freshly reset codec parameters.
#[derive(Clone, Copy, Debug, PartialEq, Eq, Structural)]
pub struct ParametersProbe {
    pub legacy: ParametersReading,
    pub current: ParametersReading,
}

/// What is read from a freshly reset packet.
#[derive(Clone, Copy, Debug, PartialEq, Eq, Structural)]
pub struct PacketProbe {
    pub pts: i64,
    pub dts: i64,
    pub pos: i64,
    pub time_base_numerator: i32,
    pub time_base_denominator: i32,
}

/// The versions a library reports.
#[derive(Clone, Copy, Debug, PartialEq, Eq, Structural)]
pub struct LibraryVersions {
    pub avcodec: u32,
    pub avutil: u32,
    pub swscale: u32,
    pub swresample: u32,
}

/// What was read from a linked FFmpeg. A structure it could not allocate was not read.
#[derive(Clone, Copy, Debug, PartialEq, Eq, Structural)]
pub struct AbiProbe {
    pub frame: Option<FrameProbe>,
    pub parameters: Option<ParametersProbe>,
    pub packet: Option<PacketProbe>,
    pub versions: LibraryVersions,
}

/// A structure whose layout is probed.
#[derive(Clone, Copy, Debug, PartialEq, Eq, Structural)]
pub enum ProbedStructure {
    Frame,
    Parameters,
    Packet,
}

/// The layout a frame reading identifies. Where both candidates read the sentinel they agree on the
/// offset, and the current one is used.
pub open spec fn frame_layout(probe: Option<FrameProbe>) -> Option<FrameLayout> {
    match probe {
        Some(reading) => if reading.current_pts == NO_PTS {
            Some(FrameLayout::Current)
        } else if reading.legacy_pts == NO_PTS {
            Some(FrameLayout::Legacy)
        } else {
            None
        },
        None => None,
    }
}

/// The layout that codec parameters identify. The candidates differ, so exactly one may read the
/// sentinels.
pub open spec fn parameters_layout(probe: Option<ParametersProbe>) -> Option<ParametersLayout> {
    match probe {
        Some(reading) => if reading.legacy.is_default() == reading.current.is_default() {
            None
        } else if reading.current.is_default() {
            Some(ParametersLayout::Current)
        } else {
            Some(ParametersLayout::Legacy)
        },
        None => None,
    }
}

/// Whether a packet reads back its documented defaults.
pub open spec fn packet_known(probe: Option<PacketProbe>) -> bool {
    probe matches Some(packet) && packet.pts == NO_PTS && packet.dts == NO_PTS && packet.pos == -1
        && packet.time_base_numerator == 0 && packet.time_base_denominator == 1
}

/// The layout of a linked FFmpeg, or the first structure that no candidate reads.
pub open spec fn identified(probe: AbiProbe) -> Result<Abi, ProbedStructure> {
    match (frame_layout(probe.frame), parameters_layout(probe.parameters)) {
        (None, _) => Err(ProbedStructure::Frame),
        (Some(_), None) => Err(ProbedStructure::Parameters),
        (Some(frame), Some(parameters)) => if packet_known(probe.packet) {
            Ok(Abi { frame, parameters })
        } else {
            Err(ProbedStructure::Packet)
        },
    }
}

fn probe_frame(probe: &AbiProbe) -> (r: Option<FrameLayout>)
    ensures
        r == frame_layout(probe.frame),
{
    match probe.frame {
        Some(reading) => if reading.current_pts == NO_PTS {
            Some(FrameLayout::Current)
        } else if reading.legacy_pts == NO_PTS {
            Some(FrameLayout::Legacy)
        } else {
            None
        },
        None => None,
    }
}

fn probe_parameters(probe: &AbiProbe) -> (r: Option<ParametersLayout>)
    ensures
        r == parameters_layout(probe.parameters),
{
    match probe.parameters {
        Some(reading) => {
            let legacy = reading.legacy.default_fields();
            let current = reading.current.default_fields();
            if legacy && !current {
                Some(ParametersLayout::Legacy)
            } else if !legacy && current {
                Some(ParametersLayout::Current)
            } else {
                None
            }
        },
        None => None,
    }
}

fn probe_packet(probe: &AbiProbe) -> (r: bool)
    ensures
        r == packet_known(probe.packet),
{
    match probe.packet {
        Some(packet) => packet.pts == NO_PTS && packet.dts == NO_PTS && packet.pos == -1
            && packet.time_base_numerator == 0 && packet.time_base_denominator == 1,
        None => false,
    }
}

/// Whether this is what is found of a linked FFmpeg: its layout, or what is said where no candidate
/// reads it.
pub open spec fn found(probe: AbiProbe, outcome: Result<Abi, String>) -> bool {
    match identified(probe) {
        Ok(layout) => outcome == Ok::<Abi, String>(layout),
        Err(structure) => outcome matches Err(message) && message@ == unsupported_text(
            structure,
            probe.versions,
        ),
    }
}

/// Two findings on the same library agree: both have its one layout, or both say the same.
pub proof fn a_library_has_one_layout(
    probe: AbiProbe,
    first: Result<Abi, String>,
    second: Result<Abi, String>,
)
    requires
        found(probe, first),
        found(probe, second),
    ensures
        match (first, second) {
            (Ok(left), Ok(right)) => left == right,
            (Err(left), Err(right)) => left@ == right@,
            _ => false,
        },
{
}

/// The layout of a linked FFmpeg, from what was read from it.
pub fn abi(probe: &AbiProbe) -> (r: Result<Abi, String>)
    ensures
        found(*probe, r),
{
    let frame = match probe_frame(probe) {
        Some(frame) => frame,
        None => {
            return Err(unsupported(ProbedStructure::Frame, probe.versions));
        },
    };
    let parameters = match probe_parameters(probe) {
        Some(parameters) => parameters,
        None => {
            return Err(unsupported(ProbedStructure::Parameters, probe.versions));
        },
    };
    if !probe_packet(probe) {
        return Err(unsupported(ProbedStructure::Packet, probe.versions));
    }
    Ok(Abi { frame, parameters })
}

/// Why nothing can be decoded with the linked FFmpeg.
#[derive(Clone, Debug, PartialEq, Eq)]
pub struct AbiRefusal {
    pub kind: ErrorKind,
    pub message: String,
}

/// What is known of the linked FFmpeg, for as long as the process runs.
pub struct LinkedFfmpeg {
    /// What the probe found, once it ran.
    pub known: Option<Result<Abi, String>>,
}

/// Whether a probe was handed in: the first one decides, and any other changes nothing.
pub open spec fn probed(before: LinkedFfmpeg, after: LinkedFfmpeg, probe: AbiProbe) -> bool {
    match before.known {
        Some(_) => after == before,
        None => after.known matches Some(outcome) && found(probe, outcome),
    }
}

impl LinkedFfmpeg {
    /// Nothing is known yet.
    pub fn new() -> (r: Self)
        ensures
            r.known is None,
    {
        LinkedFfmpeg { known: None }
    }

    /// Whether the library has to be probed before anything can be said of it.
    pub fn unprobed(&self) -> (r: bool)
        ensures
            r == (self.known is None),
    {
        self.known.is_none()
    }

    /// Take what was read from the library.
    pub fn take_probe(&mut self, probe: &AbiProbe)
        ensures
            probed(*old(self), *final(self), *probe),
    {
        if self.known.is_none() {
            self.known = Some(abi(probe));
        }
    }

    /// The layout of the library, or why nothing can be decoded with it, once it was probed.
    pub fn layout(&self) -> (r: Option<Result<Abi, AbiRefusal>>)
        ensures
            match self.known {
                None => r is None,
                Some(Ok(layout)) => r == Some(Ok::<Abi, AbiRefusal>(layout)),
                Some(Err(message)) => r matches Some(Err(refusal)) && refusal.kind
                    == ErrorKind::Unsupported && refusal.message@ == message@,
            },
    {
        match &self.known {
            None => None,
            Some(Ok(layout)) => Some(Ok(*layout)),
            Some(Err(message)) => Some(
                Err(AbiRefusal { kind: ErrorKind::Unsupported, message: message.clone() }),
            ),
        }
    }
}

/// Once the library was probed it is not probed again, and what is known of it stays the same,
/// whatever is handed in.
pub proof fn a_library_is_probed_once(history: Seq<LinkedFfmpeg>, probes: Seq<AbiProbe>)
    requires
        history.len() == probes.len() + 1,
        history[0].known is Some,
        forall|i: int|
            0 <= i < probes.len() ==> probed(history[i], history[i + 1], #[trigger] probes[i]),
    ensures
        history.last() == history[0],
    decreases probes.len(),
{
    if probes.len() > 0 {
        let earlier = history.drop_last();
        let handed = probes.drop_last();
        assert forall|i: int| 0 <= i < handed.len() implies probed(
            earlier[i],
            earlier[i + 1],
            #[trigger] handed[i],
        ) by {
            assert(probed(history[i], history[i + 1], probes[i]));
        }
        a_library_is_probed_once(earlier, handed);
        let i = probes.len() - 1;
        assert(probed(history[i], history[i + 1], probes[i]));
    }
}

/// The name of a probed structure.
pub open spec fn structure_name(structure: ProbedStructure) -> Seq<char> {
    match structure {
        ProbedStructure::Frame => "AVFrame"@,
        ProbedStructure::Parameters => "AVCodecParameters"@,
        ProbedStructure::Packet => "AVPacket"@,
    }
}

/// A packed version as text: major, minor, micro.
pub open spec fn version_spec(version: u32) -> Seq<char> {
    decimal((version / 0x10000) as nat) + "."@ + decimal((version / 0x100 % 0x100) as nat) + "."@
        + decimal((version % 0x100) as nat)
}

/// A packed version as text.
pub fn version_text(version: u32) -> (r: String)
    ensures
        r@ == version_spec(version),
{
    let mut text = decimal_text((version / 0x10000) as u64);
    text.append(".");
    text.append(decimal_text((version / 0x100 % 0x100) as u64).as_str());
    text.append(".");
    text.append(decimal_text((version % 0x100) as u64).as_str());
    text
}

/// What is said of a library that no candidate reads.
pub open spec fn unsupported_text(structure: ProbedStructure, versions: LibraryVersions) -> Seq<char> {
    "this FFmpeg does not match any "@ + structure_name(structure)
        + " layout Vivido knows (libavcodec "@ + version_spec(versions.avcodec) + ", libavutil "@
        + version_spec(versions.avutil) + ", libswscale "@ + version_spec(versions.swscale)
        + ", libswresample "@ + version_spec(versions.swresample)
        + "); Vivid media is unavailable"@
}

fn unsupported(structure: ProbedStructure, versions: LibraryVersions) -> (r: String)
    ensures
        r@ == unsupported_text(structure, versions),
{
    let name = match structure {
        ProbedStructure::Frame => "AVFrame",
        ProbedStructure::Parameters => "AVCodecParameters",
        ProbedStructure::Packet => "AVPacket",
    };
    let mut text = "this FFmpeg does not match any ".to_owned();
    text.append(name);
    text.append(" layout Vivido knows (libavcodec ");
    text.append(version_text(versions.avcodec).as_str());
    text.append(", libavutil ");
    text.append(version_text(versions.avutil).as_str());
    text.append(", libswscale ");
    text.append(version_text(versions.swscale).as_str());
    text.append(", libswresample ");
    text.append(version_text(versions.swresample).as_str());
    text.append("); Vivid media is unavailable");
    text
}

/// A layout is accepted only where every structure read back its sentinels through it: nothing is
/// guessed.
pub proof fn an_accepted_layout_read_every_sentinel(probe: AbiProbe)
    requires
        identified(probe) is Ok,
    ensures
        ({
            let abi = identified(probe)->Ok_0;
            let frame = probe.frame.unwrap();
            let parameters = probe.parameters.unwrap();
            &&& probe.frame is Some && probe.parameters is Some && probe.packet is Some
            &&& abi.frame is Current ==> frame.current_pts == NO_PTS
            &&& abi.frame is Legacy ==> frame.legacy_pts == NO_PTS
            &&& abi.parameters is Current ==> parameters.current.is_default()
            &&& abi.parameters is Legacy ==> parameters.legacy.is_default()
            &&& packet_known(probe.packet)
        }),
{
}

/// A library is taken for what its sentinels show, and refused where they show nothing or, for the
/// parameters, both.
pub proof fn a_layout_is_what_the_sentinels_show(probe: &AbiProbe, r: Result<Abi, String>)
    requires
        call_ensures(abi, (probe,), r),
    ensures
        r matches Ok(abi) ==> {
            &&& abi.frame is Current <==> probe.frame->0.current_pts == i64::MIN
            &&& abi.frame is Legacy ==> probe.frame->0.legacy_pts == i64::MIN
            &&& abi.parameters is Current <==> probe.parameters->0.current.profile == -99
                && probe.parameters->0.current.level == -99 && probe.parameters->0.current.format == -1
            &&& abi.parameters is Legacy <==> probe.parameters->0.legacy.profile == -99
                && probe.parameters->0.legacy.level == -99 && probe.parameters->0.legacy.format == -1
        },
        probe.frame is None || probe.parameters is None || probe.packet is None ==> r is Err,
        probe.frame matches Some(frame) ==> (frame.current_pts != i64::MIN && frame.legacy_pts
            != i64::MIN ==> r is Err),
        probe.packet matches Some(packet) ==> (packet.pts != i64::MIN || packet.dts != i64::MIN
            || packet.pos != -1 || packet.time_base_numerator != 0 || packet.time_base_denominator
            != 1 ==> r is Err),
{
}

/// A refusal names the first structure that could not be read.
pub proof fn a_refusal_names_the_structure(probe: AbiProbe)
    ensures
        probe.frame is None ==> identified(probe) == Err::<Abi, ProbedStructure>(
            ProbedStructure::Frame,
        ),
        identified(probe) matches Err(structure) ==> {
            &&& structure is Frame <==> frame_layout(probe.frame) is None
            &&& structure is Packet ==> frame_layout(probe.frame) is Some && parameters_layout(
                probe.parameters,
            ) is Some
        },
        structure_name(ProbedStructure::Frame) == "AVFrame"@,
        structure_name(ProbedStructure::Parameters) == "AVCodecParameters"@,
        structure_name(ProbedStructure::Packet) == "AVPacket"@,
{
}

/// A version is told by its three parts, the largest first.
pub proof fn a_version_is_told_by_its_parts(major: u32, minor: u32, micro: u32, r: String)
    requires
        major < 0x10000,
        minor < 0x100,
        micro < 0x100,
        call_ensures(
            version_text,
            ((major * 0x10000 + minor * 0x100 + micro) as u32,),
            r,
        ),
    ensures
        r@ == decimal(major as nat) + "."@ + decimal(minor as nat) + "."@ + decimal(micro as nat),
{
    let version: u32 = (major * 0x10000 + minor * 0x100 + micro) as u32;
    assert(version / 0x10000 == major && version / 0x100 % 0x100 == minor && version % 0x100 == micro);
}

/// A library that was probed keeps its answer, and one that was not has none.
pub proof fn what_a_library_is_stays(
    library: &mut LinkedFfmpeg,
    probe: &AbiProbe,
    again: &mut LinkedFfmpeg,
    other: &AbiProbe,
    first: Option<Result<Abi, AbiRefusal>>,
    second: Option<Result<Abi, AbiRefusal>>,
)
    requires
        old(library).known is None,
        call_ensures(LinkedFfmpeg::take_probe, (library, probe), ()),
        call_ensures(LinkedFfmpeg::layout, (&*final(library),), first),
        *old(again) == *final(library),
        call_ensures(LinkedFfmpeg::take_probe, (again, other), ()),
        call_ensures(LinkedFfmpeg::layout, (&*final(again),), second),
    ensures
        first is Some,
        first->0 is Ok <==> identified(*probe) is Ok,
        first->0 matches Ok(layout) ==> identified(*probe) == Ok::<Abi, ProbedStructure>(layout)
            && second == first,
        first->0 is Err ==> second is Some && second->0 is Err,
{
}

} // verus!
