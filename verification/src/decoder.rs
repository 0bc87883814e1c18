//! What a video decoder is told, and what is accepted of what it returns.
//!
//! Decoding itself is FFmpeg's. This module decides the codec name, the parameters, the packet
//! fields, and which frames are taken.

use vstd::prelude::*;

verus! {

/// Bytes FFmpeg reads behind the end of codec extradata.
pub const INPUT_BUFFER_PADDING: u64 = 64;

/// The largest side of a decoded frame.
pub const MAXIMUM_FRAME_SIDE: i32 = 8192;

/// A decoded frame, four bytes per pixel.
#[derive(Debug)]
pub struct DecodedFrame {
    pub pts_us: i64,
    pub width: u32,
    pub height: u32,
    pub rgba: Vec<u8>,
}

/// What a track says of its video.
pub struct VideoSourceConfig {
    pub codec: String,
    pub width: u32,
    pub height: u32,
    pub profile: i32,
    pub level: i32,
    pub bitrate: u64,
    pub matrix: u64,
    pub range: u64,
    pub extradata_length: usize,
}

/// Why a decoder cannot be set up as a track asks.
#[derive(Debug, Clone, Copy, PartialEq, Eq, Structural)]
pub enum DecoderRefusal {
    CodecHasNul,
    WidthTooLarge,
    HeightTooLarge,
    ExtradataOverflows,
    ExtradataTooLarge,
}

/// What FFmpeg is told to decode.
#[derive(Debug, Clone, Copy, PartialEq, Eq)]
pub struct DecoderParameters {
    pub profile: i32,
    pub level: i32,
    pub width: i32,
    pub height: i32,
    pub bit_rate: i64,
    /// How much to allocate for the extradata, and how long it is. Nothing is allocated for none.
    pub extradata: Option<(u64, i32)>,
    pub colorspace: i32,
    pub full_range: i32,
}

/// The decoder that a codec is given. The native AV1 decoder may claim hardware it does not have,
/// so the software one is named.
pub open spec fn decoder_name_spec(codec: Seq<char>) -> Seq<char> {
    if codec == "av1"@ {
        "libdav1d"@
    } else {
        codec
    }
}

/// The swscale colorspace of a declared matrix.
pub open spec fn colorspace_of(matrix: u64) -> i32 {
    if matrix == 2 {
        5
    } else if matrix == 3 {
        9
    } else {
        1
    }
}

/// A number as FFmpeg counts it, at most its largest.
pub open spec fn capped(value: u64) -> i64 {
    if value <= i64::MAX {
        value as i64
    } else {
        i64::MAX
    }
}

/// A number as FFmpeg counts it, at most its largest.
pub fn cap(value: u64) -> (r: i64)
    ensures
        r == capped(value),
{
    if value <= i64::MAX as u64 {
        value as i64
    } else {
        i64::MAX
    }
}

/// How much to allocate for codec extradata, and how long it is. Nothing is allocated for none.
pub open spec fn extradata_of(length: nat) -> Result<Option<(u64, i32)>, DecoderRefusal> {
    if length == 0 {
        Ok(None)
    } else if length + INPUT_BUFFER_PADDING > usize::MAX {
        Err(DecoderRefusal::ExtradataOverflows)
    } else if length > i32::MAX {
        Err(DecoderRefusal::ExtradataTooLarge)
    } else {
        Ok(Some(((length + INPUT_BUFFER_PADDING) as u64, length as i32)))
    }
}

/// How much to allocate for codec extradata.
pub fn extradata_plan(length: usize) -> (r: Result<Option<(u64, i32)>, DecoderRefusal>)
    ensures
        r == extradata_of(length as nat),
{
    if length == 0 {
        return Ok(None);
    }
    match length.checked_add(64) {
        Some(allocation) => if length > i32::MAX as usize {
            Err(DecoderRefusal::ExtradataTooLarge)
        } else {
            Ok(Some((allocation as u64, length as i32)))
        },
        None => Err(DecoderRefusal::ExtradataOverflows),
    }
}

/// Whether a text holds the character that ends a C string.
pub open spec fn has_nul(text: Seq<char>) -> bool {
    exists|i: int| 0 <= i < text.len() && #[trigger] text[i] == '\0'
}

/// What FFmpeg is told for a track, or why it cannot be.
pub open spec fn parameters_of(config: VideoSourceConfig) -> Result<DecoderParameters, DecoderRefusal> {
    if has_nul(decoder_name_spec(config.codec@)) {
        Err(DecoderRefusal::CodecHasNul)
    } else if config.width > i32::MAX {
        Err(DecoderRefusal::WidthTooLarge)
    } else if config.height > i32::MAX {
        Err(DecoderRefusal::HeightTooLarge)
    } else {
        match extradata_of(config.extradata_length as nat) {
            Err(refusal) => Err(refusal),
            Ok(extradata) => Ok(
                DecoderParameters {
                    profile: config.profile,
                    level: config.level,
                    width: config.width as i32,
                    height: config.height as i32,
                    bit_rate: capped(config.bitrate),
                    extradata,
                    colorspace: colorspace_of(config.matrix),
                    full_range: if config.range == 2 {
                        1
                    } else {
                        0
                    },
                },
            ),
        }
    }
}

/// The decoder that a codec is given.
pub fn decoder_name(codec: &str) -> (r: String)
    ensures
        r@ == decoder_name_spec(codec@),
{
    if same_text(codec, "av1") {
        "libdav1d".to_owned()
    } else {
        codec.to_owned()
    }
}

/// Whether two texts are the same.
pub fn same_text(left: &str, right: &str) -> (r: bool)
    ensures
        r == (left@ == right@),
{
    let left_length = left.unicode_len();
    let right_length = right.unicode_len();
    if left_length != right_length {
        return false;
    }
    let mut index: usize = 0;
    while index < left_length
        invariant
            index <= left_length,
            left_length == left@.len(),
            right_length == right@.len(),
            left_length == right_length,
            forall|i: int| 0 <= i < index ==> left@[i] == right@[i],
        decreases left_length - index,
    {
        if left.get_char(index) != right.get_char(index) {
            return false;
        }
        index = index + 1;
    }
    assert(left@ =~= right@);
    true
}

/// Whether a text holds the character that ends a C string.
pub fn contains_nul(text: &str) -> (r: bool)
    ensures
        r == has_nul(text@),
{
    let length = text.unicode_len();
    let mut index: usize = 0;
    while index < length
        invariant
            index <= length,
            length == text@.len(),
            forall|i: int| 0 <= i < index ==> text@[i] != '\0',
        decreases length - index,
    {
        if text.get_char(index) == '\0' {
            assert(text@[index as int] == '\0');
            return true;
        }
        index = index + 1;
    }
    false
}

/// What FFmpeg is told for a track.
pub fn decoder_parameters(config: &VideoSourceConfig) -> (r: Result<DecoderParameters, DecoderRefusal>)
    ensures
        r == parameters_of(*config),
        r matches Ok(parameters) ==> {
            &&& parameters.width == config.width
            &&& parameters.height == config.height
            &&& parameters.profile == config.profile
            &&& parameters.level == config.level
        },
{
    let name = decoder_name(config.codec.as_str());
    if contains_nul(name.as_str()) {
        return Err(DecoderRefusal::CodecHasNul);
    }
    if config.width > i32::MAX as u32 {
        return Err(DecoderRefusal::WidthTooLarge);
    }
    if config.height > i32::MAX as u32 {
        return Err(DecoderRefusal::HeightTooLarge);
    }
    let extradata = match extradata_plan(config.extradata_length) {
        Ok(extradata) => extradata,
        Err(refusal) => {
            return Err(refusal);
        },
    };
    let colorspace: i32 = if config.matrix == 2 {
        5
    } else if config.matrix == 3 {
        9
    } else {
        1
    };
    let full_range: i32 = if config.range == 2 {
        1
    } else {
        0
    };
    Ok(
        DecoderParameters {
            profile: config.profile,
            level: config.level,
            width: config.width as i32,
            height: config.height as i32,
            bit_rate: cap(config.bitrate),
            extradata,
            colorspace,
            full_range,
        },
    )
}

/// What FFmpeg is told of one encoded packet.
#[derive(Debug, Clone, Copy, PartialEq, Eq, Structural)]
pub struct PacketFields {
    pub size: i32,
    pub pts: i64,
    pub dts: i64,
    pub duration: i64,
    pub flags: i32,
}

/// What becomes of one encoded packet.
#[derive(Debug, Clone, Copy, PartialEq, Eq, Structural)]
pub enum PacketPlan {
    /// There is nothing to decode.
    Empty,
    /// FFmpeg cannot count its bytes.
    TooLarge,
    Decode(PacketFields),
}

/// What becomes of an encoded packet.
pub open spec fn packet_plan_of(
    length: nat,
    pts_us: i64,
    dts_us: i64,
    duration_us: u64,
    key: bool,
) -> PacketPlan {
    if length == 0 {
        PacketPlan::Empty
    } else if length > i32::MAX {
        PacketPlan::TooLarge
    } else {
        PacketPlan::Decode(
            PacketFields {
                size: length as i32,
                pts: pts_us,
                dts: dts_us,
                duration: capped(duration_us),
                flags: if key {
                    1
                } else {
                    0
                },
            },
        )
    }
}

/// Plan the decoding of an encoded packet.
pub fn packet_plan(length: usize, pts_us: i64, dts_us: i64, duration_us: u64, key: bool) -> (r:
    PacketPlan)
    ensures
        r == packet_plan_of(length as nat, pts_us, dts_us, duration_us, key),
        r is Empty <==> length == 0,
        r is TooLarge <==> length > i32::MAX,
        r matches PacketPlan::Decode(fields) ==> {
            &&& fields.size == length
            &&& fields.pts == pts_us
            &&& fields.dts == dts_us
            &&& fields.duration >= 0
            &&& (if duration_us <= i64::MAX {
                fields.duration == duration_us
            } else {
                fields.duration == i64::MAX
            })
            &&& (fields.flags == 1 <==> key)
            &&& (fields.flags == 0 <==> !key)
        },
{
    if length == 0 {
        return PacketPlan::Empty;
    }
    if length > i32::MAX as usize {
        return PacketPlan::TooLarge;
    }
    PacketPlan::Decode(
        PacketFields {
            size: length as i32,
            pts: pts_us,
            dts: dts_us,
            duration: cap(duration_us),
            flags: if key {
                1
            } else {
                0
            },
        },
    )
}

/// The converter that turns decoded frames into pixels.
#[derive(Debug, Clone, Copy, PartialEq, Eq, Structural)]
pub struct Scaler {
    pub format: i32,
    pub width: i32,
    pub height: i32,
}

/// How one decoded frame becomes pixels.
#[derive(Debug, Clone, Copy, PartialEq, Eq, Structural)]
pub struct FramePlan {
    /// Whether the converter has to be made anew.
    pub rebuild: bool,
    pub scaler: Scaler,
    pub width: u32,
    pub height: u32,
    pub stride: i32,
    pub length: u64,
}

/// Why a decoded frame is not taken.
#[derive(Debug, Clone, Copy, PartialEq, Eq, Structural)]
pub enum FrameRefusal {
    InvalidDimensions,
    AllocationOverflows,
    Partial,
}

/// Whether a decoded frame has a size that is taken.
pub open spec fn dimensions_taken(width: i32, height: i32) -> bool {
    0 < width <= MAXIMUM_FRAME_SIDE && 0 < height <= MAXIMUM_FRAME_SIDE
}

/// Plan the conversion of a decoded frame.
pub fn frame_plan(current: Option<Scaler>, format: i32, width: i32, height: i32) -> (r: Result<
    FramePlan,
    FrameRefusal,
>)
    ensures
        r == (if !dimensions_taken(width, height) {
            Err::<FramePlan, FrameRefusal>(FrameRefusal::InvalidDimensions)
        } else {
            Ok(
                FramePlan {
                    rebuild: current != Some(Scaler { format, width, height }),
                    scaler: Scaler { format, width, height },
                    width: width as u32,
                    height: height as u32,
                    stride: (width * 4) as i32,
                    length: (width * height * 4) as u64,
                },
            )
        }),
{
    if width <= 0 || height <= 0 || width > MAXIMUM_FRAME_SIDE || height > MAXIMUM_FRAME_SIDE {
        return Err(FrameRefusal::InvalidDimensions);
    }
    let scaler = Scaler { format, width, height };
    let rebuild = match current {
        Some(existing) => existing != scaler,
        None => true,
    };
    assert(0 <= width * height <= 8192 * 8192) by (nonlinear_arith)
        requires
            0 < width <= 8192,
            0 < height <= 8192,
    ;
    let pixels: u64 = width as u64 * height as u64;
    Ok(
        FramePlan {
            rebuild,
            scaler,
            width: width as u32,
            height: height as u32,
            stride: width * 4,
            length: pixels * 4,
        },
    )
}

/// Take a converted frame: all of its rows must have been converted.
pub fn take_frame(plan: &FramePlan, converted_rows: i32, pts_us: i64, rgba: Vec<u8>) -> (r: Result<
    DecodedFrame,
    FrameRefusal,
>)
    requires
        plan.height <= MAXIMUM_FRAME_SIDE,
        rgba@.len() == plan.length,
    ensures
        r is Ok <==> converted_rows == plan.height,
        r matches Ok(frame) ==> frame.pts_us == pts_us && frame.width == plan.width && frame.height
            == plan.height && frame.rgba == rgba,
        r matches Err(refusal) ==> refusal == FrameRefusal::Partial,
{
    if converted_rows != plan.height as i32 {
        return Err(FrameRefusal::Partial);
    }
    Ok(DecodedFrame { pts_us, width: plan.width, height: plan.height, rgba })
}

/// A frame that is taken fills its buffer exactly, four bytes per pixel.
pub proof fn a_planned_frame_fills_its_buffer(width: i32, height: i32)
    requires
        dimensions_taken(width, height),
    ensures
        width * height * 4 <= 268_435_456,
        width * 4 <= i32::MAX,
{
    assert(width * height <= 8192 * 8192) by (nonlinear_arith)
        requires
            0 < width <= 8192,
            0 < height <= 8192,
    ;
}

/// A packet that can be decoded is handed on with its own length and its own two times. Packets
/// are told apart by each of them: of two packets, the presentation times handed on are the same
/// only where the packets have the same, and so of the decoding times, the lengths and the mark of
/// a key packet.
pub proof fn a_packet_keeps_its_times(
    length: nat,
    pts_us: i64,
    dts_us: i64,
    duration_us: u64,
    key: bool,
)
    requires
        0 < length <= i32::MAX,
    ensures
        packet_plan_of(length, pts_us, dts_us, duration_us, key) matches PacketPlan::Decode(fields)
            && fields.size == length && fields.pts == pts_us && fields.dts == dts_us,
        forall|other: i64|
            #![trigger packet_plan_of(length, other, dts_us, duration_us, key)]
            packet_plan_of(length, other, dts_us, duration_us, key) matches PacketPlan::Decode(
                moved,
            ) && moved.pts == other && moved.dts == dts_us,
        forall|other: i64|
            #![trigger packet_plan_of(length, pts_us, other, duration_us, key)]
            packet_plan_of(length, pts_us, other, duration_us, key) matches PacketPlan::Decode(
                moved,
            ) && moved.pts == pts_us && moved.dts == other,
        packet_plan_of(length, pts_us, dts_us, duration_us, true) != packet_plan_of(
            length,
            pts_us,
            dts_us,
            duration_us,
            false,
        ),
{
    let plain = packet_plan_of(length, pts_us, dts_us, duration_us, false);
    let marked = packet_plan_of(length, pts_us, dts_us, duration_us, true);
    assert(plain->Decode_0.flags != marked->Decode_0.flags);
}

/// A longer packet is never handed on as a shorter one: durations keep their order, and one that
/// FFmpeg can count is kept as it is.
pub proof fn packet_durations_keep_their_order(
    length: nat,
    pts_us: i64,
    dts_us: i64,
    key: bool,
    shorter: u64,
    longer: u64,
)
    requires
        0 < length <= i32::MAX,
        shorter <= longer,
    ensures
        packet_plan_of(length, pts_us, dts_us, shorter, key)->Decode_0.duration <= packet_plan_of(
            length,
            pts_us,
            dts_us,
            longer,
            key,
        )->Decode_0.duration,
        shorter <= i64::MAX ==> packet_plan_of(
            length,
            pts_us,
            dts_us,
            shorter,
            key,
        )->Decode_0.duration == shorter,
        shorter >= i64::MAX ==> packet_plan_of(
            length,
            pts_us,
            dts_us,
            shorter,
            key,
        )->Decode_0.duration == i64::MAX,
{
}

/// A packet is decoded, passed over as empty or refused as too large by its length alone.
pub proof fn a_packet_is_refused_by_its_length_alone(
    length: nat,
    pts_us: i64,
    dts_us: i64,
    duration_us: u64,
    key: bool,
)
    ensures
        packet_plan_of(length, pts_us, dts_us, duration_us, key) is Empty <==> length == 0,
        packet_plan_of(length, pts_us, dts_us, duration_us, key) is Decode <==> 1 <= length
            <= 0x7fff_ffff,
{
}

/// A decoder is set up for the size, the profile and the level that the track declares, and the
/// allocation for its extradata holds all of it and the bytes that FFmpeg reads behind its end.
pub proof fn a_decoder_is_set_up_as_the_track_declares(config: VideoSourceConfig)
    ensures
        parameters_of(config) matches Ok(parameters) ==> {
            &&& parameters.width == config.width
            &&& parameters.height == config.height
            &&& parameters.profile == config.profile
            &&& parameters.level == config.level
            &&& config.bitrate <= i64::MAX ==> parameters.bit_rate == config.bitrate
            &&& parameters.extradata is None <==> config.extradata_length == 0
            &&& parameters.extradata matches Some(extradata) ==> extradata.1
                == config.extradata_length && extradata.0 - extradata.1 == INPUT_BUFFER_PADDING
            &&& parameters.full_range == 1 <==> config.range == 2
            &&& parameters.full_range == 0 <==> config.range != 2
        },
        parameters_of(config) is Err ==> (has_nul(config.codec@) || config.width > i32::MAX
            || config.height > i32::MAX || config.extradata_length > i32::MAX
            || config.extradata_length + INPUT_BUFFER_PADDING > usize::MAX),
{
    reveal_strlit("libdav1d");
    reveal_strlit("av1");
    if has_nul(decoder_name_spec(config.codec@)) {
        let i = choose|i: int|
            0 <= i < decoder_name_spec(config.codec@).len() && #[trigger] decoder_name_spec(
                config.codec@,
            )[i] == '\0';
        assert(decoder_name_spec(config.codec@)[i] == '\0');
        assert(has_nul(config.codec@));
    }
}

/// Every codec but AV1 is decoded under its own name, and AV1 never is.
pub proof fn only_one_codec_is_decoded_under_another_name(codec: Seq<char>)
    ensures
        decoder_name_spec(codec) == codec <==> codec != "av1"@,
        decoder_name_spec(codec) != codec ==> decoder_name_spec(codec) == "libdav1d"@,
{
    reveal_strlit("av1");
    reveal_strlit("libdav1d");
    assert("av1"@.len() != "libdav1d"@.len());
}

/// Two of the declared matrices have a colorspace of their own, and every other is taken for the
/// high-definition one.
pub proof fn a_matrix_has_one_colorspace(matrix: u64)
    ensures
        colorspace_of(matrix) == 5 <==> matrix == 2,
        colorspace_of(matrix) == 9 <==> matrix == 3,
        colorspace_of(matrix) == 1 <==> (matrix != 2 && matrix != 3),
{
}

/// What a decoder is set up with is kept whole, with room behind it, and nothing is kept where
/// nothing was given.
pub proof fn what_a_decoder_is_set_up_with_is_kept_whole(
    length: usize,
    r: Result<Option<(u64, i32)>, DecoderRefusal>,
)
    requires
        call_ensures(extradata_plan, (length,), r),
    ensures
        length == 0 <==> r == Ok::<Option<(u64, i32)>, DecoderRefusal>(None),
        r matches Ok(Some((room, size))) ==> size == length && room == length + 64,
        0 < length <= i32::MAX - 64 ==> r is Ok,
        length > i32::MAX ==> r is Err,
{
}

/// A picture is taken where every row of it was converted, and is then shown at its time as it came.
pub proof fn a_picture_is_taken_whole(
    plan: &FramePlan,
    converted_rows: i32,
    pts_us: i64,
    rgba: Vec<u8>,
    r: Result<DecodedFrame, FrameRefusal>,
)
    requires
        call_ensures(take_frame, (plan, converted_rows, pts_us, rgba), r),
    ensures
        r is Ok <==> converted_rows == plan.height,
        r matches Ok(frame) ==> frame.pts_us == pts_us && frame.rgba@ == rgba@ && frame.width
            == plan.width && frame.height == plan.height,
{
}

} // verus!
