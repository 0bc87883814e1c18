//! Identifying the layout of a linked FFmpeg.

use vivido::failure::ErrorKind;
use vivido::ffmpeg::{
    abi, version_text, Abi, AbiProbe, FrameLayout, FrameProbe, LibraryVersions, LinkedFfmpeg,
    PacketProbe, ParametersLayout, ParametersProbe, ParametersReading, NO_PTS, UNKNOWN_PROFILE,
};

const DEFAULTS: ParametersReading =
    ParametersReading { format: -1, profile: UNKNOWN_PROFILE, level: UNKNOWN_PROFILE };
const GARBAGE: ParametersReading = ParametersReading { format: 0, profile: 0, level: 3 };

/// What a library with this major version reads back.
fn probe(avcodec_major: u32) -> AbiProbe {
    let current = avcodec_major >= 61;
    AbiProbe {
        frame: Some(FrameProbe {
            legacy_pts: if current { 0 } else { NO_PTS },
            current_pts: if current { NO_PTS } else { 0 },
        }),
        parameters: Some(ParametersProbe {
            legacy: if current { GARBAGE } else { DEFAULTS },
            current: if current { DEFAULTS } else { GARBAGE },
        }),
        packet: Some(PacketProbe {
            pts: NO_PTS,
            dts: NO_PTS,
            pos: -1,
            time_base_numerator: 0,
            time_base_denominator: 1,
        }),
        versions: LibraryVersions {
            avcodec: avcodec_major << 16 | 3 << 8 | 100,
            avutil: 0,
            swscale: 0,
            swresample: 0,
        },
    }
}

#[test]
fn the_linked_ffmpeg_abi_is_identified() {
    for avcodec_major in [59, 60, 61, 62] {
        let abi = abi(&probe(avcodec_major)).expect("the linked FFmpeg matches a known layout");
        // `coded_side_data` arrived in FFmpeg 7, which is libavcodec 61.
        let expected_parameters =
            if avcodec_major >= 61 { ParametersLayout::Current } else { ParametersLayout::Legacy };
        assert_eq!(abi.parameters, expected_parameters, "libavcodec {avcodec_major}");
    }
}

#[test]
fn a_frame_that_both_layouts_read_uses_the_current_one() {
    let mut reading = probe(61);
    reading.frame = Some(FrameProbe { legacy_pts: NO_PTS, current_pts: NO_PTS });
    assert_eq!(
        abi(&reading),
        Ok(Abi { frame: FrameLayout::Current, parameters: ParametersLayout::Current })
    );
}

#[test]
fn a_library_that_no_layout_reads_is_refused() {
    let mut frame = probe(61);
    frame.frame = None;
    assert!(abi(&frame).unwrap_err().contains("AVFrame"));
    let mut parameters = probe(61);
    parameters.parameters = Some(ParametersProbe { legacy: DEFAULTS, current: DEFAULTS });
    assert!(abi(&parameters).unwrap_err().contains("AVCodecParameters"));
    let mut packet = probe(61);
    packet.packet = None;
    let refusal = abi(&packet).unwrap_err();
    assert!(refusal.contains("AVPacket"));
    assert!(refusal.contains("61.3.100"), "{refusal}");
}

#[test]
fn the_linked_ffmpeg_is_probed_once() {
    let mut linked = LinkedFfmpeg::new();
    assert!(linked.unprobed());
    assert_eq!(linked.layout(), None);
    linked.take_probe(&probe(61));
    assert!(!linked.unprobed());
    assert_eq!(linked.layout().unwrap().unwrap(), abi(&probe(61)).unwrap());
    // What comes later changes nothing.
    linked.take_probe(&probe(59));
    assert_eq!(linked.layout().unwrap().unwrap().parameters, ParametersLayout::Current);
    let mut broken = probe(61);
    broken.packet = None;
    let mut refused = LinkedFfmpeg::new();
    refused.take_probe(&broken);
    for _ in 0..2 {
        let refusal = refused.layout().unwrap().unwrap_err();
        assert_eq!(refusal.kind, ErrorKind::Unsupported);
        assert_eq!(refusal.message, abi(&broken).unwrap_err());
        refused.take_probe(&probe(61));
    }
}

#[test]
fn a_version_is_written_with_its_three_parts() {
    assert_eq!(version_text(0x3d_03_64), "61.3.100");
    assert_eq!(version_text(0), "0.0.0");
}
