//! The wire constants are those of the protocol crate.

use vivid_protocol::messages;
use vivid_protocol::registry::{self, record};
use vivido::protocol;

#[test]
fn record_types_are_the_protocols() {
    let pairs = [
        (protocol::HELLO, record::HELLO),
        (protocol::WELCOME, record::WELCOME),
        (protocol::OK, record::OK),
        (protocol::ERROR, record::ERROR),
        (protocol::PING, record::PING),
        (protocol::PONG, record::PONG),
        (protocol::GOODBYE, record::GOODBYE),
        (protocol::QUERY_SESSION, record::QUERY_SESSION),
        (protocol::SESSION_STATUS, record::SESSION_STATUS),
        (protocol::LANE_OPEN, record::LANE_OPEN),
        (protocol::LANE_ACCEPTED, record::LANE_ACCEPTED),
        (protocol::TARGET_CHANGED, record::TARGET_CHANGED),
        (protocol::SET_OBSERVATION, record::SET_OBSERVATION),
        (protocol::CREATE_SURFACE, record::CREATE_SURFACE),
        (protocol::SURFACE_READY, record::SURFACE_READY),
        (protocol::UPDATE_SURFACE, record::UPDATE_SURFACE),
        (protocol::DESTROY_SURFACE, record::DESTROY_SURFACE),
        (protocol::QUERY_SURFACE, record::QUERY_SURFACE),
        (protocol::SURFACE_STATUS, record::SURFACE_STATUS),
        (protocol::SURFACE_CHANGED, record::SURFACE_CHANGED),
        (protocol::PROBE_TRACK_CONFIG, record::PROBE_TRACK_CONFIG),
        (protocol::TRACK_SUPPORT, record::TRACK_SUPPORT),
        (protocol::CREATE_TRACK, record::CREATE_TRACK),
        (protocol::TRACK_READY, record::TRACK_READY),
        (protocol::DESTROY_TRACK, record::DESTROY_TRACK),
        (protocol::TRACK_LOST, record::TRACK_LOST),
        (protocol::ACTIVATE_TRACK, record::ACTIVATE_TRACK),
        (protocol::TRACK_ACTIVATED, record::TRACK_ACTIVATED),
        (protocol::ADVANCE_CHANNEL, record::ADVANCE_CHANNEL),
        (protocol::CHANNEL_ADVANCED, record::CHANNEL_ADVANCED),
        (protocol::QUERY_TRACK, record::QUERY_TRACK),
        (protocol::TRACK_STATUS, record::TRACK_STATUS),
        (protocol::WAIT_TRACK, record::WAIT_TRACK),
        (protocol::WAIT_SATISFIED, record::WAIT_SATISFIED),
        (protocol::CANCEL_WAIT, record::CANCEL_WAIT),
        (protocol::TRACK_CHANGED, record::TRACK_CHANGED),
        (protocol::BEGIN_TXN, record::BEGIN_TXN),
        (protocol::CREATE_NODE, record::CREATE_NODE),
        (protocol::UPDATE_NODE, record::UPDATE_NODE),
        (protocol::DELETE_NODE, record::DELETE_NODE),
        (protocol::COMMIT_TXN, record::COMMIT_TXN),
        (protocol::ABORT_TXN, record::ABORT_TXN),
        (protocol::SCENE_PRESENTED, record::SCENE_PRESENTED),
        (protocol::QUERY_SCENE, record::QUERY_SCENE),
        (protocol::SCENE_STATUS, record::SCENE_STATUS),
        (protocol::SCENE_CHANGED, record::SCENE_CHANGED),
        (protocol::ANCHOR_READY, record::ANCHOR_READY),
        (protocol::ANCHOR_GONE, record::ANCHOR_GONE),
        (protocol::QUERY_ANCHOR, record::QUERY_ANCHOR),
        (protocol::ANCHOR_STATUS, record::ANCHOR_STATUS),
        (protocol::PLAY, record::PLAY),
        (protocol::PAUSE, record::PAUSE),
        (protocol::FLUSH, record::FLUSH),
        (protocol::DRAIN, record::DRAIN),
        (protocol::SET_AUDIO_GAIN, record::SET_AUDIO_GAIN),
        (protocol::CREATE_CONTEXT, record::CREATE_CONTEXT),
        (protocol::CONTEXT_READY, record::CONTEXT_READY),
        (protocol::REVOKE_CONTEXT, record::REVOKE_CONTEXT),
        (protocol::CREATE_SESSION_LEASE, record::CREATE_SESSION_LEASE),
        (protocol::SESSION_LEASE_READY, record::SESSION_LEASE_READY),
        (protocol::REVOKE_SESSION_LEASE, record::REVOKE_SESSION_LEASE),
        (protocol::SESSION_LEASE_CHANGED, record::SESSION_LEASE_CHANGED),
        (protocol::SET_INPUT_BINDING, record::SET_INPUT_BINDING),
        (protocol::INPUT_BOUND, record::INPUT_BOUND),
        (protocol::INPUT_REVOKED, record::INPUT_REVOKED),
        (protocol::INPUT_LEASE_RENEW, record::INPUT_LEASE_RENEW),
        (protocol::KEY_INPUT, record::KEY_INPUT),
        (protocol::POINTER_MOTION, record::POINTER_MOTION),
        (protocol::POINTER_BUTTON, record::POINTER_BUTTON),
        (protocol::POINTER_AXIS, record::POINTER_AXIS),
        (protocol::SET_FILE_DROP_BINDING, record::SET_FILE_DROP_BINDING),
        (protocol::FILE_DROP_BOUND, record::FILE_DROP_BOUND),
        (protocol::FILE_DROP_OFFER, record::FILE_DROP_OFFER),
        (protocol::ACCEPT_FILE_DROP, record::ACCEPT_FILE_DROP),
        (protocol::FILE_DROP_ACCEPTED, record::FILE_DROP_ACCEPTED),
        (protocol::CANCEL_FILE_DROP, record::CANCEL_FILE_DROP),
        (protocol::FILE_DROP_CANCELLED, record::FILE_DROP_CANCELLED),
        (protocol::ADVANCE_FILE_TRANSFER, record::ADVANCE_FILE_TRANSFER),
        (protocol::FILE_TRANSFER_ADVANCED, record::FILE_TRANSFER_ADVANCED),
        (protocol::QUERY_FILE_DROP, record::QUERY_FILE_DROP),
        (protocol::FILE_DROP_STATUS, record::FILE_DROP_STATUS),
        (protocol::FILE_TRANSFER_OPEN, record::FILE_TRANSFER_OPEN),
        (protocol::FILE_TRANSFER_ACCEPTED, record::FILE_TRANSFER_ACCEPTED),
        (protocol::FILE_DATA, record::FILE_DATA),
        (protocol::MAX_FILE_DATA, record::MAX_FILE_DATA),
        (protocol::FILE_FINISH, record::FILE_FINISH),
        (protocol::FILE_RESULT, record::FILE_RESULT),
        (protocol::FILE_TRANSFER_ABORT, record::FILE_TRANSFER_ABORT),
        (protocol::CHANNEL_OPEN, record::CHANNEL_OPEN),
        (protocol::VIDEO_PACKET, record::VIDEO_PACKET),
        (protocol::RASTER_FRAME, record::RASTER_FRAME),
        (protocol::IMAGE_DATA, record::IMAGE_DATA),
        (protocol::AUDIO_PACKET, record::AUDIO_PACKET),
        (protocol::CHANNEL_ACCEPTED, record::CHANNEL_ACCEPTED),
        (protocol::MAX_CHANNEL_DATA, record::MAX_CHANNEL_DATA),
        (protocol::CHANNEL_EOS, record::CHANNEL_EOS),
        (protocol::NEED_KEYFRAME, record::NEED_KEYFRAME),
        (protocol::NEED_FULL_FRAME, record::NEED_FULL_FRAME),
    ];
    for (own, wire) in pairs {
        assert_eq!(own, wire);
    }
}

#[test]
fn error_codes_are_the_protocols() {
    let pairs = [
        (protocol::ERROR_AUTH_FAILED, messages::ERROR_AUTH_FAILED),
        (protocol::ERROR_UNSUPPORTED_PROFILE, messages::ERROR_UNSUPPORTED_PROFILE),
        (protocol::ERROR_UNSUPPORTED_CONFIG, messages::ERROR_UNSUPPORTED_CONFIG),
        (protocol::ERROR_BAD_MESSAGE, messages::ERROR_BAD_MESSAGE),
        (protocol::ERROR_BAD_STATE, messages::ERROR_BAD_STATE),
        (protocol::ERROR_DUPLICATE_ID, messages::ERROR_DUPLICATE_ID),
        (protocol::ERROR_NOT_FOUND, messages::ERROR_NOT_FOUND),
        (protocol::ERROR_LIMIT_EXCEEDED, messages::ERROR_LIMIT_EXCEEDED),
        (protocol::ERROR_FLOW_CONTROL, messages::ERROR_FLOW_CONTROL),
        (protocol::ERROR_STALE_TARGET_GENERATION, messages::ERROR_STALE_TARGET_GENERATION),
        (protocol::ERROR_DECODER, messages::ERROR_DECODER),
        (protocol::ERROR_DEVICE_LOST, messages::ERROR_DEVICE_LOST),
        (protocol::ERROR_TIMEOUT, messages::ERROR_TIMEOUT),
        (protocol::ERROR_PRECONDITION_FAILED, messages::ERROR_PRECONDITION_FAILED),
        (protocol::ERROR_NOT_VISIBLE, messages::ERROR_NOT_VISIBLE),
        (protocol::ERROR_CANCELLED, messages::ERROR_CANCELLED),
        (protocol::ERROR_CHANNEL_BUSY, messages::ERROR_CHANNEL_BUSY),
        (protocol::ERROR_STALE_CHANNEL_GENERATION, messages::ERROR_STALE_CHANNEL_GENERATION),
        (protocol::ERROR_RATE_LIMITED, messages::ERROR_RATE_LIMITED),
    ];
    for (own, wire) in pairs {
        assert_eq!(own, wire);
    }
}

#[test]
fn profile_names_are_the_protocols() {
    let pairs = [
        (protocol::CORE_CONTROL, registry::CORE_CONTROL),
        (protocol::TERMINAL_SURFACE, registry::TERMINAL_SURFACE),
        (protocol::DESKTOP_SURFACE, registry::DESKTOP_SURFACE),
        (protocol::LIVE_MEDIA, registry::LIVE_MEDIA),
        (protocol::TIMED_MEDIA, registry::TIMED_MEDIA),
        (protocol::AUDIO_GAIN, registry::AUDIO_GAIN),
        (protocol::AUDIO_INPUT, registry::AUDIO_INPUT),
        (protocol::DESKTOP_INPUT, registry::DESKTOP_INPUT),
        (protocol::FILE_DROP, registry::FILE_DROP),
        (protocol::FILE_DROP_PATH, registry::FILE_DROP_PATH),
        (protocol::OBSERVABILITY, registry::OBSERVABILITY),
        (protocol::WEB_CARRIER, registry::WEB_CARRIER),
        (protocol::GENERIC_CONTENT, registry::GENERIC_CONTENT),
        (protocol::TERMINAL_CONTENT, registry::TERMINAL_CONTENT),
        (protocol::DESKTOP_CONTENT, registry::DESKTOP_CONTENT),
    ];
    for (own, wire) in pairs {
        assert_eq!(own, wire);
    }
}

#[test]
fn classes_and_limits_are_the_protocols() {
    let pairs = [
        (vivido::context::OP_OBSERVE, vivid_protocol::context::OP_OBSERVE),
        (vivido::context::OP_SURFACE_TRACK_MEDIA, vivid_protocol::context::OP_SURFACE_TRACK_MEDIA),
        (vivido::context::OP_SCENE, vivid_protocol::context::OP_SCENE),
        (vivido::context::OP_TERMINAL_ANCHOR, vivid_protocol::context::OP_TERMINAL_ANCHOR),
        (vivido::context::OP_DESKTOP_INPUT, vivid_protocol::context::OP_DESKTOP_INPUT),
        (vivido::context::OP_DELEGATE, vivid_protocol::context::OP_DELEGATE),
        (vivido::context::OP_RECEIVE_FILE_DROP, vivid_protocol::context::OP_RECEIVE_FILE_DROP),
        (vivido::input::INPUT_CLASS_KEYBOARD, vivid_protocol::input::INPUT_CLASS_KEYBOARD),
        (
            vivido::input::INPUT_CLASS_POINTER_MOTION,
            vivid_protocol::input::INPUT_CLASS_POINTER_MOTION,
        ),
        (
            vivido::input::INPUT_CLASS_POINTER_BUTTON,
            vivid_protocol::input::INPUT_CLASS_POINTER_BUTTON,
        ),
        (vivido::input::INPUT_CLASS_POINTER_AXIS, vivid_protocol::input::INPUT_CLASS_POINTER_AXIS),
        (vivido::observe::CLASS_SURFACE, vivid_protocol::observation::class::SURFACE),
        (vivido::observe::CLASS_TRACK, vivid_protocol::observation::class::TRACK),
        (vivido::observe::CLASS_SCENE, vivid_protocol::observation::class::SCENE),
        (
            vivido::playback_control::OBSERVATION_MASK,
            vivid_protocol::observation::class::KNOWN_MASK,
        ),
        (
            vivido::establish::CONTROL_MAX_RECORD_BODY.into(),
            vivid_protocol::CONTROL_MAX_RECORD_BODY.into(),
        ),
        (
            vivido::establish::WEB_MAX_CONTROL_RECORD_BODY.into(),
            vivid_protocol::web::MAX_CONTROL_RECORD_BODY.into(),
        ),
        (
            vivido::contract::WEB_MEDIA_RECORD_BODY,
            vivid_protocol::web::MAX_MEDIA_RECORD_BODY.into(),
        ),
        (
            vivido::contract::WEB_AGGREGATE_REASSEMBLY,
            vivid_protocol::web::MAX_AGGREGATE_REASSEMBLY,
        ),
        (
            vivido::lane_control::LANE_MAX_RECORD_BODY.into(),
            vivid_protocol::LANE_MAX_RECORD_BODY.into(),
        ),
    ];
    for (own, wire) in pairs {
        assert_eq!(own, wire);
    }
}
