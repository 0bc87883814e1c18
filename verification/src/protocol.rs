//! Numeric and textual assignments of Vivid Protocol 1.5 that the presenter speaks.

use vstd::prelude::*;

verus! {

// Record types.

pub const HELLO: u16 = 0x0001;

pub const WELCOME: u16 = 0x0002;

pub const OK: u16 = 0x0003;

pub const ERROR: u16 = 0x0004;

pub const PING: u16 = 0x0005;

pub const PONG: u16 = 0x0006;

pub const GOODBYE: u16 = 0x0007;

pub const QUERY_SESSION: u16 = 0x0008;

pub const SESSION_STATUS: u16 = 0x0009;

pub const LANE_OPEN: u16 = 0x000a;

pub const LANE_ACCEPTED: u16 = 0x000b;

pub const TARGET_CHANGED: u16 = 0x000c;

pub const SET_OBSERVATION: u16 = 0x000e;

pub const CREATE_SURFACE: u16 = 0x0100;

pub const SURFACE_READY: u16 = 0x0101;

pub const UPDATE_SURFACE: u16 = 0x0102;

pub const DESTROY_SURFACE: u16 = 0x0103;

pub const QUERY_SURFACE: u16 = 0x0104;

pub const SURFACE_STATUS: u16 = 0x0105;

pub const SURFACE_CHANGED: u16 = 0x0106;

pub const PROBE_TRACK_CONFIG: u16 = 0x0120;

pub const TRACK_SUPPORT: u16 = 0x0121;

pub const CREATE_TRACK: u16 = 0x0122;

pub const TRACK_READY: u16 = 0x0123;

pub const DESTROY_TRACK: u16 = 0x0124;

pub const TRACK_LOST: u16 = 0x0125;

pub const ACTIVATE_TRACK: u16 = 0x0126;

pub const TRACK_ACTIVATED: u16 = 0x0127;

pub const ADVANCE_CHANNEL: u16 = 0x0128;

pub const CHANNEL_ADVANCED: u16 = 0x0129;

pub const QUERY_TRACK: u16 = 0x012a;

pub const TRACK_STATUS: u16 = 0x012b;

pub const WAIT_TRACK: u16 = 0x012c;

pub const WAIT_SATISFIED: u16 = 0x012d;

pub const CANCEL_WAIT: u16 = 0x012e;

pub const TRACK_CHANGED: u16 = 0x012f;

pub const BEGIN_TXN: u16 = 0x0200;

pub const CREATE_NODE: u16 = 0x0201;

pub const UPDATE_NODE: u16 = 0x0202;

pub const DELETE_NODE: u16 = 0x0203;

pub const COMMIT_TXN: u16 = 0x0204;

pub const ABORT_TXN: u16 = 0x0205;

pub const SCENE_PRESENTED: u16 = 0x0206;

pub const QUERY_SCENE: u16 = 0x0207;

pub const SCENE_STATUS: u16 = 0x0208;

pub const SCENE_CHANGED: u16 = 0x0209;

pub const ANCHOR_READY: u16 = 0x020a;

pub const ANCHOR_GONE: u16 = 0x020b;

pub const QUERY_ANCHOR: u16 = 0x020c;

pub const ANCHOR_STATUS: u16 = 0x020d;

pub const PLAY: u16 = 0x0300;

pub const PAUSE: u16 = 0x0301;

pub const FLUSH: u16 = 0x0303;

pub const DRAIN: u16 = 0x0304;

pub const SET_AUDIO_GAIN: u16 = 0x0307;

pub const CREATE_CONTEXT: u16 = 0x0600;

pub const CONTEXT_READY: u16 = 0x0601;

pub const REVOKE_CONTEXT: u16 = 0x0602;

pub const CREATE_SESSION_LEASE: u16 = 0x0610;

pub const SESSION_LEASE_READY: u16 = 0x0611;

pub const REVOKE_SESSION_LEASE: u16 = 0x0612;

pub const SESSION_LEASE_CHANGED: u16 = 0x0613;

pub const SET_INPUT_BINDING: u16 = 0x0700;

pub const INPUT_BOUND: u16 = 0x0701;

pub const INPUT_REVOKED: u16 = 0x0702;

pub const INPUT_LEASE_RENEW: u16 = 0x0703;

pub const KEY_INPUT: u16 = 0x0710;

pub const POINTER_MOTION: u16 = 0x0711;

pub const POINTER_BUTTON: u16 = 0x0712;

pub const POINTER_AXIS: u16 = 0x0713;

pub const SET_FILE_DROP_BINDING: u16 = 0x7000;

pub const FILE_DROP_BOUND: u16 = 0x7001;

pub const FILE_DROP_OFFER: u16 = 0x7002;

pub const ACCEPT_FILE_DROP: u16 = 0x7003;

pub const FILE_DROP_ACCEPTED: u16 = 0x7004;

pub const CANCEL_FILE_DROP: u16 = 0x7005;

pub const FILE_DROP_CANCELLED: u16 = 0x7006;

pub const ADVANCE_FILE_TRANSFER: u16 = 0x7007;

pub const FILE_TRANSFER_ADVANCED: u16 = 0x7008;

pub const QUERY_FILE_DROP: u16 = 0x7009;

pub const FILE_DROP_STATUS: u16 = 0x700a;

pub const FILE_TRANSFER_OPEN: u16 = 0x7010;

pub const FILE_TRANSFER_ACCEPTED: u16 = 0x7011;

pub const FILE_DATA: u16 = 0x7012;

pub const MAX_FILE_DATA: u16 = 0x7013;

pub const FILE_FINISH: u16 = 0x7014;

pub const FILE_RESULT: u16 = 0x7015;

pub const FILE_TRANSFER_ABORT: u16 = 0x7016;

pub const CHANNEL_OPEN: u16 = 0x8000;

pub const VIDEO_PACKET: u16 = 0x8001;

pub const RASTER_FRAME: u16 = 0x8003;

pub const IMAGE_DATA: u16 = 0x8006;

pub const AUDIO_PACKET: u16 = 0x8007;

pub const CHANNEL_ACCEPTED: u16 = 0x8008;

pub const MAX_CHANNEL_DATA: u16 = 0x8009;

pub const CHANNEL_EOS: u16 = 0x800a;

pub const NEED_KEYFRAME: u16 = 0x800b;

pub const NEED_FULL_FRAME: u16 = 0x800c;

// Error codes.

pub const ERROR_AUTH_FAILED: u64 = 1;

pub const ERROR_UNSUPPORTED_PROFILE: u64 = 3;

pub const ERROR_UNSUPPORTED_CONFIG: u64 = 4;

pub const ERROR_BAD_MESSAGE: u64 = 5;

pub const ERROR_BAD_STATE: u64 = 6;

pub const ERROR_DUPLICATE_ID: u64 = 7;

pub const ERROR_NOT_FOUND: u64 = 8;

pub const ERROR_LIMIT_EXCEEDED: u64 = 9;

pub const ERROR_FLOW_CONTROL: u64 = 11;

pub const ERROR_STALE_TARGET_GENERATION: u64 = 15;

pub const ERROR_DECODER: u64 = 18;

pub const ERROR_DEVICE_LOST: u64 = 19;

pub const ERROR_TIMEOUT: u64 = 20;

pub const ERROR_PRECONDITION_FAILED: u64 = 21;

pub const ERROR_NOT_VISIBLE: u64 = 23;

pub const ERROR_CANCELLED: u64 = 24;

pub const ERROR_CHANNEL_BUSY: u64 = 26;

pub const ERROR_STALE_CHANNEL_GENERATION: u64 = 27;

pub const ERROR_RATE_LIMITED: u64 = 29;

// Profile names.

pub const CORE_CONTROL: &'static str = "vivid-core-control-v1";

pub const TERMINAL_SURFACE: &'static str = "terminal-surface-v1";

pub const DESKTOP_SURFACE: &'static str = "desktop-surface-v1";

pub const LIVE_MEDIA: &'static str = "live-media-v1";

pub const TIMED_MEDIA: &'static str = "timed-media-v1";

pub const AUDIO_GAIN: &'static str = "audio-gain-v1";

pub const AUDIO_INPUT: &'static str = "audio-input-v1";

pub const DESKTOP_INPUT: &'static str = "desktop-input-v1";

pub const FILE_DROP: &'static str = "file-drop-v1";

pub const FILE_DROP_PATH: &'static str = "file-drop-path-v1";

pub const OBSERVABILITY: &'static str = "observability-v1";

pub const WEB_CARRIER: &'static str = "web-carrier-v1";

pub const GENERIC_CONTENT: &'static str = "generic-content-v1";

pub const TERMINAL_CONTENT: &'static str = "terminal-content-v1";

pub const DESKTOP_CONTENT: &'static str = "desktop-content-v1";

} // verus!
