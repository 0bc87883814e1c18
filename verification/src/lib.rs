//! Decision logic of a Vivid Protocol 1.5 presenter.
//!
//! Sockets, threads, codecs and devices live with the caller. This crate holds the rules: which
//! record is admitted, what is answered, what a session may reach, and what each event does to the
//! state a session owns.

pub mod actor;
pub mod anchor;
pub mod audio;
pub mod bucket;
pub mod channel;
pub mod context;
pub mod contract;
pub mod control;
pub mod decoder;
pub mod delegate;
pub mod digest;
pub mod dispatch;
pub mod drop_control;
pub mod drop_manager;
pub mod establish;
pub mod failure;
pub mod ffmpeg;
pub mod file_drop;
pub mod hid;
pub mod identity;
pub mod input;
pub mod lane;
pub mod lane_control;
pub mod lease;
pub mod live;
pub mod media;
pub mod metrics;
pub mod mic;
pub mod number;
pub mod observe;
pub mod opening;
pub mod outputs;
pub mod playback_control;
pub mod profile;
pub mod protocol;
pub mod raster;
pub mod registry;
pub mod reply;
pub mod scene_control;
pub mod session;
pub mod surface_control;
pub mod table;
pub mod text;
pub mod timeout;
pub mod track;
pub mod track_control;
pub mod transfer;
pub mod transfer_control;
pub mod value;
