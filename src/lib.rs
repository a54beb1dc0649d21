//! Playback control over media players on a session bus: device selection,
//! action dispatch, result merging, track-change detection and labels.
//!
//! The bus itself stays outside: resolution, dispatch and detection are
//! step functions that say which question to ask next, and take its answer.

pub mod action;
pub mod device;
pub mod label;
pub mod playerctl;
pub mod text;
pub mod track;

pub use action::{
    DispatchStep, IconToken, OpReply, PlaybackStatus, PlayerError, PlayerOp, PlayerctlAction,
};
pub use device::{
    find_named, BusQuery, BusReply, PlayerctlDevice, PlayerctlDeviceRaw, ResolveError, ResolveStep,
    Resolver,
};
pub use label::{
    decimal_text, default_template_text, format_label, label_or_default, label_vars_of,
    render_label, LabelError,
};
pub use playerctl::{PlayerReport, Playerctl};
pub use text::{contains_text, same_text};
pub use track::{
    DetectStage, DetectStep, Observation, Probe, TrackChangeDetector, TrackMetadata, POLL_ATTEMPTS,
    POLL_INTERVAL_MS,
};
