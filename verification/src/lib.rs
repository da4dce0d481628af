//! Verified core logic of the Codictate dictation app: transcript insertion
//! formatting, correction extraction, recording start state machine, model
//! catalog and a few small policy decisions.

pub mod text;
pub mod keyed;
pub mod smart_insertion;
pub mod correction;
pub mod audio;
pub mod microphone;
pub mod history;
pub mod mlx;
pub mod notification;
pub mod overlay;
pub mod shortcut;
pub mod permissions;
pub mod tracing_config;
pub mod tray;
