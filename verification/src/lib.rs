//! Lifecycle and process-control core for running several concurrent copies of
//! applications that normally refuse to coexist.
//!
//! The crate holds the decisions: the instance state machine, spawn planning,
//! resource-limit translation, throttled monitoring and the orchestration of
//! the instance collection. Operating-system work (launching, signalling,
//! sampling) is carried out by the caller, which reports each outcome back as
//! a plain value.

pub mod app_state;
pub mod error;
pub mod instance;
pub mod macos;
pub mod monitor;
pub mod platform;
pub mod process;
pub mod profile;
pub mod resource;
pub mod settings;
pub mod text;
