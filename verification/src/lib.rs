//! Verified core of an on-device dictation subsystem.
//!
//! The library models the lifecycle of downloadable speech-recognition
//! models (acquire, verify, cache, evict) and of a single live capture
//! session (listen, transcribe, stop or cancel). All decision logic lives
//! here with machine-checked contracts; the host application performs the
//! actual network transfer, disk writes and audio capture, and reports
//! their outcomes back as plain events.

pub mod download;
pub mod error;
pub mod facade;
pub mod menu;
pub mod model;
pub mod notify;
pub mod session;
pub mod store;
pub mod terminal;
