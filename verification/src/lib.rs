//! Launch logic for a desktop shell that starts a bundled server, waits for
//! it to answer over HTTP, mirrors its output into the window console and
//! then points the window at it.
//!
//! Everything here is a pure decision: the caller performs the effects
//! (touching the disk, spawning the child, sleeping, sending requests) and
//! reports what happened.

pub mod config;
pub mod error;
pub mod launch;
pub mod laws;
pub mod monitor;
pub mod notes;
pub mod paths;
pub mod probe;
pub mod report;
pub mod text;
