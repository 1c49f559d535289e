//! Core of a minimal on-demand screen-capture utility: capability gating,
//! once-only capture-resource lifecycle, the start/fetch/stop capture
//! session, and deterministic decoding of raw platform frames into a
//! canonical RGBA image buffer.

pub mod config;
pub mod decode;
pub mod frame;
pub mod gate;
pub mod resource;
pub mod session;
