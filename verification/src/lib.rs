//! Decode/present synchronisation core of a streaming video client: the
//! lifecycle of one hardware decoder, the handshake between decoder output
//! and the display's frame-ready notification, and the latency statistics
//! that feed head-pose prediction.
pub mod statistics;
pub mod statistics_trace;
pub mod sync_surface;
pub mod config;
pub mod decoder;
pub mod lifecycle;
pub mod client;
pub mod platform;
