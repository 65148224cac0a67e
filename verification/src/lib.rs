//! Frame streaming for a camera board: a shared sensor lends out one frame
//! at a time, each client's session pulls a frame, writes it as one part of
//! a multipart response and hands it back, and the books of what went out
//! and came back are proved to balance on every path.
//!
//! The library decides and never waits: whoever owns the network link, the
//! sensor driver and the connections does what it asks for and reports
//! back what came of it.

pub mod decoder;
pub mod encoder;
pub mod frame;
pub mod ov3660;
pub mod session;
pub mod sharing;
pub mod snapshot;
pub mod startup;
pub mod trace;
pub mod wire;
