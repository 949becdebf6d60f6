//! Live audio routing core: a fixed-capacity FIFO latency buffer, the
//! per-block capture and playback logic that feeds and drains it, integer
//! latency sizing, stream-format negotiation, and the session state machine
//! that ties them together.

pub mod buffer;
pub mod callbacks;
pub mod format;
pub mod session;
