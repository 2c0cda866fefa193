//! Forwards a sequence of text lines to a remote peer over a persistent
//! message channel, batching them under an adaptive pacing delay.
//!
//! The verified core is the batching and flow-control engine
//! ([`StreamProcessor`]), the pacing-delay controller ([`pacing`]), and the
//! protocol layer ([`protocol`]) that classifies handshake replies and frames
//! line and end-of-stream messages. Connection establishment and the actual
//! I/O loop live outside the library and drive it through these types.

pub mod config;
pub mod engine;
pub mod pacing;
pub mod protocol;

pub use config::Args;
pub use config::StreamConfig;
pub use engine::StreamProcessor;
pub use protocol::StreamError;
pub use protocol::StreamSession;
