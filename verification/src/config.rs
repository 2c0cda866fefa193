//! Plain configuration records: the command-line arguments and the stream
//! identity that the handshake announces to the peer.

use vstd::prelude::*;

verus! {

/// Command-line arguments as the caller resolved them (flags and
/// environment variables). The library only reads these; argument parsing
/// itself stays outside.
pub struct Args {
    /// Name for the stream.
    pub name: Option<String>,
    /// Description for the stream.
    pub description: Option<String>,
    /// API token for authentication.
    pub token: Option<String>,
    /// Backend URL.
    pub url: String,
    /// Enable verbose logging.
    pub verbose: bool,
}

/// The identity a stream announces in the connection handshake.
/// Immutable after construction.
pub struct StreamConfig {
    pub name: String,
    pub description: Option<String>,
}

} // verus!
