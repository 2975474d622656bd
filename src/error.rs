//! Errors of the chunk-stream layer.

use vstd::prelude::*;

verus! {

/// Why a connection cannot go on.
#[derive(Debug, Clone, Copy, PartialEq, Eq, Structural)]
pub enum RtmpError {
    /// The bytes end before the item they hold is complete (a short read).
    ShortRead,
    /// A compressed header (fmt 2 or 3) arrived on a chunk stream that no
    /// earlier chunk opened.
    UnknownChunkStream(u32),
    /// Handshake bytes that the current phase does not take.
    UnexpectedHandshakeInput,
}

} // verus!
