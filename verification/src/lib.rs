//! Protocol core for driving a microcontroller's interactive interpreter over
//! a serial byte channel: a handshake that moves the remote side into raw
//! command-execution mode, a newline-terminated textual framing for commands
//! and their tagged results, and the echo-then-result sequencing of each round
//! trip. The byte channel itself is outside this crate; callers feed bytes in
//! and write the byte strings this crate hands out.

use vstd::prelude::*;

pub mod codec;
pub mod exchange;
pub mod handshake;
pub mod result;

verus! {

/// How an operation against the remote interpreter can fail.
#[derive(Debug, Clone, PartialEq, Eq)]
pub enum PyboardError {
    /// The byte channel itself failed: open, read, write or timeout.
    Transport(String),
    /// The byte stream did not form a complete, well-formed framed value.
    Decode,
    /// The remote interpreter never became ready; carries its diagnostic text.
    Handshake(String),
    /// The remote interpreter ran the command but reported a failure message.
    Remote(String),
}

} // verus!
