//! Bringing the remote interpreter into raw command mode.
//!
//! The caller writes, in order: two interrupt bytes and the enter-raw-mode
//! byte, the bundled bootstrap program source, and one execute byte. The
//! remote answers with a startup banner whose last line is made of `=` signs;
//! the first real output line after that banner is either a lone `#`, meaning
//! ready, or the first line of a diagnostic message. This module holds the
//! byte-by-byte scanner that finds that boundary in an uncontrolled stream,
//! and the collector that accumulates the diagnostic once the scan has failed.
//! The caller performs the reads and feeds every byte in here.

use vstd::prelude::*;
use crate::PyboardError;

verus! {

/// The two interrupt bytes followed by the enter-raw-mode byte; written to
/// the transport before the bootstrap source.
pub fn raw_mode_preamble() -> (r: Vec<u8>)
    ensures
        r@ == seq![3u8, 3u8, 5u8],
{
    let mut v: Vec<u8> = Vec::new();
    v.push(3u8);
    v.push(3u8);
    v.push(5u8);
    proof {
        assert(v@ =~= seq![3u8, 3u8, 5u8]);
    }
    v
}

/// The byte that tells the remote interpreter to run what was just sent;
/// written right after the bootstrap source.
pub fn execute_signal() -> (r: u8)
    ensures
        r == 4u8,
{
    4u8
}

/// What one scanned byte decided.
#[derive(Debug, Clone, Copy, PartialEq, Eq)]
pub enum Verdict {
    /// Nothing decided yet: keep reading.
    Pending,
    /// A lone `#` line followed the banner: the remote is ready, and the
    /// stream stands right after that line.
    Ready,
    /// This byte begins a diagnostic line: the handshake has failed.
    ErrStart,
}

/// A two-byte sliding window over the reply stream. `prev` is the byte before
/// the one being examined; `suppress` is true while the scan is still inside
/// the startup banner, that is, until a line starting with `=` has passed.
#[derive(Debug, Clone, Copy, PartialEq, Eq)]
pub struct Scanner {
    pub prev: u8,
    pub suppress: bool,
}

impl Scanner {
    /// A scanner that has seen nothing: the window holds a zero byte and the
    /// banner is still being suppressed.
    pub fn new() -> (r: Scanner)
        ensures
            r.prev == 0u8,
            r.suppress,
    {
        Scanner { prev: 0, suppress: true }
    }

    /// Examine the next byte of the reply stream. A byte is only looked at
    /// when it starts a line (the previous byte was a newline): `=` marks the
    /// banner's end, `#` after the banner means ready, and anything else
    /// after the banner starts a diagnostic.
    pub fn step(&mut self, b: u8) -> (r: Verdict)
        ensures
            final(self).prev == b,
            final(self).suppress == (old(self).suppress && !(old(self).prev == 10 && b == 61)),
            (r is Ready <==> (old(self).prev == 10 && !old(self).suppress && b == 35)),
            (r is ErrStart <==> (old(self).prev == 10 && !old(self).suppress && b != 35 && b
                != 61)),
            (r is Pending <==> (old(self).prev != 10 || old(self).suppress || b == 61)),
    {
        let before = self.prev;
        self.prev = b;
        if before == 10 {
            if b == 61 {
                self.suppress = false;
                Verdict::Pending
            } else if self.suppress {
                Verdict::Pending
            } else if b == 35 {
                Verdict::Ready
            } else {
                Verdict::ErrStart
            }
        } else {
            Verdict::Pending
        }
    }
}

/// Mathematical image of a [`Handshake`].
#[verifier::ext_equal]
pub enum HandshakeV {
    /// Still scanning for the post-banner line.
    Scanning { prev: u8, suppress: bool },
    /// The post-banner line began a diagnostic; its bytes so far.
    Collecting(Seq<char>),
    /// The remote reported ready.
    Ready,
}

/// What one handed byte made of the handshake.
#[derive(Debug)]
pub enum HandshakeStep {
    /// Keep reading bytes.
    Pending,
    /// The remote is ready; the stream stands right after the `#` line.
    Ready,
}

/// The whole mode-entry reply scan: first the sliding-window [`Scanner`],
/// then, once a diagnostic line has begun, a collector that accumulates every
/// further byte as a character of the failure message. The caller feeds each
/// byte it reads; when it cannot read further, [`Handshake::failure`] names
/// the error.
#[derive(Debug)]
pub struct Handshake {
    state: HandshakeState,
}

#[derive(Debug)]
enum HandshakeState {
    Scanning(Scanner),
    Collecting(String),
    Ready,
}

impl View for Handshake {
    type V = HandshakeV;

    closed spec fn view(&self) -> HandshakeV {
        match self.state {
            HandshakeState::Scanning(sc) => HandshakeV::Scanning {
                prev: sc.prev,
                suppress: sc.suppress,
            },
            HandshakeState::Collecting(s) => HandshakeV::Collecting(s@),
            HandshakeState::Ready => HandshakeV::Ready,
        }
    }
}

impl Handshake {
    /// A handshake whose reply scan has seen nothing yet.
    pub fn new() -> (r: Handshake)
        ensures
            r@ == (HandshakeV::Scanning { prev: 0u8, suppress: true }),
    {
        Handshake { state: HandshakeState::Scanning(Scanner::new()) }
    }

    /// Feed one byte read from the transport. While scanning, the sliding
    /// window advances, and the byte that begins a diagnostic line switches
    /// the handshake to collecting; while collecting, every byte is kept as a
    /// character of the failure message.
    pub fn on_byte(&mut self, b: u8) -> (r: HandshakeStep)
        requires
            !(old(self)@ is Ready),
        ensures
            (match old(self)@ {
                HandshakeV::Scanning { prev, suppress } => {
                    let ready = prev == 10 && !suppress && b == 35;
                    let diag = prev == 10 && !suppress && b != 35 && b != 61;
                    &&& (ready ==> final(self)@ is Ready && r is Ready)
                    &&& (diag ==> final(self)@ == HandshakeV::Collecting(seq![b as char]) && r
                        is Pending)
                    &&& (!ready && !diag ==> final(self)@ == (HandshakeV::Scanning {
                        prev: b,
                        suppress: suppress && !(prev == 10 && b == 61),
                    }) && r is Pending)
                },
                HandshakeV::Collecting(s) => final(self)@ == HandshakeV::Collecting(
                    s.push(b as char),
                ) && r is Pending,
                HandshakeV::Ready => true,
            }),
    {
        match &mut self.state {
            HandshakeState::Scanning(sc) => {
                match sc.step(b) {
                    Verdict::Pending => HandshakeStep::Pending,
                    Verdict::Ready => {
                        self.state = HandshakeState::Ready;
                        HandshakeStep::Ready
                    },
                    Verdict::ErrStart => {
                        let mut s = String::new();
                        s.push(b as char);
                        self.state = HandshakeState::Collecting(s);
                        HandshakeStep::Pending
                    },
                }
            },
            HandshakeState::Collecting(s) => {
                s.push(b as char);
                HandshakeStep::Pending
            },
            HandshakeState::Ready => HandshakeStep::Pending,
        }
    }

    /// Name the failure once the transport cannot be read further. A scan
    /// that never reached a post-banner line failed because the channel did:
    /// that is a transport error carrying the caller's detail. A scan that
    /// was collecting a diagnostic failed in the remote: the end of the
    /// stream ends the message, and the text collected so far becomes the
    /// handshake error.
    pub fn failure(self, transport_detail: String) -> (r: PyboardError)
        requires
            !(self@ is Ready),
        ensures
            (self@ matches HandshakeV::Collecting(s) ==> r matches PyboardError::Handshake(t)
                && t@ == s),
            (self@ is Scanning ==> r == PyboardError::Transport(transport_detail)),
    {
        match self.state {
            HandshakeState::Collecting(s) => PyboardError::Handshake(s),
            _ => PyboardError::Transport(transport_detail),
        }
    }
}

} // verus!
