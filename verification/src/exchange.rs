//! One request round trip, sequenced.
//!
//! Every sent command is answered by an echo of that same command and then by
//! one tagged result, in that order. An [`Exchange`] holds both decoders and
//! feeds each incoming character to the echo decoder until the echo is fully
//! consumed, and only then to the result decoder: the reply can never be
//! touched while a byte of the echo is outstanding, and no new exchange for
//! the same channel should be begun before this one is complete.

use vstd::prelude::*;
use crate::codec::{
    Command, CommandDecoder, CDecV, cdec_init, cdec_step, cdec_terminal, cdec_wf,
    encode_command, encode_command_spec,
};
use crate::result::{
    PythonResult, ResultDecoder, RDecV, rdec_init, rdec_step, rdec_terminal, rdec_wf,
};

verus! {

/// Which part of the round trip is outstanding.
#[derive(Clone, Copy, Debug, PartialEq, Eq)]
pub enum Phase {
    /// The echo of the sent command is being consumed.
    AwaitEcho,
    /// The echo is consumed and discarded; the result is being decoded.
    AwaitReply,
    /// The result is complete.
    Finished,
    /// The stream did not form an echo plus a result.
    Failed,
}

/// Mathematical image of an [`Exchange`].
#[verifier::ext_equal]
pub struct ExchangeV {
    pub echo: CDecV,
    pub reply: RDecV,
    pub phase: Phase,
}

/// The state a fresh exchange starts in.
pub open spec fn ex_init() -> ExchangeV {
    ExchangeV { echo: cdec_init(), reply: rdec_init(), phase: Phase::AwaitEcho }
}

/// Well-formedness of an exchange: both decoders are well formed, and the
/// phase agrees with how far each has come.
pub open spec fn ex_wf(m: ExchangeV) -> bool {
    &&& cdec_wf(m.echo)
    &&& rdec_wf(m.reply)
    &&& (m.phase is AwaitEcho ==> !cdec_terminal(m.echo) && m.reply == rdec_init())
    &&& (m.phase is AwaitReply ==> m.echo.st is Done && !rdec_terminal(m.reply))
    &&& (m.phase is Finished ==> m.reply.st is Done)
}

/// One incoming character: it advances the echo decoder until the echo is
/// complete, and only afterwards the result decoder.
pub open spec fn ex_step(m: ExchangeV, c: char) -> ExchangeV {
    match m.phase {
        Phase::AwaitEcho => {
            let e2 = cdec_step(m.echo, c);
            if e2.st is Done {
                ExchangeV { echo: e2, phase: Phase::AwaitReply, ..m }
            } else if e2.st is Bad {
                ExchangeV { echo: e2, phase: Phase::Failed, ..m }
            } else {
                ExchangeV { echo: e2, ..m }
            }
        },
        Phase::AwaitReply => {
            let r2 = rdec_step(m.reply, c);
            if r2.st is Done {
                ExchangeV { reply: r2, phase: Phase::Finished, ..m }
            } else if r2.st is Bad {
                ExchangeV { reply: r2, phase: Phase::Failed, ..m }
            } else {
                ExchangeV { reply: r2, ..m }
            }
        },
        _ => m,
    }
}

/// What one handed character made of the round trip.
#[derive(Debug)]
pub enum ExchangeStep {
    /// More characters are needed.
    Pending,
    /// Echo and result are both fully consumed; the result is ready to take.
    Complete,
    /// The stream is not a well-formed echo plus result.
    Malformed,
}

/// The round trip for one command: the text to write is handed out at the
/// start, and every character read back is fed in until the exchange reports
/// completion or failure.
#[derive(Debug)]
pub struct Exchange {
    echo: CommandDecoder,
    reply: ResultDecoder,
    phase: Phase,
}

impl View for Exchange {
    type V = ExchangeV;

    closed spec fn view(&self) -> ExchangeV {
        ExchangeV { echo: self.echo@, reply: self.reply@, phase: self.phase }
    }
}

impl Exchange {
    /// Start the round trip for `cmd`: the returned exchange expects the echo
    /// first, and the returned text is exactly what must be written to the
    /// transport, followed by one newline written separately.
    pub fn begin(cmd: &Command) -> (r: (Exchange, String))
        ensures
            r.0@ == ex_init(),
            ex_wf(r.0@),
            r.1@ == encode_command_spec(cmd@),
    {
        let wire = encode_command(cmd);
        let ex = Exchange {
            echo: CommandDecoder::new(),
            reply: ResultDecoder::new(),
            phase: Phase::AwaitEcho,
        };
        proof {
            assert(ex@ =~= ex_init());
        }
        (ex, wire)
    }

    /// Feed one character read back from the transport.
    pub fn on_char(&mut self, c: char) -> (r: ExchangeStep)
        requires
            ex_wf(old(self)@),
            old(self)@.phase is AwaitEcho || old(self)@.phase is AwaitReply,
        ensures
            final(self)@ == ex_step(old(self)@, c),
            ex_wf(final(self)@),
            (r is Complete <==> final(self)@.phase is Finished),
            (r is Malformed <==> final(self)@.phase is Failed),
            (r is Pending <==> final(self)@.phase is AwaitEcho || final(self)@.phase
                is AwaitReply),
    {
        match self.phase {
            Phase::AwaitEcho => {
                match self.echo.push(c) {
                    crate::codec::CPush::Pending => ExchangeStep::Pending,
                    crate::codec::CPush::Complete => {
                        self.phase = Phase::AwaitReply;
                        ExchangeStep::Pending
                    },
                    crate::codec::CPush::Malformed => {
                        self.phase = Phase::Failed;
                        ExchangeStep::Malformed
                    },
                }
            },
            Phase::AwaitReply => {
                match self.reply.push(c) {
                    crate::result::RPush::Pending => ExchangeStep::Pending,
                    crate::result::RPush::Complete => {
                        self.phase = Phase::Finished;
                        ExchangeStep::Complete
                    },
                    crate::result::RPush::Malformed => {
                        self.phase = Phase::Failed;
                        ExchangeStep::Malformed
                    },
                }
            },
            _ => vstd::pervasive::unreached(),
        }
    }

    /// Take the decoded result once the exchange is complete. The echoed
    /// command was consumed from the stream and is discarded here.
    pub fn into_result(self) -> (r: PythonResult)
        requires
            ex_wf(self@),
            self@.phase is Finished,
        ensures
            Some(r@) == self@.reply.val,
    {
        self.reply.into_result()
    }
}

} // verus!
