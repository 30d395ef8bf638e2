//! Decoding of the remote interpreter's tagged reply.
//!
//! A reply is an object with a single key: `success` carrying the payload of
//! the operation (a string, a list of strings, or a boolean), or `error`
//! carrying the remote's failure message. The decoder consumes characters one
//! at a time and completes exactly at the closing brace.

use vstd::prelude::*;
use vstd::string::StringExecFns;
use crate::PyboardError;
use crate::codec::{StrPart, StrOut, str_step, str_part_inv, str_push, is_ws, is_ws_x};

verus! {

/// The payload a successful operation carries.
#[derive(Debug)]
pub enum Payload {
    /// File contents.
    Text(String),
    /// Directory entries, in the order the remote listed them.
    Entries(Vec<String>),
    /// An existence answer.
    Flag(bool),
}

/// Mathematical image of a [`Payload`].
#[verifier::ext_equal]
pub enum PayloadV {
    Text(Seq<char>),
    Entries(Seq<Seq<char>>),
    Flag(bool),
}

impl View for Payload {
    type V = PayloadV;

    open spec fn view(&self) -> PayloadV {
        match self {
            Payload::Text(s) => PayloadV::Text(s@),
            Payload::Entries(v) => PayloadV::Entries(v@.map_values(|s: String| s@)),
            Payload::Flag(b) => PayloadV::Flag(*b),
        }
    }
}

/// A decoded reply: the remote either returned a payload or reported failure.
#[derive(Debug)]
pub enum PythonResult {
    Success(Payload),
    Error(String),
}

/// Mathematical image of a [`PythonResult`].
#[verifier::ext_equal]
pub enum PyResultV {
    Success(PayloadV),
    Error(Seq<char>),
}

impl View for PythonResult {
    type V = PyResultV;

    open spec fn view(&self) -> PyResultV {
        match self {
            PythonResult::Success(p) => PyResultV::Success(p@),
            PythonResult::Error(m) => PyResultV::Error(m@),
        }
    }
}

impl PythonResult {
    /// A success becomes the payload; a reported failure becomes a `Remote`
    /// error carrying the remote's message, never both and never neither.
    pub fn into_result(self) -> (r: Result<Payload, PyboardError>)
        ensures
            (self@ matches PyResultV::Success(p) ==> r matches Ok(pay) && pay@ == p),
            (self@ matches PyResultV::Error(m) ==> r matches Err(PyboardError::Remote(s)) && s@
                == m),
            (r is Ok <==> self@ is Success),
    {
        match self {
            PythonResult::Success(p) => Ok(p),
            PythonResult::Error(m) => Err(PyboardError::Remote(m)),
        }
    }
}

impl Payload {
    /// The payload as file contents; any other shape is a malformed reply.
    pub fn into_text(self) -> (r: Result<String, PyboardError>)
        ensures
            (r matches Ok(s) ==> self@ == PayloadV::Text(s@)),
            (r is Ok <==> self@ is Text),
            (r is Err ==> r == Err::<String, PyboardError>(PyboardError::Decode)),
    {
        match self {
            Payload::Text(s) => Ok(s),
            _ => Err(PyboardError::Decode),
        }
    }

    /// The payload as directory entries; any other shape is a malformed reply.
    pub fn into_entries(self) -> (r: Result<Vec<String>, PyboardError>)
        ensures
            (r matches Ok(v) ==> self@ == PayloadV::Entries(v@.map_values(|s: String| s@))),
            (r is Ok <==> self@ is Entries),
            (r is Err ==> r == Err::<Vec<String>, PyboardError>(PyboardError::Decode)),
    {
        match self {
            Payload::Entries(v) => Ok(v),
            _ => Err(PyboardError::Decode),
        }
    }

    /// The payload as an existence answer; any other shape is a malformed
    /// reply.
    pub fn into_flag(self) -> (r: Result<bool, PyboardError>)
        ensures
            (r matches Ok(b) ==> self@ == PayloadV::Flag(b)),
            (r is Ok <==> self@ is Flag),
            (r is Err ==> r == Err::<bool, PyboardError>(PyboardError::Decode)),
    {
        match self {
            Payload::Flag(b) => Ok(b),
            _ => Err(PyboardError::Decode),
        }
    }
}

/// Which key the reply used.
#[derive(Clone, Copy, Debug, PartialEq, Eq)]
pub enum RKind {
    Success,
    Error,
}

/// Where the scan of a reply stands.
#[derive(Clone, Copy, Debug, PartialEq, Eq)]
pub enum RState {
    /// Before the opening brace.
    Start,
    /// Before the opening quote of the key.
    KeyStart,
    /// Inside the key.
    Key,
    /// Between the key and its colon.
    Colon { k: RKind },
    /// Between the colon and the first character of the value.
    ValStart { k: RKind },
    /// Inside a string value.
    Str { k: RKind, part: StrPart },
    /// Inside the word `true`; `got` characters of it have been consumed.
    TrueLit { got: u8 },
    /// Inside the word `false`; `got` characters of it have been consumed.
    FalseLit { got: u8 },
    /// Right after the opening bracket of a list.
    ArrStart,
    /// Inside one string element of a list.
    ArrStr { part: StrPart },
    /// After a list element, before a comma or the closing bracket.
    ArrSep,
    /// After a comma, before the next list element.
    ArrNext,
    /// After the value, before the closing brace.
    AfterVal,
    /// A complete reply has been consumed.
    Done,
    /// The input cannot be an encoded reply.
    Bad,
}

/// Mathematical image of a [`ResultDecoder`].
#[verifier::ext_equal]
pub struct RDecV {
    pub cur: Seq<char>,
    pub items: Seq<Seq<char>>,
    pub val: Option<PyResultV>,
    pub st: RState,
}

/// The state a fresh reply decoder starts in.
pub open spec fn rdec_init() -> RDecV {
    RDecV { cur: Seq::empty(), items: Seq::empty(), val: None, st: RState::Start }
}

/// A state in which the decoder accepts no further characters.
pub open spec fn rdec_terminal(m: RDecV) -> bool {
    m.st is Done || m.st is Bad
}

/// Well-formedness: partial escapes stay in bounds and completion implies a
/// decoded reply is at hand.
pub open spec fn rdec_wf(m: RDecV) -> bool {
    &&& (match m.st {
        RState::Str { part, .. } => str_part_inv(part),
        RState::ArrStr { part } => str_part_inv(part),
        _ => true,
    })
    &&& (m.st is Done ==> m.val is Some)
}

/// One character of the reply scan.
pub open spec fn rdec_step(m: RDecV, c: char) -> RDecV {
    let u = c as u32;
    match m.st {
        RState::Start => {
            if is_ws(c) { m }
            else if u == 123 { RDecV { st: RState::KeyStart, ..m } }
            else { RDecV { st: RState::Bad, ..m } }
        },
        RState::KeyStart => {
            if is_ws(c) { m }
            else if u == 34 { RDecV { cur: Seq::empty(), st: RState::Key, ..m } }
            else { RDecV { st: RState::Bad, ..m } }
        },
        RState::Key => {
            if u == 34 {
                if m.cur == "success"@ { RDecV { st: RState::Colon { k: RKind::Success }, ..m } }
                else if m.cur == "error"@ { RDecV { st: RState::Colon { k: RKind::Error }, ..m } }
                else { RDecV { st: RState::Bad, ..m } }
            } else if u == 92 || u < 32 {
                RDecV { st: RState::Bad, ..m }
            } else {
                RDecV { cur: m.cur.push(c), ..m }
            }
        },
        RState::Colon { k } => {
            if is_ws(c) { m }
            else if u == 58 { RDecV { st: RState::ValStart { k }, ..m } }
            else { RDecV { st: RState::Bad, ..m } }
        },
        RState::ValStart { k } => {
            if is_ws(c) { m }
            else if u == 34 {
                RDecV { cur: Seq::empty(), st: RState::Str { k, part: StrPart::Plain }, ..m }
            }
            else if u == 91 && k is Success { RDecV { items: Seq::empty(), st: RState::ArrStart, ..m } }
            else if u == 116 && k is Success { RDecV { st: RState::TrueLit { got: 1 }, ..m } }
            else if u == 102 && k is Success { RDecV { st: RState::FalseLit { got: 1 }, ..m } }
            else { RDecV { st: RState::Bad, ..m } }
        },
        RState::Str { k, part } => {
            let s = str_step(part, m.cur, c);
            match s.out {
                StrOut::Cont(next_part) => RDecV { cur: s.acc, st: RState::Str { k, part: next_part }, ..m },
                StrOut::End => {
                    match k {
                        RKind::Success => RDecV {
                            val: Some(PyResultV::Success(PayloadV::Text(m.cur))),
                            st: RState::AfterVal,
                            ..m
                        },
                        RKind::Error => RDecV {
                            val: Some(PyResultV::Error(m.cur)),
                            st: RState::AfterVal,
                            ..m
                        },
                    }
                },
                StrOut::Fail => RDecV { st: RState::Bad, ..m },
            }
        },
        RState::TrueLit { got } => {
            if got == 1 && u == 114 { RDecV { st: RState::TrueLit { got: 2 }, ..m } }
            else if got == 2 && u == 117 { RDecV { st: RState::TrueLit { got: 3 }, ..m } }
            else if got == 3 && u == 101 {
                RDecV { val: Some(PyResultV::Success(PayloadV::Flag(true))), st: RState::AfterVal, ..m }
            }
            else { RDecV { st: RState::Bad, ..m } }
        },
        RState::FalseLit { got } => {
            if got == 1 && u == 97 { RDecV { st: RState::FalseLit { got: 2 }, ..m } }
            else if got == 2 && u == 108 { RDecV { st: RState::FalseLit { got: 3 }, ..m } }
            else if got == 3 && u == 115 { RDecV { st: RState::FalseLit { got: 4 }, ..m } }
            else if got == 4 && u == 101 {
                RDecV { val: Some(PyResultV::Success(PayloadV::Flag(false))), st: RState::AfterVal, ..m }
            }
            else { RDecV { st: RState::Bad, ..m } }
        },
        RState::ArrStart => {
            if is_ws(c) { m }
            else if u == 34 {
                RDecV { cur: Seq::empty(), st: RState::ArrStr { part: StrPart::Plain }, ..m }
            }
            else if u == 93 {
                RDecV {
                    items: Seq::empty(),
                    val: Some(PyResultV::Success(PayloadV::Entries(m.items))),
                    st: RState::AfterVal,
                    ..m
                }
            }
            else { RDecV { st: RState::Bad, ..m } }
        },
        RState::ArrStr { part } => {
            let s = str_step(part, m.cur, c);
            match s.out {
                StrOut::Cont(next_part) => RDecV { cur: s.acc, st: RState::ArrStr { part: next_part }, ..m },
                StrOut::End => RDecV { items: m.items.push(m.cur), st: RState::ArrSep, ..m },
                StrOut::Fail => RDecV { st: RState::Bad, ..m },
            }
        },
        RState::ArrSep => {
            if is_ws(c) { m }
            else if u == 44 { RDecV { st: RState::ArrNext, ..m } }
            else if u == 93 {
                RDecV {
                    items: Seq::empty(),
                    val: Some(PyResultV::Success(PayloadV::Entries(m.items))),
                    st: RState::AfterVal,
                    ..m
                }
            }
            else { RDecV { st: RState::Bad, ..m } }
        },
        RState::ArrNext => {
            if is_ws(c) { m }
            else if u == 34 {
                RDecV { cur: Seq::empty(), st: RState::ArrStr { part: StrPart::Plain }, ..m }
            }
            else { RDecV { st: RState::Bad, ..m } }
        },
        RState::AfterVal => {
            if is_ws(c) { m }
            else if u == 125 {
                if m.val is Some { RDecV { st: RState::Done, ..m } }
                else { RDecV { st: RState::Bad, ..m } }
            }
            else { RDecV { st: RState::Bad, ..m } }
        },
        RState::Done => m,
        RState::Bad => m,
    }
}

/// What one pushed character made of the reply being decoded.
#[derive(Debug)]
pub enum RPush {
    /// The value is not yet structurally complete.
    Pending,
    /// The closing brace arrived: a whole reply has been consumed.
    Complete,
    /// The input cannot be an encoded reply.
    Malformed,
}

/// Incremental decoder for one tagged reply. Characters are pushed one at a
/// time; the decoder reports completion exactly at the character that closes
/// the value, so nothing past the value's natural end is ever consumed.
#[derive(Debug)]
pub struct ResultDecoder {
    cur: String,
    items: Vec<String>,
    val: Option<PythonResult>,
    st: RState,
}

impl View for ResultDecoder {
    type V = RDecV;

    closed spec fn view(&self) -> RDecV {
        RDecV {
            cur: self.cur@,
            items: self.items@.map_values(|s: String| s@),
            val: match self.val {
                Some(v) => Some(v@),
                None => None,
            },
            st: self.st,
        }
    }
}

impl ResultDecoder {
    /// A decoder that has consumed nothing yet.
    pub fn new() -> (r: ResultDecoder)
        ensures
            r@ == rdec_init(),
            rdec_wf(r@),
    {
        let r = ResultDecoder { cur: String::new(), items: Vec::new(), val: None, st: RState::Start };
        proof {
            assert(r@ =~= rdec_init());
        }
        r
    }

    /// Consume one character.
    #[verifier::rlimit(100)]
    #[verifier::spinoff_prover]
    pub fn push(&mut self, c: char) -> (r: RPush)
        requires
            rdec_wf(old(self)@),
            !rdec_terminal(old(self)@),
        ensures
            final(self)@ == rdec_step(old(self)@, c),
            rdec_wf(final(self)@),
            (r is Complete <==> final(self)@.st is Done),
            (r is Malformed <==> final(self)@.st is Bad),
            (r is Pending <==> !rdec_terminal(final(self)@)),
    {
        let u = c as u32;
        let ghost m0 = self@;
        let r = match self.st {
            RState::Start => {
                if is_ws_x(c) { RPush::Pending }
                else if u == 123 { self.st = RState::KeyStart; RPush::Pending }
                else { self.st = RState::Bad; RPush::Malformed }
            },
            RState::KeyStart => {
                if is_ws_x(c) { RPush::Pending }
                else if u == 34 {
                    self.cur = String::new();
                    self.st = RState::Key;
                    RPush::Pending
                }
                else { self.st = RState::Bad; RPush::Malformed }
            },
            RState::Key => {
                if u == 34 {
                    let key_success = String::from_str("success");
                    let key_error = String::from_str("error");
                    if self.cur == key_success {
                        self.st = RState::Colon { k: RKind::Success };
                        RPush::Pending
                    } else if self.cur == key_error {
                        self.st = RState::Colon { k: RKind::Error };
                        RPush::Pending
                    } else {
                        self.st = RState::Bad;
                        RPush::Malformed
                    }
                } else if u == 92 || u < 32 {
                    self.st = RState::Bad;
                    RPush::Malformed
                } else {
                    self.cur.push(c);
                    RPush::Pending
                }
            },
            RState::Colon { k } => {
                if is_ws_x(c) { RPush::Pending }
                else if u == 58 { self.st = RState::ValStart { k }; RPush::Pending }
                else { self.st = RState::Bad; RPush::Malformed }
            },
            RState::ValStart { k } => {
                if is_ws_x(c) { RPush::Pending }
                else if u == 34 {
                    self.cur = String::new();
                    self.st = RState::Str { k, part: StrPart::Plain };
                    RPush::Pending
                }
                else if u == 91 && matches!(k, RKind::Success) {
                    self.items = Vec::new();
                    self.st = RState::ArrStart;
                    RPush::Pending
                }
                else if u == 116 && matches!(k, RKind::Success) {
                    self.st = RState::TrueLit { got: 1 };
                    RPush::Pending
                }
                else if u == 102 && matches!(k, RKind::Success) {
                    self.st = RState::FalseLit { got: 1 };
                    RPush::Pending
                }
                else { self.st = RState::Bad; RPush::Malformed }
            },
            RState::Str { k, part } => {
                match str_push(part, &mut self.cur, c) {
                    StrOut::Cont(next_part) => {
                        self.st = RState::Str { k, part: next_part };
                        RPush::Pending
                    },
                    StrOut::End => {
                        match k {
                            RKind::Success => {
                                self.val = Some(PythonResult::Success(Payload::Text(
                                    self.cur.clone(),
                                )));
                            },
                            RKind::Error => {
                                self.val = Some(PythonResult::Error(self.cur.clone()));
                            },
                        }
                        self.st = RState::AfterVal;
                        RPush::Pending
                    },
                    StrOut::Fail => {
                        self.st = RState::Bad;
                        RPush::Malformed
                    },
                }
            },
            RState::TrueLit { got } => {
                if got == 1 && u == 114 { self.st = RState::TrueLit { got: 2 }; RPush::Pending }
                else if got == 2 && u == 117 { self.st = RState::TrueLit { got: 3 }; RPush::Pending }
                else if got == 3 && u == 101 {
                    self.val = Some(PythonResult::Success(Payload::Flag(true)));
                    self.st = RState::AfterVal;
                    RPush::Pending
                }
                else { self.st = RState::Bad; RPush::Malformed }
            },
            RState::FalseLit { got } => {
                if got == 1 && u == 97 { self.st = RState::FalseLit { got: 2 }; RPush::Pending }
                else if got == 2 && u == 108 { self.st = RState::FalseLit { got: 3 }; RPush::Pending }
                else if got == 3 && u == 115 { self.st = RState::FalseLit { got: 4 }; RPush::Pending }
                else if got == 4 && u == 101 {
                    self.val = Some(PythonResult::Success(Payload::Flag(false)));
                    self.st = RState::AfterVal;
                    RPush::Pending
                }
                else { self.st = RState::Bad; RPush::Malformed }
            },
            RState::ArrStart => {
                if is_ws_x(c) { RPush::Pending }
                else if u == 34 {
                    self.cur = String::new();
                    self.st = RState::ArrStr { part: StrPart::Plain };
                    RPush::Pending
                }
                else if u == 93 {
                    let mut taken: Vec<String> = Vec::new();
                    core::mem::swap(&mut taken, &mut self.items);
                    self.val = Some(PythonResult::Success(Payload::Entries(taken)));
                    self.st = RState::AfterVal;
                    RPush::Pending
                }
                else { self.st = RState::Bad; RPush::Malformed }
            },
            RState::ArrStr { part } => {
                match str_push(part, &mut self.cur, c) {
                    StrOut::Cont(next_part) => {
                        self.st = RState::ArrStr { part: next_part };
                        RPush::Pending
                    },
                    StrOut::End => {
                        self.items.push(self.cur.clone());
                        self.st = RState::ArrSep;
                        proof {
                            assert(self@.items =~= m0.items.push(m0.cur));
                        }
                        RPush::Pending
                    },
                    StrOut::Fail => {
                        self.st = RState::Bad;
                        RPush::Malformed
                    },
                }
            },
            RState::ArrSep => {
                if is_ws_x(c) { RPush::Pending }
                else if u == 44 { self.st = RState::ArrNext; RPush::Pending }
                else if u == 93 {
                    let mut taken: Vec<String> = Vec::new();
                    core::mem::swap(&mut taken, &mut self.items);
                    self.val = Some(PythonResult::Success(Payload::Entries(taken)));
                    self.st = RState::AfterVal;
                    RPush::Pending
                }
                else { self.st = RState::Bad; RPush::Malformed }
            },
            RState::ArrNext => {
                if is_ws_x(c) { RPush::Pending }
                else if u == 34 {
                    self.cur = String::new();
                    self.st = RState::ArrStr { part: StrPart::Plain };
                    RPush::Pending
                }
                else { self.st = RState::Bad; RPush::Malformed }
            },
            RState::AfterVal => {
                if is_ws_x(c) { RPush::Pending }
                else if u == 125 {
                    if self.val.is_some() {
                        self.st = RState::Done;
                        RPush::Complete
                    } else {
                        self.st = RState::Bad;
                        RPush::Malformed
                    }
                }
                else { self.st = RState::Bad; RPush::Malformed }
            },
            RState::Done => RPush::Pending,
            RState::Bad => RPush::Malformed,
        };
        proof {
            assert(self@ =~= rdec_step(m0, c));
        }
        r
    }

    /// Hand out the decoded reply once the scan is complete.
    pub fn into_result(self) -> (r: PythonResult)
        requires
            rdec_wf(self@),
            self@.st is Done,
        ensures
            Some(r@) == self@.val,
    {
        match self.val {
            Some(v) => v,
            None => vstd::pervasive::unreached(),
        }
    }
}

} // verus!
