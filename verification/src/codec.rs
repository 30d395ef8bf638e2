//! Framing of commands and results as compact, newline-free text.
//!
//! A command is written as an object with the two string fields `command` and
//! `path`; a result is read back as an object whose single key is either
//! `success` (carrying a string, a list of strings, or a boolean) or `error`
//! (carrying a message string). Values are self-delimiting: a decoder consumes
//! characters one at a time and reports completion exactly at the closing
//! brace, so a caller never reads past the value's natural end.

use vstd::prelude::*;
use vstd::string::StringExecFns;

verus! {

/// One request to the remote interpreter: a tag and a path argument.
#[derive(Debug, Clone)]
pub struct Command {
    pub command: String,
    pub path: String,
}

/// Mathematical image of a [`Command`]: both fields as character sequences.
#[verifier::ext_equal]
pub struct CommandV {
    pub command: Seq<char>,
    pub path: Seq<char>,
}

impl View for Command {
    type V = CommandV;

    open spec fn view(&self) -> CommandV {
        CommandV { command: self.command@, path: self.path@ }
    }
}

impl Command {
    /// Request the contents of the file at `path`.
    pub fn cat(path: String) -> (r: Command)
        ensures
            r@.command == "cat"@,
            r@.path == path@,
    {
        Command { command: String::from_str("cat"), path }
    }

    /// Request the entries of the directory at `path`.
    pub fn ls(path: String) -> (r: Command)
        ensures
            r@.command == "ls"@,
            r@.path == path@,
    {
        Command { command: String::from_str("ls"), path }
    }

    /// Ask whether anything exists at `path`.
    pub fn exists_at(path: String) -> (r: Command)
        ensures
            r@.command == "exists"@,
            r@.path == path@,
    {
        Command { command: String::from_str("exists"), path }
    }

    /// Tell the remote side to leave its command loop; sent on teardown.
    pub fn exit() -> (r: Command)
        ensures
            r@.command == "exit"@,
            r@.path == Seq::<char>::empty(),
    {
        Command { command: String::from_str("exit"), path: String::new() }
    }
}

/// Relies on `String::push`: appends the given character to the end of the
/// string.
pub assume_specification[ String::push ](s: &mut String, ch: char)
    ensures
        final(s)@ == old(s)@.push(ch),
;

/// Relies on `char::from_u32`: yields the character with this code point, or
/// `None` when the value is a surrogate or lies above the Unicode range.
pub assume_specification[ char::from_u32 ](i: u32) -> (r: Option<char>)
    ensures
        r is Some <==> vstd::utf8::is_scalar(i),
        r matches Some(c) ==> c as u32 == i,
;

/// The lower-case hexadecimal digit for a value below sixteen.
pub open spec fn hex_digit(n: int) -> char {
    if n == 0 { '0' } else if n == 1 { '1' } else if n == 2 { '2' } else if n == 3 { '3' }
    else if n == 4 { '4' } else if n == 5 { '5' } else if n == 6 { '6' } else if n == 7 { '7' }
    else if n == 8 { '8' } else if n == 9 { '9' } else if n == 10 { 'a' } else if n == 11 { 'b' }
    else if n == 12 { 'c' } else if n == 13 { 'd' } else if n == 14 { 'e' } else { 'f' }
}

fn hex_digit_x(n: u32) -> (r: char)
    requires
        n < 16,
    ensures
        r == hex_digit(n as int),
{
    if n == 0 { '0' } else if n == 1 { '1' } else if n == 2 { '2' } else if n == 3 { '3' }
    else if n == 4 { '4' } else if n == 5 { '5' } else if n == 6 { '6' } else if n == 7 { '7' }
    else if n == 8 { '8' } else if n == 9 { '9' } else if n == 10 { 'a' } else if n == 11 { 'b' }
    else if n == 12 { 'c' } else if n == 13 { 'd' } else if n == 14 { 'e' } else { 'f' }
}

/// How one character of a string payload appears on the wire: the quote, the
/// backslash and all control characters are escaped, so the encoding of a
/// command never contains a raw newline.
pub open spec fn esc_char(c: char) -> Seq<char> {
    let u = c as u32;
    if u == 34 { seq!['\\', '"'] }
    else if u == 92 { seq!['\\', '\\'] }
    else if u == 10 { seq!['\\', 'n'] }
    else if u == 13 { seq!['\\', 'r'] }
    else if u == 9 { seq!['\\', 't'] }
    else if u == 8 { seq!['\\', 'b'] }
    else if u == 12 { seq!['\\', 'f'] }
    else if u < 32 { seq!['\\', 'u', '0', '0', hex_digit(u as int / 16), hex_digit(u as int % 16)] }
    else { seq![c] }
}

/// A whole string payload, escaped character by character.
pub open spec fn esc(s: Seq<char>) -> Seq<char>
    decreases s.len(),
{
    if s.len() == 0 { Seq::empty() } else { esc_char(s[0]) + esc(s.skip(1)) }
}

/// Escaping distributes over concatenation.
pub proof fn lemma_esc_append(a: Seq<char>, b: Seq<char>)
    ensures
        esc(a + b) == esc(a) + esc(b),
    decreases a.len(),
{
    if a.len() == 0 {
        assert(a + b =~= b);
        assert(esc(a) + esc(b) =~= esc(b));
    } else {
        assert((a + b).skip(1) =~= a.skip(1) + b);
        lemma_esc_append(a.skip(1), b);
        assert(esc(a + b) =~= esc(a) + esc(b));
    }
}

/// Holds when no character of `s` is a raw newline.
pub open spec fn newline_free(s: Seq<char>) -> bool {
    forall|i: int| 0 <= i < s.len() ==> s[i] != '\n'
}

proof fn lemma_newline_free_concat(a: Seq<char>, b: Seq<char>)
    requires
        newline_free(a),
        newline_free(b),
    ensures
        newline_free(a + b),
{
    assert forall|i: int| 0 <= i < (a + b).len() implies (a + b)[i] != '\n' by {
        if i < a.len() {
            assert((a + b)[i] == a[i]);
        } else {
            assert((a + b)[i] == b[i - a.len()]);
        }
    }
}

proof fn lemma_esc_char_newline_free(c: char)
    ensures
        newline_free(esc_char(c)),
{
    let u = c as u32;
    if u == 10 {
    } else if !(u == 34 || u == 92 || u == 13 || u == 9 || u == 8 || u == 12) && u < 32 {
        assert(hex_digit(u as int / 16) != '\n');
        assert(hex_digit(u as int % 16) != '\n');
    } else if u >= 32 {
        lemma_char_ne(c, '\n');
    }
}

proof fn lemma_esc_newline_free(s: Seq<char>)
    ensures
        newline_free(esc(s)),
    decreases s.len(),
{
    if s.len() == 0 {
    } else {
        lemma_esc_char_newline_free(s[0]);
        lemma_esc_newline_free(s.skip(1));
        lemma_newline_free_concat(esc_char(s[0]), esc(s.skip(1)));
    }
}

/// Two characters with different code points differ.
proof fn lemma_char_ne(c: char, d: char)
    requires
        c as u32 != d as u32,
    ensures
        c != d,
{
}

/// The wire text of a command holds no raw newline anywhere: a newline in a
/// path or a tag is escaped, so the single terminating newline the caller
/// writes is the only one on the wire.
pub proof fn lemma_encoding_newline_free(v: CommandV)
    ensures
        newline_free(encode_command_spec(v)),
{
    reveal_strlit("{\"command\":\"");
    reveal_strlit("\",\"path\":\"");
    reveal_strlit("\"}");
    let seg1 = "{\"command\":\""@;
    let seg2 = "\",\"path\":\""@;
    let seg3 = "\"}"@;
    assert(newline_free(seg1));
    assert(newline_free(seg2));
    assert(newline_free(seg3));
    lemma_esc_newline_free(v.command);
    lemma_esc_newline_free(v.path);
    lemma_newline_free_concat(seg1, esc(v.command));
    lemma_newline_free_concat(seg1 + esc(v.command), seg2);
    lemma_newline_free_concat(seg1 + esc(v.command) + seg2, esc(v.path));
    lemma_newline_free_concat(seg1 + esc(v.command) + seg2 + esc(v.path), seg3);
}

/// The exact wire text of a command, terminator not included.
pub open spec fn encode_command_spec(v: CommandV) -> Seq<char> {
    "{\"command\":\""@ + esc(v.command) + "\",\"path\":\""@ + esc(v.path) + "\"}"@
}

/// Append the escaped form of `s` to `dst`.
#[verifier::rlimit(30)]
fn escape_into(dst: &mut String, s: &String)
    ensures
        final(dst)@ == old(dst)@ + esc(s@),
{
    let st = s.as_str();
    let n = st.unicode_len();
    let mut i: usize = 0;
    while i < n
        invariant
            st@ == s@,
            n == s@.len(),
            i <= n,
            dst@ == old(dst)@ + esc(s@.subrange(0, i as int)),
        decreases n - i,
    {
        let c = st.get_char(i);
        let u = c as u32;
        proof {
            assert(s@.subrange(0, i + 1) =~= s@.subrange(0, i as int) + seq![c]);
            lemma_esc_append(s@.subrange(0, i as int), seq![c]);
            assert(seq![c].skip(1) =~= Seq::<char>::empty());
            assert(esc(Seq::<char>::empty()) =~= Seq::<char>::empty());
            assert(esc(seq![c]) =~= esc_char(c) + esc(Seq::<char>::empty()));
            assert(esc(seq![c]) =~= esc_char(c));
        }
        if u == 34 {
            dst.push('\\'); dst.push('"');
        } else if u == 92 {
            dst.push('\\'); dst.push('\\');
        } else if u == 10 {
            dst.push('\\'); dst.push('n');
        } else if u == 13 {
            dst.push('\\'); dst.push('r');
        } else if u == 9 {
            dst.push('\\'); dst.push('t');
        } else if u == 8 {
            dst.push('\\'); dst.push('b');
        } else if u == 12 {
            dst.push('\\'); dst.push('f');
        } else if u < 32 {
            dst.push('\\'); dst.push('u'); dst.push('0'); dst.push('0');
            dst.push(hex_digit_x(u / 16));
            dst.push(hex_digit_x(u % 16));
        } else {
            dst.push(c);
        }
        proof {
            assert(dst@ =~= old(dst)@ + esc(s@.subrange(0, i + 1)));
        }
        i = i + 1;
    }
    proof {
        assert(s@.subrange(0, n as int) =~= s@);
    }
}

/// Serialize a command for the wire. The result never contains a raw newline,
/// so the caller may frame it with a single terminating newline of its own.
pub fn encode_command(c: &Command) -> (r: String)
    ensures
        r@ == encode_command_spec(c@),
{
    let mut r = String::from_str("{\"command\":\"");
    escape_into(&mut r, &c.command);
    r.append("\",\"path\":\"");
    escape_into(&mut r, &c.path);
    r.append("\"}");
    proof {
        assert(r@ =~= encode_command_spec(c@));
    }
    r
}

/// A whitespace character that may separate tokens of an encoded value.
pub open spec fn is_ws(c: char) -> bool {
    let u = c as u32;
    u == 32 || u == 9 || u == 10 || u == 13
}

pub(crate) fn is_ws_x(c: char) -> (r: bool)
    ensures
        r == is_ws(c),
{
    let u = c as u32;
    u == 32 || u == 9 || u == 10 || u == 13
}

/// The value of a hexadecimal digit character, if it is one.
pub open spec fn hex_val(c: char) -> Option<u32> {
    let u = c as u32;
    if 48 <= u && u <= 57 { Some((u - 48) as u32) }
    else if 97 <= u && u <= 102 { Some((u - 87) as u32) }
    else if 65 <= u && u <= 70 { Some((u - 55) as u32) }
    else { None }
}

fn hex_val_x(c: char) -> (r: Option<u32>)
    ensures
        r == hex_val(c),
{
    let u = c as u32;
    if 48 <= u && u <= 57 { Some(u - 48) }
    else if 97 <= u && u <= 102 { Some(u - 87) }
    else if 65 <= u && u <= 70 { Some(u - 55) }
    else { None }
}

/// Where the scan of one quoted string stands: in plain text, right after a
/// backslash, or inside the four digits of a `\u` escape.
#[derive(Clone, Copy, Debug, PartialEq, Eq)]
pub enum StrPart {
    Plain,
    Escape,
    Hex { got: u8, val: u32 },
}

/// What one character did to the scan of a quoted string.
#[derive(Clone, Copy, Debug, PartialEq, Eq)]
pub enum StrOut {
    Cont(StrPart),
    End,
    Fail,
}

/// Bound kept by every reachable [`StrPart`]: at most four hex digits, and a
/// partial escape value small enough that one more digit cannot overflow.
pub open spec fn str_part_inv(p: StrPart) -> bool {
    match p {
        StrPart::Hex { got, val } => {
            &&& got <= 3
            &&& val < 0x1000
            &&& (got <= 2 ==> val < 0x100)
            &&& (got <= 1 ==> val < 0x10)
            &&& (got == 0 ==> val == 0)
        },
        _ => true,
    }
}

/// Result of one step of the quoted-string scan.
#[verifier::ext_equal]
pub struct StrStepR {
    pub out: StrOut,
    pub acc: Seq<char>,
}

/// One character of a quoted string: either it extends the accumulated text,
/// ends the string at an unescaped quote, or shows the input malformed (a raw
/// control character, an unknown escape, or an escaped code point that is no
/// Unicode scalar value).
pub open spec fn str_step(part: StrPart, acc: Seq<char>, c: char) -> StrStepR {
    let u = c as u32;
    match part {
        StrPart::Plain => {
            if u == 34 { StrStepR { out: StrOut::End, acc } }
            else if u == 92 { StrStepR { out: StrOut::Cont(StrPart::Escape), acc } }
            else if u < 32 { StrStepR { out: StrOut::Fail, acc } }
            else { StrStepR { out: StrOut::Cont(StrPart::Plain), acc: acc.push(c) } }
        },
        StrPart::Escape => {
            if u == 34 { StrStepR { out: StrOut::Cont(StrPart::Plain), acc: acc.push('"') } }
            else if u == 92 { StrStepR { out: StrOut::Cont(StrPart::Plain), acc: acc.push('\\') } }
            else if u == 47 { StrStepR { out: StrOut::Cont(StrPart::Plain), acc: acc.push('/') } }
            else if u == 110 { StrStepR { out: StrOut::Cont(StrPart::Plain), acc: acc.push('\n') } }
            else if u == 114 { StrStepR { out: StrOut::Cont(StrPart::Plain), acc: acc.push('\r') } }
            else if u == 116 { StrStepR { out: StrOut::Cont(StrPart::Plain), acc: acc.push('\t') } }
            else if u == 98 { StrStepR { out: StrOut::Cont(StrPart::Plain), acc: acc.push('\u{0008}') } }
            else if u == 102 { StrStepR { out: StrOut::Cont(StrPart::Plain), acc: acc.push('\u{000c}') } }
            else if u == 117 { StrStepR { out: StrOut::Cont(StrPart::Hex { got: 0, val: 0 }), acc } }
            else { StrStepR { out: StrOut::Fail, acc } }
        },
        StrPart::Hex { got, val } => {
            match hex_val(c) {
                None => StrStepR { out: StrOut::Fail, acc },
                Some(h) => {
                    let v2 = ((val * 16 + h) as u32);
                    if got < 3 {
                        StrStepR {
                            out: StrOut::Cont(StrPart::Hex { got: (got + 1) as u8, val: v2 }),
                            acc,
                        }
                    } else if vstd::utf8::is_scalar(v2) {
                        StrStepR { out: StrOut::Cont(StrPart::Plain), acc: acc.push(v2 as char) }
                    } else {
                        StrStepR { out: StrOut::Fail, acc }
                    }
                },
            }
        },
    }
}

/// Run one character of the quoted-string scan, extending `acc` in place.
pub(crate) fn str_push(part: StrPart, acc: &mut String, c: char) -> (r: StrOut)
    requires
        str_part_inv(part),
    ensures
        r == str_step(part, old(acc)@, c).out,
        final(acc)@ == str_step(part, old(acc)@, c).acc,
        (r matches StrOut::Cont(next_part) ==> str_part_inv(next_part)),
{
    let u = c as u32;
    match part {
        StrPart::Plain => {
            if u == 34 { StrOut::End }
            else if u == 92 { StrOut::Cont(StrPart::Escape) }
            else if u < 32 { StrOut::Fail }
            else { acc.push(c); StrOut::Cont(StrPart::Plain) }
        },
        StrPart::Escape => {
            if u == 34 { acc.push('"'); StrOut::Cont(StrPart::Plain) }
            else if u == 92 { acc.push('\\'); StrOut::Cont(StrPart::Plain) }
            else if u == 47 { acc.push('/'); StrOut::Cont(StrPart::Plain) }
            else if u == 110 { acc.push('\n'); StrOut::Cont(StrPart::Plain) }
            else if u == 114 { acc.push('\r'); StrOut::Cont(StrPart::Plain) }
            else if u == 116 { acc.push('\t'); StrOut::Cont(StrPart::Plain) }
            else if u == 98 { acc.push('\u{0008}'); StrOut::Cont(StrPart::Plain) }
            else if u == 102 { acc.push('\u{000c}'); StrOut::Cont(StrPart::Plain) }
            else if u == 117 { StrOut::Cont(StrPart::Hex { got: 0, val: 0 }) }
            else { StrOut::Fail }
        },
        StrPart::Hex { got, val } => {
            match hex_val_x(c) {
                None => StrOut::Fail,
                Some(h) => {
                    let v2: u32 = val * 16 + h;
                    if got < 3 {
                        StrOut::Cont(StrPart::Hex { got: got + 1, val: v2 })
                    } else {
                        match char::from_u32(v2) {
                            Some(ch) => {
                                proof {
                                    vstd::utf8::char_u32_cast(ch, v2);
                                }
                                acc.push(ch);
                                StrOut::Cont(StrPart::Plain)
                            },
                            None => StrOut::Fail,
                        }
                    }
                },
            }
        },
    }
}

/// Which field of a command a key named.
#[derive(Clone, Copy, Debug, PartialEq, Eq)]
pub enum KeyId {
    Command,
    Path,
}

/// Where the scan of an encoded command stands.
#[derive(Clone, Copy, Debug, PartialEq, Eq)]
pub enum CState {
    /// Before the opening brace.
    Start,
    /// Before the opening quote of a key.
    KeyStart,
    /// Inside a key.
    Key,
    /// Between a key and its colon.
    Colon { k: KeyId },
    /// Between a colon and the opening quote of its value.
    ValStart { k: KeyId },
    /// Inside a value string.
    Val { k: KeyId, part: StrPart },
    /// After a value, before a comma or the closing brace.
    AfterVal,
    /// A complete command has been consumed.
    Done,
    /// The input cannot be an encoded command.
    Bad,
}

/// Mathematical image of a [`CommandDecoder`].
#[verifier::ext_equal]
pub struct CDecV {
    pub cur: Seq<char>,
    pub cmd: Option<Seq<char>>,
    pub path: Option<Seq<char>>,
    pub st: CState,
}

/// The state a fresh command decoder starts in.
pub open spec fn cdec_init() -> CDecV {
    CDecV { cur: Seq::empty(), cmd: None, path: None, st: CState::Start }
}

/// A state in which the decoder accepts no further characters.
pub open spec fn cdec_terminal(m: CDecV) -> bool {
    m.st is Done || m.st is Bad
}

/// Well-formedness of a decoder state: a partial escape stays in bounds, and
/// completion implies both fields were seen.
pub open spec fn cdec_wf(m: CDecV) -> bool {
    &&& (match m.st {
        CState::Val { part, .. } => str_part_inv(part),
        _ => true,
    })
    &&& (m.st is Done ==> m.cmd is Some && m.path is Some)
}

/// One character of the command scan. Whitespace may separate tokens; the two
/// keys may come in either order, each once; both must be present at the
/// closing brace.
pub open spec fn cdec_step(m: CDecV, c: char) -> CDecV {
    let u = c as u32;
    match m.st {
        CState::Start => {
            if is_ws(c) { m }
            else if u == 123 { CDecV { st: CState::KeyStart, ..m } }
            else { CDecV { st: CState::Bad, ..m } }
        },
        CState::KeyStart => {
            if is_ws(c) { m }
            else if u == 34 { CDecV { cur: Seq::empty(), st: CState::Key, ..m } }
            else { CDecV { st: CState::Bad, ..m } }
        },
        CState::Key => {
            if u == 34 {
                if m.cur == "command"@ && m.cmd is None {
                    CDecV { st: CState::Colon { k: KeyId::Command }, ..m }
                } else if m.cur == "path"@ && m.path is None {
                    CDecV { st: CState::Colon { k: KeyId::Path }, ..m }
                } else {
                    CDecV { st: CState::Bad, ..m }
                }
            } else if u == 92 || u < 32 {
                CDecV { st: CState::Bad, ..m }
            } else {
                CDecV { cur: m.cur.push(c), ..m }
            }
        },
        CState::Colon { k } => {
            if is_ws(c) { m }
            else if u == 58 { CDecV { st: CState::ValStart { k }, ..m } }
            else { CDecV { st: CState::Bad, ..m } }
        },
        CState::ValStart { k } => {
            if is_ws(c) { m }
            else if u == 34 {
                CDecV { cur: Seq::empty(), st: CState::Val { k, part: StrPart::Plain }, ..m }
            }
            else { CDecV { st: CState::Bad, ..m } }
        },
        CState::Val { k, part } => {
            let s = str_step(part, m.cur, c);
            match s.out {
                StrOut::Cont(next_part) => CDecV { cur: s.acc, st: CState::Val { k, part: next_part }, ..m },
                StrOut::End => {
                    match k {
                        KeyId::Command => CDecV { cmd: Some(m.cur), st: CState::AfterVal, ..m },
                        KeyId::Path => CDecV { path: Some(m.cur), st: CState::AfterVal, ..m },
                    }
                },
                StrOut::Fail => CDecV { st: CState::Bad, ..m },
            }
        },
        CState::AfterVal => {
            if is_ws(c) { m }
            else if u == 44 { CDecV { st: CState::KeyStart, ..m } }
            else if u == 125 {
                if m.cmd is Some && m.path is Some { CDecV { st: CState::Done, ..m } }
                else { CDecV { st: CState::Bad, ..m } }
            }
            else { CDecV { st: CState::Bad, ..m } }
        },
        CState::Done => m,
        CState::Bad => m,
    }
}

/// The decoder state after consuming a whole character sequence.
pub open spec fn cdec_run(m: CDecV, s: Seq<char>) -> CDecV
    decreases s.len(),
{
    if s.len() == 0 { m } else { cdec_run(cdec_step(m, s[0]), s.skip(1)) }
}

/// Unrolling [`cdec_run`] by one character.
pub proof fn lemma_run_unfold(m: CDecV, s: Seq<char>)
    requires
        s.len() > 0,
    ensures
        cdec_run(m, s) == cdec_run(cdec_step(m, s[0]), s.skip(1)),
{
}

/// Running a concatenation is running both parts in turn.
pub proof fn lemma_run_concat(m: CDecV, a: Seq<char>, b: Seq<char>)
    ensures
        cdec_run(m, a + b) == cdec_run(cdec_run(m, a), b),
    decreases a.len(),
{
    if a.len() == 0 {
        assert(a + b =~= b);
    } else {
        assert((a + b)[0] == a[0]);
        assert((a + b).skip(1) =~= a.skip(1) + b);
        lemma_run_concat(cdec_step(m, a[0]), a.skip(1), b);
    }
}

/// The decoder is alive all through `s`: after each of its characters, first
/// to last, the scan is neither complete nor failed.
pub open spec fn cdec_live(m: CDecV, s: Seq<char>) -> bool
    decreases s.len(),
{
    s.len() == 0 || (!cdec_terminal(cdec_step(m, s[0])) && cdec_live(cdec_step(m, s[0]), s.skip(
        1,
    )))
}

/// Liveness over a concatenation splits at the seam.
proof fn lemma_live_concat(m: CDecV, a: Seq<char>, b: Seq<char>)
    ensures
        cdec_live(m, a + b) == (cdec_live(m, a) && cdec_live(cdec_run(m, a), b)),
    decreases a.len(),
{
    if a.len() == 0 {
        assert(a + b =~= b);
    } else {
        assert((a + b)[0] == a[0]);
        assert((a + b).skip(1) =~= a.skip(1) + b);
        lemma_live_concat(cdec_step(m, a[0]), a.skip(1), b);
    }
}

proof fn lemma_live1(m: CDecV, a: char)
    requires
        !cdec_terminal(cdec_step(m, a)),
    ensures
        cdec_live(m, seq![a]),
{
    assert(seq![a].skip(1) =~= Seq::<char>::empty());
    assert(cdec_live(cdec_step(m, a), seq![a].skip(1)));
}

proof fn lemma_live2(m: CDecV, a: char, b: char)
    requires
        !cdec_terminal(cdec_step(m, a)),
        !cdec_terminal(cdec_step(cdec_step(m, a), b)),
    ensures
        cdec_live(m, seq![a, b]),
{
    assert(seq![a, b].skip(1) =~= seq![b]);
    lemma_live1(cdec_step(m, a), b);
}

proof fn lemma_run1(m: CDecV, a: char)
    ensures
        cdec_run(m, seq![a]) == cdec_step(m, a),
{
    assert(seq![a].skip(1) =~= Seq::<char>::empty());
    assert(cdec_run(m, seq![a]) == cdec_run(cdec_step(m, a), seq![a].skip(1)));
}

proof fn lemma_run2(m: CDecV, a: char, b: char)
    ensures
        cdec_run(m, seq![a, b]) == cdec_step(cdec_step(m, a), b),
{
    assert(seq![a, b].skip(1) =~= seq![b]);
    assert(cdec_run(m, seq![a, b]) == cdec_run(cdec_step(m, a), seq![b]));
    lemma_run1(cdec_step(m, a), b);
}

/// Two characters with equal code points are the same character.
proof fn lemma_char_eq(c: char, d: char)
    requires
        c as u32 == d as u32,
    ensures
        c == d,
{
    vstd::utf8::char_u32_cast(c, c as u32);
    vstd::utf8::char_u32_cast(d, d as u32);
}

/// Escaping then unescaping one hex digit gives the digit's value back.
proof fn lemma_hex_round(x: int)
    requires
        0 <= x < 16,
    ensures
        hex_val(hex_digit(x)) == Some(x as u32),
{
}

/// One escaped character, fed to a decoder inside a value string, appends
/// exactly that character to the accumulator and moves nowhere else.
proof fn lemma_run_esc_char(m: CDecV, k: KeyId, c: char)
    requires
        m.st == (CState::Val { k, part: StrPart::Plain }),
    ensures
        cdec_run(m, esc_char(c)) == (CDecV { cur: m.cur.push(c), ..m }),
        cdec_live(m, esc_char(c)),
{
    let u = c as u32;
    if u == 34 {
        lemma_char_eq(c, '"');
        lemma_run2(m, '\\', '"');
        lemma_live2(m, '\\', '"');
        assert(cdec_run(m, esc_char(c)) =~= (CDecV { cur: m.cur.push(c), ..m }));
    } else if u == 92 {
        lemma_char_eq(c, '\\');
        lemma_run2(m, '\\', '\\');
        lemma_live2(m, '\\', '\\');
        assert(cdec_run(m, esc_char(c)) =~= (CDecV { cur: m.cur.push(c), ..m }));
    } else if u == 10 {
        lemma_char_eq(c, '\n');
        lemma_run2(m, '\\', 'n');
        lemma_live2(m, '\\', 'n');
        assert(cdec_run(m, esc_char(c)) =~= (CDecV { cur: m.cur.push(c), ..m }));
    } else if u == 13 {
        lemma_char_eq(c, '\r');
        lemma_run2(m, '\\', 'r');
        lemma_live2(m, '\\', 'r');
        assert(cdec_run(m, esc_char(c)) =~= (CDecV { cur: m.cur.push(c), ..m }));
    } else if u == 9 {
        lemma_char_eq(c, '\t');
        lemma_run2(m, '\\', 't');
        lemma_live2(m, '\\', 't');
        assert(cdec_run(m, esc_char(c)) =~= (CDecV { cur: m.cur.push(c), ..m }));
    } else if u == 8 {
        lemma_char_eq(c, '\u{0008}');
        lemma_run2(m, '\\', 'b');
        lemma_live2(m, '\\', 'b');
        assert(cdec_run(m, esc_char(c)) =~= (CDecV { cur: m.cur.push(c), ..m }));
    } else if u == 12 {
        lemma_char_eq(c, '\u{000c}');
        lemma_run2(m, '\\', 'f');
        lemma_live2(m, '\\', 'f');
        assert(cdec_run(m, esc_char(c)) =~= (CDecV { cur: m.cur.push(c), ..m }));
    } else if u < 32 {
        let hi = u as int / 16;
        let lo = u as int % 16;
        lemma_hex_round(hi);
        lemma_hex_round(lo);
        let e = esc_char(c);
        assert(e =~= seq!['\\', 'u'] + seq!['0', '0'] + seq![hex_digit(hi), hex_digit(lo)]);
        lemma_run_concat(m, seq!['\\', 'u'] + seq!['0', '0'], seq![hex_digit(hi), hex_digit(lo)]);
        lemma_run_concat(m, seq!['\\', 'u'], seq!['0', '0']);
        lemma_run2(m, '\\', 'u');
        let m2 = cdec_step(cdec_step(m, '\\'), 'u');
        assert(m2.st == (CState::Val { k, part: StrPart::Hex { got: 0, val: 0 } }));
        lemma_run2(m2, '0', '0');
        let m4 = cdec_step(cdec_step(m2, '0'), '0');
        assert(m4.st == (CState::Val { k, part: StrPart::Hex { got: 2, val: 0 } }));
        lemma_run2(m4, hex_digit(hi), hex_digit(lo));
        let m5 = cdec_step(m4, hex_digit(hi));
        assert(m5.st == (CState::Val { k, part: StrPart::Hex { got: 3, val: hi as u32 } }));
        let m6 = cdec_step(m5, hex_digit(lo));
        assert(hi * 16 + lo == u) by (nonlinear_arith)
            requires hi == u as int / 16 && lo == u as int % 16 && u < 32;
        assert(vstd::utf8::is_scalar(u));
        vstd::utf8::char_u32_cast(c, u);
        assert(m6 == (CDecV { cur: m.cur.push(c), ..m }));
        assert(cdec_run(m, esc_char(c)) == m6);
        lemma_live_concat(m, seq!['\\', 'u'] + seq!['0', '0'], seq![hex_digit(hi), hex_digit(lo)]);
        lemma_live_concat(m, seq!['\\', 'u'], seq!['0', '0']);
        lemma_live2(m, '\\', 'u');
        lemma_live2(m2, '0', '0');
        lemma_live2(m4, hex_digit(hi), hex_digit(lo));
        assert(cdec_live(m, esc_char(c)));
    } else {
        assert(esc_char(c) =~= seq![c]);
        lemma_run1(m, c);
        lemma_live1(m, c);
        assert(cdec_run(m, esc_char(c)) =~= (CDecV { cur: m.cur.push(c), ..m }));
    }
}

/// A whole escaped string, fed to a decoder inside a value string, appends
/// exactly that string to the accumulator.
proof fn lemma_run_esc(m: CDecV, k: KeyId, s: Seq<char>)
    requires
        m.st == (CState::Val { k, part: StrPart::Plain }),
    ensures
        cdec_run(m, esc(s)) == (CDecV { cur: m.cur + s, ..m }),
        cdec_live(m, esc(s)),
    decreases s.len(),
{
    if s.len() == 0 {
        assert(esc(s) =~= Seq::<char>::empty());
        assert(m.cur + s =~= m.cur);
        assert(cdec_run(m, esc(s)) =~= (CDecV { cur: m.cur + s, ..m }));
    } else {
        let c = s[0];
        lemma_run_concat(m, esc_char(c), esc(s.skip(1)));
        lemma_live_concat(m, esc_char(c), esc(s.skip(1)));
        lemma_run_esc_char(m, k, c);
        let m2 = CDecV { cur: m.cur.push(c), ..m };
        lemma_run_esc(m2, k, s.skip(1));
        assert(m.cur.push(c) + s.skip(1) =~= m.cur + s);
        assert(cdec_run(m, esc(s)) =~= (CDecV { cur: m.cur + s, ..m }));
    }
}

/// Opening text of every encoded command, through the quote that starts the
/// `command` value.
proof fn lemma_run_opening()
    ensures
        cdec_run(cdec_init(), "{\"command\":\""@) == (CDecV {
            cur: Seq::empty(),
            cmd: None,
            path: None,
            st: CState::Val { k: KeyId::Command, part: StrPart::Plain },
        }),
        cdec_live(cdec_init(), "{\"command\":\""@),
{
    reveal_strlit("{\"command\":\"");
    reveal_strlit("command");
    let s = "{\"command\":\""@;
    assert(s.len() == 12);
    let m0 = cdec_init();
    let m1 = cdec_step(m0, s[0]);
    lemma_run_unfold(m0, s);
    let s1 = s.skip(1);
    let m2 = cdec_step(m1, s1[0]);
    lemma_run_unfold(m1, s1);
    let s2 = s1.skip(1);
    let m3 = cdec_step(m2, s2[0]);
    lemma_run_unfold(m2, s2);
    let s3 = s2.skip(1);
    let m4 = cdec_step(m3, s3[0]);
    lemma_run_unfold(m3, s3);
    let s4 = s3.skip(1);
    let m5 = cdec_step(m4, s4[0]);
    lemma_run_unfold(m4, s4);
    let s5 = s4.skip(1);
    let m6 = cdec_step(m5, s5[0]);
    lemma_run_unfold(m5, s5);
    let s6 = s5.skip(1);
    let m7 = cdec_step(m6, s6[0]);
    lemma_run_unfold(m6, s6);
    let s7 = s6.skip(1);
    let m8 = cdec_step(m7, s7[0]);
    lemma_run_unfold(m7, s7);
    let s8 = s7.skip(1);
    let m9 = cdec_step(m8, s8[0]);
    lemma_run_unfold(m8, s8);
    let s9 = s8.skip(1);
    assert(m9.cur =~= "command"@);
    let m10 = cdec_step(m9, s9[0]);
    lemma_run_unfold(m9, s9);
    let s10 = s9.skip(1);
    let m11 = cdec_step(m10, s10[0]);
    lemma_run_unfold(m10, s10);
    let s11 = s10.skip(1);
    let m12 = cdec_step(m11, s11[0]);
    lemma_run_unfold(m11, s11);
    let s12 = s11.skip(1);
    assert(s12.len() == 0);
    assert(cdec_run(m12, s12) == m12);
    assert(m12 =~= (CDecV {
        cur: Seq::empty(),
        cmd: None,
        path: None,
        st: CState::Val { k: KeyId::Command, part: StrPart::Plain },
    }));
    assert(cdec_live(m12, s12));
    assert(cdec_live(m11, s11));
    assert(cdec_live(m10, s10));
    assert(cdec_live(m9, s9));
    assert(cdec_live(m8, s8));
    assert(cdec_live(m7, s7));
    assert(cdec_live(m6, s6));
    assert(cdec_live(m5, s5));
    assert(cdec_live(m4, s4));
    assert(cdec_live(m3, s3));
    assert(cdec_live(m2, s2));
    assert(cdec_live(m1, s1));
    assert(cdec_live(m0, s));
}

/// Middle text of every encoded command: it closes the `command` value and
/// runs through the quote that starts the `path` value.
proof fn lemma_run_middle(m: CDecV)
    requires
        m.st == (CState::Val { k: KeyId::Command, part: StrPart::Plain }),
        m.cmd is None,
        m.path is None,
    ensures
        cdec_run(m, "\",\"path\":\""@) == (CDecV {
            cur: Seq::empty(),
            cmd: Some(m.cur),
            path: None,
            st: CState::Val { k: KeyId::Path, part: StrPart::Plain },
        }),
        cdec_live(m, "\",\"path\":\""@),
{
    reveal_strlit("\",\"path\":\"");
    reveal_strlit("path");
    let s = "\",\"path\":\""@;
    assert(s.len() == 10);
    let m1 = cdec_step(m, s[0]);
    lemma_run_unfold(m, s);
    let s1 = s.skip(1);
    let m2 = cdec_step(m1, s1[0]);
    lemma_run_unfold(m1, s1);
    let s2 = s1.skip(1);
    let m3 = cdec_step(m2, s2[0]);
    lemma_run_unfold(m2, s2);
    let s3 = s2.skip(1);
    let m4 = cdec_step(m3, s3[0]);
    lemma_run_unfold(m3, s3);
    let s4 = s3.skip(1);
    let m5 = cdec_step(m4, s4[0]);
    lemma_run_unfold(m4, s4);
    let s5 = s4.skip(1);
    let m6 = cdec_step(m5, s5[0]);
    lemma_run_unfold(m5, s5);
    let s6 = s5.skip(1);
    let m7 = cdec_step(m6, s6[0]);
    lemma_run_unfold(m6, s6);
    let s7 = s6.skip(1);
    assert(m7.cur =~= "path"@);
    let m8 = cdec_step(m7, s7[0]);
    lemma_run_unfold(m7, s7);
    let s8 = s7.skip(1);
    let m9 = cdec_step(m8, s8[0]);
    lemma_run_unfold(m8, s8);
    let s9 = s8.skip(1);
    let m10 = cdec_step(m9, s9[0]);
    lemma_run_unfold(m9, s9);
    let s10 = s9.skip(1);
    assert(s10.len() == 0);
    assert(cdec_run(m10, s10) == m10);
    assert(m10 =~= (CDecV {
        cur: Seq::empty(),
        cmd: Some(m.cur),
        path: None,
        st: CState::Val { k: KeyId::Path, part: StrPart::Plain },
    }));
    assert(cdec_live(m10, s10));
    assert(cdec_live(m9, s9));
    assert(cdec_live(m8, s8));
    assert(cdec_live(m7, s7));
    assert(cdec_live(m6, s6));
    assert(cdec_live(m5, s5));
    assert(cdec_live(m4, s4));
    assert(cdec_live(m3, s3));
    assert(cdec_live(m2, s2));
    assert(cdec_live(m1, s1));
    assert(cdec_live(m, s));
}

/// Closing text of every encoded command: it ends the `path` value and closes
/// the object.
proof fn lemma_run_closing(m: CDecV)
    requires
        m.st == (CState::Val { k: KeyId::Path, part: StrPart::Plain }),
        m.cmd is Some,
        m.path is None,
    ensures
        cdec_run(m, "\"}"@) == (CDecV {
            cur: m.cur,
            cmd: m.cmd,
            path: Some(m.cur),
            st: CState::Done,
        }),
{
    reveal_strlit("\"}");
    let s = "\"}"@;
    assert(s.len() == 2);
    let m1 = cdec_step(m, s[0]);
    lemma_run_unfold(m, s);
    let s1 = s.skip(1);
    let m2 = cdec_step(m1, s1[0]);
    lemma_run_unfold(m1, s1);
    let s2 = s1.skip(1);
    assert(s2.len() == 0);
    assert(cdec_run(m2, s2) == m2);
    assert(m2 =~= (CDecV { cur: m.cur, cmd: m.cmd, path: Some(m.cur), st: CState::Done }));
}

/// Round trip: the wire text of any command, consumed character by character
/// by a fresh decoder, ends the scan complete, with exactly the command's two
/// fields recovered. Together with [`CommandDecoder::push`]'s contract this
/// says that decoding undoes encoding.
pub proof fn lemma_encode_decode_round_trip(v: CommandV)
    ensures
        cdec_run(cdec_init(), encode_command_spec(v)) == (CDecV {
            cur: v.path,
            cmd: Some(v.command),
            path: Some(v.path),
            st: CState::Done,
        }),
{
    let seg1 = "{\"command\":\""@;
    let seg2 = "\",\"path\":\""@;
    let seg3 = "\"}"@;
    let a = esc(v.command);
    let b = esc(v.path);
    let e = encode_command_spec(v);
    lemma_run_concat(cdec_init(), seg1 + a + seg2 + b, seg3);
    lemma_run_concat(cdec_init(), seg1 + a + seg2, b);
    lemma_run_concat(cdec_init(), seg1 + a, seg2);
    lemma_run_concat(cdec_init(), seg1, a);
    lemma_run_opening();
    let m1 = cdec_run(cdec_init(), seg1);
    lemma_run_esc(m1, KeyId::Command, v.command);
    let m2 = cdec_run(m1, a);
    assert(m2.cur =~= v.command);
    lemma_run_middle(m2);
    let m3 = cdec_run(m2, seg2);
    lemma_run_esc(m3, KeyId::Path, v.path);
    let m4 = cdec_run(m3, b);
    assert(m4.cur =~= v.path);
    lemma_run_closing(m4);
}

/// Echo consumption: the scan of the wire text of any command stays strictly
/// incomplete through every character before the last one, and the last
/// character completes it. A reader that feeds the decoder one character at
/// a time and stops at completion has therefore consumed the echoed command
/// whole and nothing past it: the next character of the stream is the first
/// character of whatever follows the echo.
pub proof fn lemma_echo_consumed_exactly(v: CommandV)
    ensures
        encode_command_spec(v).len() >= 1,
        cdec_live(cdec_init(), encode_command_spec(v).take(encode_command_spec(v).len() - 1)),
        cdec_run(cdec_init(), encode_command_spec(v)).st is Done,
{
    let seg1 = "{\"command\":\""@;
    let seg2 = "\",\"path\":\""@;
    let a = esc(v.command);
    let b = esc(v.path);
    let e = encode_command_spec(v);
    reveal_strlit("{\"command\":\"");
    reveal_strlit("\",\"path\":\"");
    reveal_strlit("\"}");
    lemma_encode_decode_round_trip(v);
    let prefix = seg1 + a + seg2 + b + seq!['"'];
    assert(e.take(e.len() - 1) =~= prefix);
    lemma_run_opening();
    let m1 = cdec_run(cdec_init(), seg1);
    lemma_run_esc(m1, KeyId::Command, v.command);
    let m2 = cdec_run(m1, a);
    lemma_run_middle(m2);
    let m3 = cdec_run(m2, seg2);
    lemma_run_esc(m3, KeyId::Path, v.path);
    let m4 = cdec_run(m3, b);
    assert(!cdec_terminal(cdec_step(m4, '"')));
    lemma_live1(m4, '"');
    lemma_run_concat(cdec_init(), seg1, a);
    lemma_run_concat(cdec_init(), seg1 + a, seg2);
    lemma_run_concat(cdec_init(), seg1 + a + seg2, b);
    lemma_live_concat(cdec_init(), seg1, a);
    lemma_live_concat(cdec_init(), seg1 + a, seg2);
    lemma_live_concat(cdec_init(), seg1 + a + seg2, b);
    lemma_live_concat(cdec_init(), seg1 + a + seg2 + b, seq!['"']);
    assert(cdec_live(cdec_init(), prefix));
}

/// What one pushed character made of the command being decoded.
#[derive(Debug)]
pub enum CPush {
    /// The value is not yet structurally complete.
    Pending,
    /// The closing brace arrived: a whole command has been consumed.
    Complete,
    /// The input cannot be an encoded command.
    Malformed,
}

/// Incremental decoder for one encoded command. Characters are pushed one at
/// a time; the decoder reports completion exactly at the character that closes
/// the value, so nothing past the value's natural end is ever consumed.
#[derive(Debug)]
pub struct CommandDecoder {
    cur: String,
    cmd: Option<String>,
    path: Option<String>,
    st: CState,
}

impl View for CommandDecoder {
    type V = CDecV;

    closed spec fn view(&self) -> CDecV {
        CDecV {
            cur: self.cur@,
            cmd: match self.cmd {
                Some(s) => Some(s@),
                None => None,
            },
            path: match self.path {
                Some(s) => Some(s@),
                None => None,
            },
            st: self.st,
        }
    }
}

impl CommandDecoder {
    /// A decoder that has consumed nothing yet.
    pub fn new() -> (r: CommandDecoder)
        ensures
            r@ == cdec_init(),
            cdec_wf(r@),
    {
        let r = CommandDecoder { cur: String::new(), cmd: None, path: None, st: CState::Start };
        proof {
            assert(r@ =~= cdec_init());
        }
        r
    }

    /// Consume one character.
    pub fn push(&mut self, c: char) -> (r: CPush)
        requires
            cdec_wf(old(self)@),
            !cdec_terminal(old(self)@),
        ensures
            final(self)@ == cdec_step(old(self)@, c),
            cdec_wf(final(self)@),
            (r is Complete <==> final(self)@.st is Done),
            (r is Malformed <==> final(self)@.st is Bad),
            (r is Pending <==> !cdec_terminal(final(self)@)),
    {
        let u = c as u32;
        let ghost m0 = self@;
        let r = match self.st {
            CState::Start => {
                if is_ws_x(c) { CPush::Pending }
                else if u == 123 { self.st = CState::KeyStart; CPush::Pending }
                else { self.st = CState::Bad; CPush::Malformed }
            },
            CState::KeyStart => {
                if is_ws_x(c) { CPush::Pending }
                else if u == 34 {
                    self.cur = String::new();
                    self.st = CState::Key;
                    CPush::Pending
                }
                else { self.st = CState::Bad; CPush::Malformed }
            },
            CState::Key => {
                if u == 34 {
                    let key_command = String::from_str("command");
                    let key_path = String::from_str("path");
                    let is_cmd = self.cur == key_command;
                    let is_path = self.cur == key_path;
                    if is_cmd && self.cmd.is_none() {
                        self.st = CState::Colon { k: KeyId::Command };
                        CPush::Pending
                    } else if is_path && self.path.is_none() {
                        self.st = CState::Colon { k: KeyId::Path };
                        CPush::Pending
                    } else {
                        self.st = CState::Bad;
                        CPush::Malformed
                    }
                } else if u == 92 || u < 32 {
                    self.st = CState::Bad;
                    CPush::Malformed
                } else {
                    self.cur.push(c);
                    CPush::Pending
                }
            },
            CState::Colon { k } => {
                if is_ws_x(c) { CPush::Pending }
                else if u == 58 { self.st = CState::ValStart { k }; CPush::Pending }
                else { self.st = CState::Bad; CPush::Malformed }
            },
            CState::ValStart { k } => {
                if is_ws_x(c) { CPush::Pending }
                else if u == 34 {
                    self.cur = String::new();
                    self.st = CState::Val { k, part: StrPart::Plain };
                    CPush::Pending
                }
                else { self.st = CState::Bad; CPush::Malformed }
            },
            CState::Val { k, part } => {
                match str_push(part, &mut self.cur, c) {
                    StrOut::Cont(next_part) => {
                        self.st = CState::Val { k, part: next_part };
                        CPush::Pending
                    },
                    StrOut::End => {
                        match k {
                            KeyId::Command => {
                                self.cmd = Some(self.cur.clone());
                            },
                            KeyId::Path => {
                                self.path = Some(self.cur.clone());
                            },
                        }
                        self.st = CState::AfterVal;
                        CPush::Pending
                    },
                    StrOut::Fail => {
                        self.st = CState::Bad;
                        CPush::Malformed
                    },
                }
            },
            CState::AfterVal => {
                if is_ws_x(c) { CPush::Pending }
                else if u == 44 { self.st = CState::KeyStart; CPush::Pending }
                else if u == 125 {
                    if self.cmd.is_some() && self.path.is_some() {
                        self.st = CState::Done;
                        CPush::Complete
                    } else {
                        self.st = CState::Bad;
                        CPush::Malformed
                    }
                }
                else { self.st = CState::Bad; CPush::Malformed }
            },
            CState::Done => CPush::Pending,
            CState::Bad => CPush::Malformed,
        };
        proof {
            assert(self@ =~= cdec_step(m0, c));
        }
        r
    }

    /// Hand out the decoded command once the scan is complete.
    pub fn into_command(self) -> (r: Command)
        requires
            cdec_wf(self@),
            self@.st is Done,
        ensures
            Some(r@.command) == self@.cmd,
            Some(r@.path) == self@.path,
    {
        match (self.cmd, self.path) {
            (Some(command), Some(path)) => Command { command, path },
            _ => vstd::pervasive::unreached(),
        }
    }
}

} // verus!
