//! Scenario tests for the protocol core: framing round trips, handshake
//! success and failure, reply decoding, stalls, teardown and sequencing.

use pyboard::codec::{Command, CommandDecoder, CPush, encode_command};
use pyboard::exchange::{Exchange, ExchangeStep};
use pyboard::handshake::{Handshake, HandshakeStep, Scanner, Verdict, execute_signal, raw_mode_preamble};
use pyboard::result::{Payload, PythonResult, ResultDecoder, RPush};
use pyboard::PyboardError;

/// Feed a whole string into a command decoder; panic on a verdict before the
/// last character, and return the decoder if the last character completed it.
fn feed_command(s: &str) -> Result<CommandDecoder, &'static str> {
    let mut dec = CommandDecoder::new();
    let chars: Vec<char> = s.chars().collect();
    for (i, c) in chars.iter().enumerate() {
        match dec.push(*c) {
            CPush::Pending => {
                if i + 1 == chars.len() {
                    return Err("incomplete");
                }
            }
            CPush::Complete => {
                if i + 1 == chars.len() {
                    return Ok(dec);
                }
                return Err("completed early");
            }
            CPush::Malformed => return Err("malformed"),
        }
    }
    Err("empty input")
}

/// Feed a whole string into a reply decoder, expecting completion exactly at
/// the last character.
fn feed_result(s: &str) -> Result<ResultDecoder, &'static str> {
    let mut dec = ResultDecoder::new();
    let chars: Vec<char> = s.chars().collect();
    for (i, c) in chars.iter().enumerate() {
        match dec.push(*c) {
            RPush::Pending => {
                if i + 1 == chars.len() {
                    return Err("incomplete");
                }
            }
            RPush::Complete => {
                if i + 1 == chars.len() {
                    return Ok(dec);
                }
                return Err("completed early");
            }
            RPush::Malformed => return Err("malformed"),
        }
    }
    Err("empty input")
}

#[test]
fn encode_cat_exact() {
    let wire = encode_command(&Command::cat("boot.py".to_string()));
    assert_eq!(wire, "{\"command\":\"cat\",\"path\":\"boot.py\"}");
}

#[test]
fn encode_escapes_keep_wire_single_line() {
    let wire = encode_command(&Command::ls("a\"b\\c\nd\te\r\u{0008}\u{000c}\u{0001}".to_string()));
    assert_eq!(
        wire,
        "{\"command\":\"ls\",\"path\":\"a\\\"b\\\\c\\nd\\te\\r\\b\\f\\u0001\"}"
    );
    assert!(!wire.contains('\n'));
}

#[test]
fn round_trip_plain_command() {
    let cmd = Command::exists_at("/flash/main.py".to_string());
    let wire = encode_command(&cmd);
    let dec = feed_command(&wire).expect("round trip");
    let back = dec.into_command();
    assert_eq!(back.command, "exists");
    assert_eq!(back.path, "/flash/main.py");
}

#[test]
fn round_trip_hostile_path() {
    let path = "we\u{0001}ird\"\\\n\t\r\u{0008}\u{000c} névé\u{1f} end";
    let cmd = Command::cat(path.to_string());
    let wire = encode_command(&cmd);
    let dec = feed_command(&wire).expect("round trip");
    let back = dec.into_command();
    assert_eq!(back.command, "cat");
    assert_eq!(back.path, path);
}

#[test]
fn decode_accepts_whitespace_and_any_field_order() {
    let dec = feed_command("{ \"path\" : \"x.py\" ,\n\"command\" : \"cat\" }").expect("decode");
    let back = dec.into_command();
    assert_eq!(back.command, "cat");
    assert_eq!(back.path, "x.py");
}

#[test]
fn decode_rejects_duplicate_key() {
    let r = feed_command("{\"command\":\"a\",\"command\":\"b\"}");
    assert!(matches!(r, Err("malformed")));
}

#[test]
fn decode_rejects_unknown_key() {
    let r = feed_command("{\"command\":\"a\",\"paths\":\"b\"}");
    assert!(matches!(r, Err("malformed")));
}

#[test]
fn decode_rejects_missing_field() {
    let r = feed_command("{\"command\":\"a\"}");
    assert!(matches!(r, Err("malformed")));
}

#[test]
fn decode_unicode_escapes() {
    let dec = feed_result("{\"success\":\"\\u0041\\u00e9\\u0010\"}").expect("decode");
    match dec.into_result() {
        PythonResult::Success(Payload::Text(s)) => assert_eq!(s, "A\u{e9}\u{10}"),
        other => panic!("wrong payload: {:?}", other),
    }
}

#[test]
fn decode_rejects_lone_surrogate_escape() {
    let r = feed_result("{\"success\":\"\\ud800\"}");
    assert!(matches!(r, Err("malformed")));
}

#[test]
fn handshake_success_positions_stream_after_sentinel() {
    // The remote answers the control sequence with a banner, its `=` line,
    // then the lone `#` sentinel line.
    let reply = b"banner text\n=====\n#\n";
    let mut hs = Handshake::new();
    let mut ready_at = None;
    for (i, b) in reply.iter().enumerate() {
        match hs.on_byte(*b) {
            HandshakeStep::Ready => {
                ready_at = Some(i);
                break;
            }
            HandshakeStep::Pending => {}
        }
    }
    // Ready fires on the `#` itself: everything after the sentinel line's
    // newline is left for the command exchange.
    assert_eq!(ready_at, Some(18));
}

#[test]
fn handshake_failure_collects_diagnostic_through_eof() {
    let reply = b"banner\n=====\nTraceback...\nValueError: bad\n";
    let mut hs = Handshake::new();
    for b in reply.iter() {
        match hs.on_byte(*b) {
            HandshakeStep::Ready => panic!("must not report ready"),
            HandshakeStep::Pending => {}
        }
    }
    // The stream is exhausted: the reads fail from here on.
    match hs.failure("read timed out".to_string()) {
        PyboardError::Handshake(msg) => assert_eq!(msg, "Traceback...\nValueError: bad\n"),
        other => panic!("wrong error: {:?}", other),
    }
}

#[test]
fn handshake_transport_failure_before_banner_end() {
    let reply = b"banner text only, no terminator line";
    let mut hs = Handshake::new();
    for b in reply.iter() {
        match hs.on_byte(*b) {
            HandshakeStep::Ready => panic!("must not report ready"),
            HandshakeStep::Pending => {}
        }
    }
    match hs.failure("read timed out".to_string()) {
        PyboardError::Transport(msg) => assert_eq!(msg, "read timed out"),
        other => panic!("wrong error: {:?}", other),
    }
}

#[test]
fn scanner_ignores_marks_inside_lines() {
    let mut sc = Scanner::new();
    // `=` and `#` not at the start of a line decide nothing.
    for b in b"x=y#z\n".iter() {
        assert!(matches!(sc.step(*b), Verdict::Pending));
    }
    // A line starting with `=` ends the banner; the following `#` line wins.
    assert!(matches!(sc.step(b'='), Verdict::Pending));
    assert!(matches!(sc.step(b'\n'), Verdict::Pending));
    assert!(matches!(sc.step(b'#'), Verdict::Ready));
}

#[test]
fn control_sequence_bytes() {
    assert_eq!(raw_mode_preamble(), vec![3u8, 3u8, 5u8]);
    assert_eq!(execute_signal(), 4u8);
}

/// Drive one whole exchange against a simulated byte stream; returns the
/// result and how many characters were consumed.
fn run_exchange(cmd: &Command, stream: &[char]) -> (Result<PythonResult, &'static str>, usize) {
    let (mut ex, wire) = Exchange::begin(cmd);
    // The wire text would be written out; the remote echoes the same text.
    let _ = wire;
    let mut used = 0;
    for c in stream.iter() {
        used += 1;
        match ex.on_char(*c) {
            ExchangeStep::Pending => {}
            ExchangeStep::Complete => return (Ok(ex.into_result()), used),
            ExchangeStep::Malformed => return (Err("malformed"), used),
        }
    }
    (Err("incomplete"), used)
}

#[test]
fn success_decoding_for_cat() {
    let cmd = Command::cat("hello.txt".to_string());
    let wire = encode_command(&cmd);
    let stream: Vec<char> = format!("{}\n{{\"success\":\"hello\"}}\n", wire).chars().collect();
    let (res, used) = run_exchange(&cmd, &stream);
    match res.expect("exchange") {
        PythonResult::Success(p) => assert_eq!(p.into_text().expect("text"), "hello"),
        other => panic!("wrong result: {:?}", other),
    }
    // The closing brace completes the exchange; the trailing newline is left.
    assert_eq!(used, stream.len() - 1);
}

#[test]
fn error_decoding_for_cat() {
    let cmd = Command::cat("nope.txt".to_string());
    let wire = encode_command(&cmd);
    let stream: Vec<char> = format!("{}\n{{\"error\":\"no such file\"}}\n", wire).chars().collect();
    let (res, _) = run_exchange(&cmd, &stream);
    match res.expect("exchange").into_result() {
        Err(PyboardError::Remote(msg)) => assert_eq!(msg, "no such file"),
        other => panic!("wrong outcome: {:?}", other),
    }
}

#[test]
fn ls_entries_in_order() {
    let cmd = Command::ls("/".to_string());
    let wire = encode_command(&cmd);
    let stream: Vec<char> =
        format!("{}\n{{\"success\": [\"a.py\", \"b.py\", \"lib\"]}}\n", wire).chars().collect();
    let (res, _) = run_exchange(&cmd, &stream);
    match res.expect("exchange") {
        PythonResult::Success(p) => {
            assert_eq!(p.into_entries().expect("entries"), vec!["a.py", "b.py", "lib"]);
        }
        other => panic!("wrong result: {:?}", other),
    }
}

#[test]
fn ls_empty_directory() {
    let dec = feed_result("{\"success\":[]}").expect("decode");
    match dec.into_result() {
        PythonResult::Success(Payload::Entries(v)) => assert!(v.is_empty()),
        other => panic!("wrong payload: {:?}", other),
    }
}

#[test]
fn exists_flags() {
    let dec = feed_result("{\"success\": true}").expect("decode");
    match dec.into_result() {
        PythonResult::Success(Payload::Flag(b)) => assert!(b),
        other => panic!("wrong payload: {:?}", other),
    }
    let dec = feed_result("{ \"success\" : false }").expect("decode");
    match dec.into_result() {
        PythonResult::Success(Payload::Flag(b)) => assert!(!b),
        other => panic!("wrong payload: {:?}", other),
    }
}

#[test]
fn wrong_payload_shape_is_a_decode_error() {
    let dec = feed_result("{\"success\":true}").expect("decode");
    match dec.into_result() {
        PythonResult::Success(p) => match p.into_text() {
            Err(PyboardError::Decode) => {}
            other => panic!("wrong outcome: {:?}", other),
        },
        other => panic!("wrong result: {:?}", other),
    }
}

#[test]
fn reply_with_number_payload_is_malformed() {
    let r = feed_result("{\"success\":12}");
    assert!(matches!(r, Err("malformed")));
}

#[test]
fn stalled_reply_never_yields_a_partial_value() {
    // The remote stalls mid-message: no verdict may appear, and in the
    // running system the transport's own timeout then aborts the call.
    let mut dec = ResultDecoder::new();
    for c in "{\"success\":\"hel".chars() {
        match dec.push(c) {
            RPush::Pending => {}
            other => panic!("verdict on a stalled stream: {:?}", other),
        }
    }
}

#[test]
fn teardown_exchange_survives_a_broken_stream() {
    // Disposing a connection sends `exit` best-effort; a broken transport
    // answers with garbage. The exchange reports failure and nothing panics.
    let cmd = Command::exit();
    let stream: Vec<char> = "\u{0}\u{0}garbage".chars().collect();
    let (res, _) = run_exchange(&cmd, &stream);
    assert!(matches!(res, Err("malformed")));
    // A transport that answers nothing at all is just as harmless.
    let (res, used) = run_exchange(&cmd, &[]);
    assert!(matches!(res, Err("incomplete")));
    assert_eq!(used, 0);
}

#[test]
fn sequential_round_trips_do_not_interleave() {
    // `ls` then `cat` on one connection: each exchange must drain exactly its
    // own echo and result before the next one starts reading.
    let ls_cmd = Command::ls("/".to_string());
    let cat_cmd = Command::cat("a.py".to_string());
    let ls_wire = encode_command(&ls_cmd);
    let cat_wire = encode_command(&cat_cmd);
    let all = format!(
        "{}\n{{\"success\":[\"a.py\"]}}\n{}\n{{\"success\":\"print(1)\"}}\n",
        ls_wire, cat_wire
    );
    let chars: Vec<char> = all.chars().collect();
    let (first, used_first) = run_exchange(&ls_cmd, &chars);
    match first.expect("first exchange") {
        PythonResult::Success(p) => {
            assert_eq!(p.into_entries().expect("entries"), vec!["a.py"]);
        }
        other => panic!("wrong result: {:?}", other),
    }
    let rest = &chars[used_first..];
    let (second, used_second) = run_exchange(&cat_cmd, rest);
    match second.expect("second exchange") {
        PythonResult::Success(p) => assert_eq!(p.into_text().expect("text"), "print(1)"),
        other => panic!("wrong result: {:?}", other),
    }
    // Only the final terminator is left once both calls have drained.
    assert_eq!(&rest[used_second..], &['\n']);
}

#[test]
fn echo_consumption_stops_exactly_at_the_echo() {
    // After the echo, the decoder must not have touched a single byte of the
    // following result text.
    let cmd = Command::cat("x".to_string());
    let wire = encode_command(&cmd);
    let mut dec = CommandDecoder::new();
    let mut consumed = 0;
    let stream: Vec<char> = format!("{}{{\"success\":\"y\"}}", wire).chars().collect();
    for c in stream.iter() {
        consumed += 1;
        match dec.push(*c) {
            CPush::Pending => {}
            CPush::Complete => break,
            CPush::Malformed => panic!("echo malformed"),
        }
    }
    assert_eq!(consumed, wire.chars().count());
}
