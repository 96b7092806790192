//! Scenario tests for the session engine, driven through an in-memory
//! byte link whose behavior is selected by the endpoint name.

use serial_session::link::{ByteLink, ReadOutcome};
use serial_session::session::{ConnState, Session};
use serial_session::NewlineMode;

/// An in-memory byte link. The endpoint name selects its behavior:
/// - "echo": every read serves the next byte of `b"OK\n"`;
/// - "silent": every read times out;
/// - "eof": reads serve `b"OK"` and then report end of stream;
/// - "blank": reads serve `b"  \n"` (whitespace only);
/// - "failwrite": every write fails with "boom";
/// - "failsecond": the first write succeeds, the second fails with "boom";
/// - "failread": every read fails with "bang";
/// - "expectlf": the first write must be exactly `b"PING"` and the second
///   exactly `b"\n"`, else the write fails with a diagnostic.
struct FakeLink {
    kind: String,
    incoming: Vec<u8>,
    pos: usize,
    eof_at_end: bool,
    writes_seen: usize,
}

impl ByteLink for FakeLink {
    fn open_link(name: &str, _baud: u32, _timeout_ms: u64) -> Result<Self, String> {
        let (incoming, eof_at_end): (Vec<u8>, bool) = match name {
            "echo" => (b"OK\n".to_vec(), false),
            "eof" => (b"OK".to_vec(), true),
            "blank" => (b"  \n".to_vec(), false),
            "failopen" => return Err(String::from("no such device")),
            _ => (Vec::new(), false),
        };
        Ok(FakeLink {
            kind: String::from(name),
            incoming,
            pos: 0,
            eof_at_end,
            writes_seen: 0,
        })
    }

    fn write_all_bytes(&mut self, data: &[u8]) -> Result<(), String> {
        self.writes_seen += 1;
        if self.kind == "failwrite" {
            return Err(String::from("boom"));
        }
        if self.kind == "failsecond" && self.writes_seen == 2 {
            return Err(String::from("boom"));
        }
        if self.kind == "expectlf" {
            if self.writes_seen == 1 && data != b"PING" {
                return Err(String::from("wrong command bytes"));
            }
            if self.writes_seen == 2 && data != b"\n" {
                return Err(String::from("wrong terminator bytes"));
            }
        }
        Ok(())
    }

    fn read_one_byte(&mut self) -> Result<ReadOutcome, String> {
        if self.kind == "failread" {
            return Err(String::from("bang"));
        }
        if self.pos < self.incoming.len() {
            let b = self.incoming[self.pos];
            self.pos += 1;
            Ok(ReadOutcome::ByteReceived(b))
        } else if self.eof_at_end {
            Ok(ReadOutcome::EndOfStream)
        } else {
            Ok(ReadOutcome::TimedOut)
        }
    }
}

fn connected(name: &str) -> Session<FakeLink> {
    let mut s: Session<FakeLink> = Session::new();
    assert!(s.connect(name).is_ok());
    s
}

#[test]
fn round_trip_echo() {
    let mut s = connected("echo");
    s.submit("STATUS");
    let lines = s.history_snapshot();
    assert_eq!(lines, vec![String::from("> STATUS"), String::from("< OK")]);
}

#[test]
fn timeout_yields_only_echo() {
    let mut s = connected("silent");
    s.submit("PING");
    let lines = s.history_snapshot();
    assert_eq!(lines, vec![String::from("> PING")]);
}

#[test]
fn end_of_stream_response_is_kept() {
    let mut s = connected("eof");
    s.submit("A");
    let lines = s.history_snapshot();
    assert_eq!(lines, vec![String::from("> A"), String::from("< OK")]);
}

#[test]
fn whitespace_only_response_is_dropped() {
    let mut s = connected("blank");
    s.submit("B");
    let lines = s.history_snapshot();
    assert_eq!(lines, vec![String::from("> B")]);
}

#[test]
fn write_failure_keeps_link() {
    let mut s = connected("failwrite");
    s.submit("X");
    let lines = s.history_snapshot();
    assert_eq!(lines, vec![String::from("Error sending: boom")]);
    assert_eq!(
        s.current_state(),
        ConnState::Connected(String::from("failwrite"))
    );
}

#[test]
fn terminator_write_failure_keeps_link() {
    let mut s = connected("failsecond");
    s.submit("X");
    let lines = s.history_snapshot();
    assert_eq!(lines, vec![String::from("Error sending newline: boom")]);
    assert_eq!(
        s.current_state(),
        ConnState::Connected(String::from("failsecond"))
    );
}

#[test]
fn read_failure_keeps_link() {
    let mut s = connected("failread");
    s.submit("X");
    let lines = s.history_snapshot();
    assert_eq!(
        lines,
        vec![String::from("> X"), String::from("Read error: bang")]
    );
    assert_eq!(
        s.current_state(),
        ConnState::Connected(String::from("failread"))
    );
}

#[test]
fn empty_command_is_no_op() {
    let mut s = connected("echo");
    s.submit("");
    s.submit("   \t  ");
    s.submit("\r\n");
    assert_eq!(s.history_snapshot().len(), 0);
    assert!(s.last_error().is_none());
}

#[test]
fn trailing_whitespace_is_trimmed_from_command() {
    let mut s = connected("echo");
    s.submit("STATUS  \r\n");
    let lines = s.history_snapshot();
    assert_eq!(lines, vec![String::from("> STATUS"), String::from("< OK")]);
}

#[test]
fn submit_while_disconnected_is_no_op() {
    let mut s: Session<FakeLink> = Session::new();
    s.submit("PING");
    assert_eq!(s.history_snapshot().len(), 0);
    assert_eq!(s.current_state(), ConnState::Disconnected);
}

#[test]
fn connect_failure_records_diagnostic() {
    let mut s: Session<FakeLink> = Session::new();
    let r = s.connect("failopen");
    assert_eq!(r, Err(String::from("Failed to open port: no such device")));
    assert_eq!(
        s.last_error(),
        Some(String::from("Failed to open port: no such device"))
    );
    assert_eq!(s.current_state(), ConnState::Disconnected);
}

#[test]
fn connect_success_clears_diagnostic() {
    let mut s: Session<FakeLink> = Session::new();
    let _ = s.connect("failopen");
    assert!(s.last_error().is_some());
    assert!(s.connect("echo").is_ok());
    assert!(s.last_error().is_none());
    assert_eq!(s.current_state(), ConnState::Connected(String::from("echo")));
}

#[test]
fn connect_while_connected_is_no_op() {
    let mut s = connected("echo");
    assert!(s.connect("silent").is_ok());
    assert_eq!(s.current_state(), ConnState::Connected(String::from("echo")));
}

#[test]
fn disconnect_then_reconnect_keeps_history() {
    let mut s = connected("echo");
    s.submit("STATUS");
    assert_eq!(s.history_snapshot().len(), 2);
    s.disconnect();
    assert_eq!(s.current_state(), ConnState::Disconnected);
    assert!(s.connect("echo").is_ok());
    assert_eq!(s.current_state(), ConnState::Connected(String::from("echo")));
    let lines = s.history_snapshot();
    assert_eq!(lines, vec![String::from("> STATUS"), String::from("< OK")]);
}

#[test]
fn disconnect_while_disconnected_is_no_op() {
    let mut s: Session<FakeLink> = Session::new();
    s.disconnect();
    assert_eq!(s.current_state(), ConnState::Disconnected);
}

#[test]
fn terminator_bytes_reach_link() {
    let mut s = connected("expectlf");
    s.set_terminator(NewlineMode::LF);
    s.submit("PING");
    assert_eq!(s.history_snapshot(), vec![String::from("> PING")]);
}

#[test]
fn wrong_terminator_bytes_are_detected() {
    let mut s = connected("expectlf");
    assert_eq!(s.terminator(), NewlineMode::CRLF);
    s.submit("PING");
    assert_eq!(
        s.history_snapshot(),
        vec![String::from("Error sending newline: wrong terminator bytes")]
    );
}

#[test]
fn terminator_selection_persists_across_disconnect() {
    let mut s = connected("echo");
    s.set_terminator(NewlineMode::NoNewline);
    s.disconnect();
    assert_eq!(s.terminator(), NewlineMode::NoNewline);
}

#[test]
fn history_is_bounded_across_submits() {
    let mut s = connected("silent");
    for i in 0..120 {
        s.submit(&format!("cmd{i}"));
    }
    let lines = s.history_snapshot();
    assert_eq!(lines.len(), 100);
    assert_eq!(lines[0], String::from("> cmd20"));
    assert_eq!(lines[99], String::from("> cmd119"));
}
