//! The session: the connection lifecycle state machine and the
//! write-then-read exchange protocol.
//!
//! A session is either disconnected or connected to exactly one byte link.
//! Submitting a command while connected writes the trimmed command bytes and
//! then the terminator bytes, echoes the command into the history, reads a
//! response one byte at a time until a line feed, end of stream, timeout or
//! I/O failure, and appends the trimmed response, if any, to the history.
//! All I/O failures surface as history lines or as `last_error`; none
//! propagate and none force a disconnect.
//!
//! Responses are decoded one byte per character. Reads are additionally
//! bounded at [`MAX_RESPONSE_BYTES`] bytes per exchange, so every call
//! terminates.

use vstd::prelude::*;

use crate::history::{fifo_extend, lemma_fifo_extend_one, lemma_fifo_extend_two, History};
use crate::link::{ByteLink, ReadOutcome};
use crate::newline::NewlineMode;
use crate::text::{lemma_trim_end_idempotent, push_char, trim_end, trim_end_seq};

verus! {

/// How many history lines are retained.
pub const HISTORY_CAPACITY: usize = 100;

/// The fixed baud rate a connection is opened with.
pub const BAUD_RATE: u32 = 9600;

/// The fixed per-read timeout a connection is opened with, in milliseconds.
pub const READ_TIMEOUT_MS: u64 = 2000;

/// The bound on response bytes read in one exchange.
pub const MAX_RESPONSE_BYTES: usize = 65536;

/// The abstract state of a session, as the contracts speak of it.
#[verifier::ext_equal]
pub ghost struct SessionModel {
    /// Whether a link is currently owned.
    pub connected: bool,
    /// The identifier the link was opened against, while connected.
    pub port_name: Option<Seq<char>>,
    /// The current line terminator policy.
    pub terminator: NewlineMode,
    /// The retained history lines, oldest first.
    pub history: Seq<Seq<char>>,
    /// The bound on the number of retained history lines.
    pub capacity: nat,
    /// The diagnostic of the last failed connect attempt, if any.
    pub last_error: Option<Seq<char>>,
}

/// The connection state as reported to a caller.
#[derive(PartialEq, Eq, Clone, Debug)]
pub enum ConnState {
    Disconnected,
    Connected(String),
}

/// Whether `line` starts with `prefix`.
pub open spec fn is_prefixed(line: Seq<char>, prefix: Seq<char>) -> bool {
    line.len() >= prefix.len() && line.take(prefix.len() as int) == prefix
}

/// What remains of `line` after `prefix`.
pub open spec fn suffix_after(line: Seq<char>, prefix: Seq<char>) -> Seq<char> {
    line.skip(prefix.len() as int)
}

/// The echo line recorded for a submitted command.
pub open spec fn echo_line(cmd: Seq<char>) -> Seq<char> {
    "> "@ + cmd
}

/// The lines one exchange may append for the non-empty trimmed command
/// `cmd`: a single write diagnostic; or the echo, alone, followed by a read
/// diagnostic, or followed by a non-empty trimmed response line.
pub open spec fn valid_submit_lines(cmd: Seq<char>, lines: Seq<Seq<char>>) -> bool {
    ||| (lines.len() == 1 && is_prefixed(lines[0], "Error sending: "@))
    ||| (lines.len() == 1 && is_prefixed(lines[0], "Error sending newline: "@))
    ||| lines == seq![echo_line(cmd)]
    ||| (lines.len() == 2 && lines[0] == echo_line(cmd) && is_prefixed(
        lines[1],
        "Read error: "@,
    ))
    ||| (lines.len() == 2 && lines[0] == echo_line(cmd) && is_prefixed(lines[1], "< "@)
        && suffix_after(lines[1], "< "@).len() > 0 && suffix_after(lines[1], "< "@)
        == trim_end_seq(suffix_after(lines[1], "< "@)))
}

/// The session engine, generic over the byte link it drives.
pub struct Session<L> {
    link: Option<L>,
    port_name: Option<String>,
    terminator: NewlineMode,
    history: History,
    last_error: Option<String>,
}

impl<L> View for Session<L> {
    type V = SessionModel;

    closed spec fn view(&self) -> SessionModel {
        SessionModel {
            connected: self.link is Some,
            port_name: match self.port_name {
                Some(s) => Some(s@),
                None => None,
            },
            terminator: self.terminator,
            history: self.history@,
            capacity: self.history.capacity(),
            last_error: match self.last_error {
                Some(s) => Some(s@),
                None => None,
            },
        }
    }
}

impl<L: ByteLink> Session<L> {
    /// A link is owned iff an endpoint name is recorded, and the history
    /// respects its capacity.
    pub closed spec fn wf(self) -> bool {
        &&& self.history.wf()
        &&& (self.link is Some <==> self.port_name is Some)
    }

    /// A fresh session: disconnected, CRLF terminator, empty history of
    /// capacity [`HISTORY_CAPACITY`], no recorded error.
    pub fn new() -> (r: Session<L>)
        ensures
            r.wf(),
            !r@.connected,
            r@.port_name is None,
            r@.terminator == NewlineMode::CRLF,
            r@.history == Seq::<Seq<char>>::empty(),
            r@.capacity == HISTORY_CAPACITY as nat,
            r@.last_error is None,
    {
        Session {
            link: None,
            port_name: None,
            terminator: NewlineMode::CRLF,
            history: History::with_capacity(HISTORY_CAPACITY),
            last_error: None,
        }
    }

    /// The connection state: `Connected` carries the endpoint name the link
    /// was opened against.
    pub fn current_state(&self) -> (r: ConnState)
        requires
            self.wf(),
        ensures
            self@.connected ==> (r matches ConnState::Connected(n) && self@.port_name == Some(
                n@,
            )),
            !self@.connected ==> r is Disconnected,
    {
        match &self.port_name {
            Some(n) => ConnState::Connected(n.clone()),
            None => ConnState::Disconnected,
        }
    }

    /// The current line terminator policy.
    pub fn terminator(&self) -> (r: NewlineMode)
        ensures
            r == self@.terminator,
    {
        self.terminator
    }

    /// Select the line terminator policy; nothing else changes.
    pub fn set_terminator(&mut self, mode: NewlineMode)
        requires
            old(self).wf(),
        ensures
            final(self).wf(),
            final(self)@ == (SessionModel { terminator: mode, ..old(self)@ }),
    {
        self.terminator = mode;
    }

    /// The retained history lines, oldest first.
    pub fn history_snapshot(&self) -> (r: Vec<String>)
        ensures
            r@.map_values(|s: String| s@) == self@.history,
    {
        self.history.snapshot()
    }

    /// The diagnostic of the last failed connect attempt, if any.
    pub fn last_error(&self) -> (r: Option<String>)
        ensures
            r matches Some(e) ==> self@.last_error == Some(e@),
            r is None ==> self@.last_error is None,
    {
        match &self.last_error {
            Some(e) => Some(e.clone()),
            None => None,
        }
    }

    /// Attempt to open a link against `name` with the fixed baud rate and
    /// read timeout. While already connected this is a no-op. On success the
    /// session is connected to `name` and the recorded error is cleared; on
    /// failure it stays disconnected and the returned diagnostic, prefixed
    /// `"Failed to open port: "`, is also recorded in `last_error`. The
    /// history and the terminator policy never change.
    pub fn connect(&mut self, name: &str) -> (r: Result<(), String>)
        requires
            old(self).wf(),
        ensures
            final(self).wf(),
            old(self)@.connected ==> r is Ok && final(self)@ == old(self)@,
            !old(self)@.connected ==> match r {
                Ok(_) => final(self)@ == (SessionModel {
                    connected: true,
                    port_name: Some(name@),
                    last_error: None,
                    ..old(self)@
                }),
                Err(e) => {
                    &&& final(self)@ == (SessionModel {
                        last_error: Some(e@),
                        ..old(self)@
                    })
                    &&& is_prefixed(e@, "Failed to open port: "@)
                },
            },
    {
        if self.link.is_some() {
            return Ok(());
        }
        match L::open_link(name, BAUD_RATE, READ_TIMEOUT_MS) {
            Ok(l) => {
                self.link = Some(l);
                self.port_name = Some(name.to_owned());
                self.last_error = None;
                Ok(())
            },
            Err(cause) => {
                let msg = String::from_str("Failed to open port: ").concat(cause.as_str());
                proof {
                    assert(msg@.take("Failed to open port: "@.len() as int)
                        =~= "Failed to open port: "@);
                }
                self.last_error = Some(msg.clone());
                Err(msg)
            },
        }
    }

    /// Release the link, if any, and return to the disconnected state. The
    /// history, the terminator policy and the recorded error are retained.
    pub fn disconnect(&mut self)
        requires
            old(self).wf(),
        ensures
            final(self).wf(),
            final(self)@ == (SessionModel {
                connected: false,
                port_name: None,
                ..old(self)@
            }),
    {
        self.link = None;
        self.port_name = None;
    }

    /// Run one exchange: trim the command, write it and the terminator
    /// bytes, echo it, then collect a response until a line feed, end of
    /// stream, timeout, I/O failure or [`MAX_RESPONSE_BYTES`] bytes.
    ///
    /// An empty trimmed command, or a disconnected session, is a no-op.
    /// Otherwise only the history changes, by a run of appended lines
    /// admitted by [`valid_submit_lines`]; the link is retained even when a
    /// write or read fails.
    pub fn submit(&mut self, raw: &str)
        requires
            old(self).wf(),
        ensures
            final(self).wf(),
            final(self)@.connected == old(self)@.connected,
            final(self)@.port_name == old(self)@.port_name,
            final(self)@.terminator == old(self)@.terminator,
            final(self)@.capacity == old(self)@.capacity,
            final(self)@.last_error == old(self)@.last_error,
            (!old(self)@.connected || trim_end_seq(raw@).len() == 0) ==> final(self)@ == old(
                self,
            )@,
            (old(self)@.connected && trim_end_seq(raw@).len() > 0) ==> exists|
                lines: Seq<Seq<char>>,
            |
                #[trigger] valid_submit_lines(trim_end_seq(raw@), lines) && final(self)@.history
                    == fifo_extend(old(self)@.history, lines, old(self)@.capacity),
    {
        let ghost old_hist = old(self)@.history;
        let ghost cap = old(self)@.capacity;
        let cmd = trim_end(raw);
        if cmd.as_str().is_empty() {
            return ;
        }
        let mut port = match self.link.take() {
            Some(p) => p,
            None => {
                return ;
            },
        };
        let ghost cmdv = cmd@;

        match port.write_all_bytes(cmd.as_str().as_bytes()) {
            Ok(_) => {},
            Err(cause) => {
                let line = String::from_str("Error sending: ").concat(cause.as_str());
                proof {
                    assert(line@.take("Error sending: "@.len() as int) =~= "Error sending: "@);
                }
                self.history.append(line);
                self.link = Some(port);
                proof {
                    lemma_fifo_extend_one(old_hist, line@, cap);
                    assert(valid_submit_lines(cmdv, seq![line@]));
                }
                return ;
            },
        }

        let term = self.terminator.as_bytes();
        match port.write_all_bytes(term.as_slice()) {
            Ok(_) => {},
            Err(cause) => {
                let line = String::from_str("Error sending newline: ").concat(cause.as_str());
                proof {
                    assert(line@.take("Error sending newline: "@.len() as int)
                        =~= "Error sending newline: "@);
                }
                self.history.append(line);
                self.link = Some(port);
                proof {
                    lemma_fifo_extend_one(old_hist, line@, cap);
                    assert(valid_submit_lines(cmdv, seq![line@]));
                }
                return ;
            },
        }

        let echo = String::from_str("> ").concat(cmd.as_str());
        proof {
            assert(echo@ == echo_line(cmdv));
        }
        self.history.append(echo);

        let mut response = String::new();
        let mut count: usize = 0;
        let mut failure: Option<String> = None;
        loop
            invariant
                count <= MAX_RESPONSE_BYTES,
            decreases MAX_RESPONSE_BYTES - count,
        {
            if count >= MAX_RESPONSE_BYTES {
                break ;
            }
            match port.read_one_byte() {
                Ok(ReadOutcome::ByteReceived(b)) => {
                    if b == 10u8 {
                        break ;
                    }
                    push_char(&mut response, b as char);
                    count = count + 1;
                },
                Ok(_) => {
                    break ;
                },
                Err(cause) => {
                    failure = Some(cause);
                    break ;
                },
            }
        }

        match failure {
            Some(cause) => {
                let line = String::from_str("Read error: ").concat(cause.as_str());
                proof {
                    assert(line@.take("Read error: "@.len() as int) =~= "Read error: "@);
                }
                self.history.append(line);
                self.link = Some(port);
                proof {
                    lemma_fifo_extend_two(old_hist, echo_line(cmdv), line@, cap);
                    assert(valid_submit_lines(cmdv, seq![echo_line(cmdv), line@]));
                }
                return ;
            },
            None => {},
        }

        let trimmed = trim_end(response.as_str());
        if !trimmed.as_str().is_empty() {
            let line = String::from_str("< ").concat(trimmed.as_str());
            proof {
                assert(line@.take("< "@.len() as int) =~= "< "@);
                assert(line@.skip("< "@.len() as int) =~= trimmed@);
                lemma_trim_end_idempotent(response@);
            }
            self.history.append(line);
            self.link = Some(port);
            proof {
                lemma_fifo_extend_two(old_hist, echo_line(cmdv), line@, cap);
                assert(valid_submit_lines(cmdv, seq![echo_line(cmdv), line@]));
            }
            return ;
        }

        self.link = Some(port);
        proof {
            lemma_fifo_extend_one(old_hist, echo_line(cmdv), cap);
            assert(valid_submit_lines(cmdv, seq![echo_line(cmdv)]));
        }
    }
}

} // verus!
