//! The byte link: a duplex byte stream with a configured read timeout. The
//! session owns at most one link at a time and drives the whole exchange
//! through the three operations below.
//!
//! [`SerialLink`] is the serial-port implementation; a caller may implement
//! [`ByteLink`] for any other transport (tests drive the session with an
//! in-memory link).

use vstd::prelude::*;

verus! {

/// What a single bounded-time read of one byte produced.
#[derive(PartialEq, Eq, Clone, Copy, Structural, Debug)]
pub enum ReadOutcome {
    /// One byte arrived.
    ByteReceived(u8),
    /// The stream ended; nothing more will arrive.
    EndOfStream,
    /// Nothing arrived within the configured timeout.
    TimedOut,
}

/// A duplex byte stream with a configured read timeout.
///
/// Nothing is assumed of an implementation: the session's contracts state
/// what holds of its own state whatever a link call returns.
pub trait ByteLink: Sized {
    /// Open a link to the endpoint named `name`, configured with the given
    /// baud rate and per-read timeout in milliseconds. An `Err` carries a
    /// human-readable cause.
    fn open_link(name: &str, baud: u32, timeout_ms: u64) -> Result<Self, String>;

    /// Write all of `data`, all-or-nothing: `Ok` means every byte was
    /// written, `Err` carries the cause of the failure.
    fn write_all_bytes(&mut self, data: &[u8]) -> Result<(), String>;

    /// Read one byte, blocking up to the configured timeout. An `Err`
    /// carries the cause of an I/O failure; a timeout is not a failure.
    fn read_one_byte(&mut self) -> Result<ReadOutcome, String>;
}

/// Declares serialport::TTYPort, the handle an opened serial port link
/// holds; the library treats it as opaque.
#[verifier::external_type_specification]
#[verifier::external_body]
pub struct ExTTYPort(serialport::TTYPort);

/// A byte link over a local serial port device.
pub struct SerialLink {
    port: serialport::TTYPort,
}

impl SerialLink {
    /// Relies on serialport::new, SerialPortBuilder::timeout and
    /// SerialPortBuilder::open_native: opens the named port with the given
    /// baud rate and read timeout; an error's display text is its cause.
    #[verifier::external_body]
    fn open_serial(name: &str, baud: u32, timeout_ms: u64) -> Result<SerialLink, String> {
        let built = serialport::new(name, baud).timeout(
            std::time::Duration::from_millis(timeout_ms),
        );
        match built.open_native() {
            Ok(p) => Ok(SerialLink { port: p }),
            Err(e) => Err(format!("{e}")),
        }
    }

    /// Relies on std::io::Write::write_all for serialport::TTYPort: `Ok`
    /// only when the whole buffer was written.
    #[verifier::external_body]
    fn write_serial(&mut self, data: &[u8]) -> Result<(), String> {
        match std::io::Write::write_all(&mut self.port, data) {
            Ok(()) => Ok(()),
            Err(e) => Err(format!("{e}")),
        }
    }

    /// Relies on std::io::Read::read for serialport::TTYPort: a read of one
    /// byte returns 1, a closed stream returns 0, and a read that saw no
    /// data within the configured timeout fails with ErrorKind::TimedOut.
    #[verifier::external_body]
    fn read_serial(&mut self) -> Result<ReadOutcome, String> {
        let mut buf = [0u8; 1];
        match std::io::Read::read(&mut self.port, &mut buf) {
            Ok(0) => Ok(ReadOutcome::EndOfStream),
            Ok(_) => Ok(ReadOutcome::ByteReceived(buf[0])),
            Err(e) if e.kind() == std::io::ErrorKind::TimedOut => Ok(ReadOutcome::TimedOut),
            Err(e) => Err(format!("{e}")),
        }
    }
}

impl ByteLink for SerialLink {
    fn open_link(name: &str, baud: u32, timeout_ms: u64) -> Result<Self, String> {
        SerialLink::open_serial(name, baud, timeout_ms)
    }

    fn write_all_bytes(&mut self, data: &[u8]) -> Result<(), String> {
        self.write_serial(data)
    }

    fn read_one_byte(&mut self) -> Result<ReadOutcome, String> {
        self.read_serial()
    }
}

} // verus!
