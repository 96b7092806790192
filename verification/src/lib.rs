//! A verified session engine for line-oriented command/response exchanges
//! over a serial byte link.
//!
//! The engine is split into:
//! - [`newline`]: the line terminator policy appended after each command;
//! - [`history`]: the capacity-bounded, FIFO-evicting output history;
//! - [`text`]: trimming of trailing whitespace, used on commands and responses;
//! - [`link`]: the byte link interface and its serial-port implementation;
//! - [`session`]: the connection state machine and the exchange protocol.

pub mod history;
pub mod link;
pub mod newline;
pub mod session;
pub mod text;

pub use newline::NewlineMode;
