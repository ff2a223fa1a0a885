//! Driver core for ESC/POS-style thermal receipt printers.
//!
//! The library translates high-level printer operations (feed paper, set
//! justification, bold, underline, self-test, heating configuration) into the
//! exact control-byte sequences the printer firmware expects, and delivers
//! them through a caller-provided byte transport. The protocol is write-only:
//! no printer responses are parsed.

pub mod commands;
pub mod mock;
pub mod printer;
pub mod transport;

pub use commands::{Command, Dialect, Justification};
pub use mock::{MockError, MockTransport};
pub use printer::ThermalPrinter;
pub use transport::Transport;
