//! Client core for thermal receipt printers driven by raw ESC/POS-style
//! control sequences.
//!
//! The crate has two halves: a pure codec that renders printer operations to
//! the exact byte sequences the device firmware expects, and a session state
//! machine that governs the connect/send/disconnect lifecycle of the single
//! transport a printer session owns. Network I/O itself is left to the caller
//! that owns the transport.

pub mod codec;
pub mod session;

pub use codec::Command;
pub use codec::ControlCharacters;
pub use codec::ControlSequence;
pub use codec::Status;
pub use codec::StatusMask;
pub use session::Printer;
pub use session::PrinterError;
pub use session::ResponseSupport;
