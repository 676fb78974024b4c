//! Transport adapter core for a packet-oriented, non-blocking virtual serial
//! device driven by an interactive shell.
//!
//! The device moves bytes in bulk, zero-or-N at a time, and never blocks; the
//! shell wants one byte at a time with an explicit would-block signal. This
//! crate holds the verified heart of that translation: the fixed backing
//! stores for the device's ring buffers, and the decision functions that turn
//! each bulk transfer report into the three-way outcome (success, would-block,
//! fault) the shell's cooperative loop expects.

pub mod buffer;
pub mod report;
pub mod shell;
pub mod transport;

pub use buffer::BufferStore;
pub use buffer::BUFFER_SIZE;
pub use transport::FlushStatus;
pub use transport::StreamError;
pub use transport::TransferStatus;
pub use transport::TransportFault;
