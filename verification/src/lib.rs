//! Adapter layer for single-threaded cooperative I/O over two low-level
//! primitives: an overlapped (issue-then-poll) file interface and a streaming
//! connection interface with a non-blocking "would block" retry style.
//!
//! The crate models native handles and completion blocks as plain values and
//! verifies every decision the adapter makes: byte-offset bookkeeping,
//! traversal of multi-segment receive buffers, the error taxonomy, and the
//! suspend/resume step logic of the asynchronous variants. The native calls
//! themselves (issuing an operation, polling a completion, sending bytes)
//! are performed by the surrounding program, which feeds each outcome back
//! into the verified step functions.

pub mod hal;
pub mod io;
pub mod kernel;
pub mod lwip;
pub mod nxdk;
pub mod utils;
pub mod winapi;
