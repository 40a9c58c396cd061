//! Supervision of the external worker process: launching it, reading the port it announces,
//! watching its health and restarting it within a bounded number of attempts.
//!
//! Nothing here touches a process, a clock or a stream. Each function decides what has to
//! happen next from what was observed; the caller carries it out.

pub mod handshake;
pub mod launcher;
pub mod laws;
pub mod state;
