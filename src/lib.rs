//! Supervision of a long-running worker process that speaks newline-delimited
//! JSON, with a one-shot fallback when the persistent worker is unavailable.
//!
//! The library holds the protocol and every decision of the supervisor; the
//! host program performs the process I/O and hands the outcomes back.

mod text;
pub mod json;
pub mod wire;
pub mod event;
pub mod launch;
pub mod executor;
pub mod fallback;
pub mod supervisor;
pub mod extract;
