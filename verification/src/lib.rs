//! Control plane for a locally run inference engine: the decisions behind
//! downloading a model artifact with progress reports and behind launching,
//! watching and stopping the single worker process that serves it.
//!
//! But for the one query of the host's memory, everything here computes on
//! plain values. The caller performs the I/O that the state machines ask for
//! and hands the outcome back as an event.

pub mod download;
pub mod download_history;
pub mod engine;
pub mod hardware;
pub mod health;
pub mod launch_history;
pub mod supervisor;
pub mod text;
pub mod watcher;
