//! Turns text prompts into generated images: for each prompt one task
//! submits a generation request, downloads the rendered bytes and writes
//! them to a uniquely named local file, reporting progress along the way.
//!
//! This crate holds the verified core: prompt-list resolution, file naming,
//! the translation of transport replies into typed outcomes, and the
//! per-task lifecycle. The I/O shell around it supplies the HTTP calls,
//! the file writes and the terminal rendering, and hands their results in
//! as plain values.
//!
//! Policy choices: a task's failure is confined to that task — sibling
//! tasks run to their own terminal state, and the process exits 0 once all
//! tasks finish, whatever their outcomes. Only a missing credential or an
//! invalid prompt list is fatal up front.

pub mod client;
pub mod errors;
pub mod naming;
pub mod request;
pub mod resolve;
pub mod task;
pub mod text;
