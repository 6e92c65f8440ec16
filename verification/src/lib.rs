//! Core of a small utility that sends one file to a host over TCP and
//! reports progress through status events.
//!
//! The crate holds the decisions only: validation, the wording of every
//! status and failure, the order of a transfer's steps, and the rule that
//! only the most recently started action is observable. Whoever drives it
//! performs the file, network and dialog work and hands the results back.

pub mod channel;
pub mod config;
pub mod handlers;
pub mod inject_job;
pub mod job;
pub mod load_job;
pub mod network;
pub mod save_job;
pub mod text;
pub mod ui;
