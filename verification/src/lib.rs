//! Work distribution for a batch media converter.
//!
//! A run converts a fixed, known-in-advance list of files by handing each list
//! index to exactly one worker. The pieces with real concurrency hazards live
//! here, verified: the shared job cursor and its claim protocol
//! ([`cursor::RunState::claim`]), the per-job decisions of a worker
//! ([`worker`]), and the dispatcher's coordination of a whole run
//! ([`dispatcher`]). The surrounding program supplies the job list, spawns the
//! worker threads, runs the external converter and renders the user interface;
//! it makes every decision by calling into this crate.

pub mod config;
pub mod cursor;
pub mod dispatcher;
pub mod formats;
pub mod gui;
pub mod job;
pub mod worker;
