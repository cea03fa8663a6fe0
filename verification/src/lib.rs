//! Decision logic of a job-application browser bot.
//!
//! The crate holds everything the bot decides: which listings to look at,
//! how long to wait, how to read an application dialog, and when to stop.
//! It never touches a browser. Each state machine hands out one instruction
//! at a time and is told what came of it; the caller owns the session.

pub mod model;
pub mod agents;
pub mod arrival;
pub mod controller;
pub mod controller_laws;
pub mod modal;
pub mod pacing;
pub mod selector;
pub mod workflow;
pub mod workflow_laws;
