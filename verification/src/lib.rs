//! The core of a background agent that watches which virtual desktop is
//! active and reports it to a local telemetry collector.
//!
//! The agent samples the active desktop on a fixed cadence. Each sample is
//! given a label ([`label`]), built into an event ([`event`]) and sent to the
//! collector as a heartbeat. The collector merges heartbeats that report the
//! same desktop in close succession into one stored event, so that a stay on
//! one desktop is one span of time ([`collector`] models that behaviour).
//! Failures that pass by themselves are skipped over, the others end the loop
//! ([`report`], [`scheduler`]). Before the loop starts the agent makes sure
//! that its bucket exists ([`bucket`]).
//!
//! Everything here is computation on plain values. Asking the operating
//! system, reading the clock, talking to the collector and waiting are left
//! to the caller, who is told what to do next and tells how it went.
//! [`laws`] states what holds of all of it together.

pub mod autostart;
pub mod bucket;
pub mod collector;
pub mod config;
pub mod decimal;
pub mod event;
pub mod json;
pub mod label;
pub mod laws;
pub mod report;
pub mod scheduler;
