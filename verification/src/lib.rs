//! The logic of a service that copies account balances from QuickBooks Desktop to Google Sheets.
//!
//! Everything here is decided from plain values. Where a decision needs outside work (a COM call,
//! a process snapshot, a web request), a step function names the work and takes its reply.

pub mod clock;
pub mod config;
pub mod listing;
pub mod logging;
pub mod process;
pub mod service;
pub mod sheets;
pub mod termination;
pub mod text;
pub mod worker;
