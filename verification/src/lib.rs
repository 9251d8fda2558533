//! Validated line settings and a terminator-framed exchange protocol for a
//! serial line.
//!
//! The crate holds the decisions of a session: which settings are accepted,
//! which error a rejected value gives, and how frames are written and read.
//! The caller performs the transfers on the line and reports their outcomes.

pub mod error_handling;
pub mod parse_settings;
pub mod serlib;
pub mod runs;
