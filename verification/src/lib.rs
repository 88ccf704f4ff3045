//! Mastership lease sessions for a robot controller's web service.
//!
//! A controller grants mastership, an exclusive lease on write access, to one
//! client at a time. This crate holds the decisions of a client that takes the
//! lease, runs one guarded action and gives the lease back: which request comes
//! next, what the caller is told at the end, and how each step is reported to
//! the operator. The requests themselves are made by the caller.

pub mod coordinate;
pub mod outcome;
pub mod report;
pub mod session;
pub mod trace;
