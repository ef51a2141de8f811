//! Test && commit || revert: composes the shell pipeline of one cycle, drives
//! the cycle through a repository capability, and decides when a watch session
//! starts a new cycle.

pub mod revert;
pub mod test;
pub mod config;
pub mod compose;
pub mod commit;
pub mod tcr;
pub mod process;
pub mod git;
pub mod message;
pub mod watch;
