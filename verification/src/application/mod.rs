//! Decisions of the command runner that do not touch the host.

pub mod runner;
