//! Verified core of a LAN proxy gateway orchestrator: configuration model and
//! validation, engine profile rendering, command-line grammar, platform rule
//! plans and the state machine that applies them, kernel asset selection and
//! service unit rendering.

pub mod text;
pub mod config;
pub mod command;
pub mod engine;
pub mod cli;
pub mod plan;
pub mod infra;
pub mod platform;
pub mod gateway;
pub mod application;
pub mod enforcement;
