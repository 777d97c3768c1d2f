//! Deployment of an application together with the services it depends on, as
//! a set of containers on one host.
//!
//! The library decides; it performs nothing. It names containers and volume
//! directories, lays out port bindings, merges environment files, and says
//! which call to the container runtime or which step of a deployment comes
//! next. The caller talks to the runtime, the file system and the clock, and
//! reports back what happened.

pub mod cli;
pub mod commands;
pub mod config;
pub mod constants;
pub mod context;
pub mod pairs;
pub mod runtime;
pub mod services;
pub mod text;
