//! A verified core for a self-updating desktop installer.
//!
//! The heart of the crate is the task dependency engine in [`tasks`]: named
//! units of work declare pre- and post-dependencies, and a
//! [`tasks::DependencyTree`] executes them depth first against shared
//! installer state, rescaling progress reports so the root observer sees a
//! single fraction of the whole operation.

pub mod archives;
pub mod config;
pub mod http;
pub mod installer;
pub mod kinds;
pub mod laws;
pub mod native;
pub mod operations;
pub mod progress;
pub mod rest;
pub mod sources;
pub mod strutil;
pub mod tasks;
pub mod tasks_fetch;
pub mod tasks_install;
pub mod tasks_misc;
pub mod tasks_uninstall;
