//! Orchestration core of a toolchain launcher whose compiler and virtual
//! machine live in dynamically loaded native service modules.
//!
//! The crate decides; a thin shell acts. Each pipeline is a state machine
//! that names the next call to make on a native module and consumes the
//! outcome of that call, so that call order, fail-fast behaviour and exit
//! statuses are properties of verified code.

pub mod action;
pub mod binding;
pub mod compile;
pub mod config;
pub mod error;
pub mod loader;
pub mod naming;
pub mod pipeline;
pub mod run;
pub mod service;

pub use crate::config::ConfigType;
pub use crate::error::Utf8Error;
