//! A benchmark harness for a REST service client.
//!
//! The crate validates a fixed set of named configuration inputs, describes
//! benchmark operations as [`action::Action`] values, drives each action
//! through a setup / warmup / measurement lifecycle, and records one
//! [`runner::Stats`] observation per measured repetition.  Request builders
//! for the snapshot-lifecycle-management endpoints live in [`slm`].

pub mod action;
pub mod clock;
pub mod config;
pub mod encode;
pub mod error;
pub mod http;
pub mod record;
pub mod runner;
pub mod slm;
pub mod text;
