//! A recoverable `rm`: entries are moved into a flat trash directory, and
//! an index records for each entry the directory it was moved from.
//!
//! This crate holds every decision of the trash manager and proves what it
//! states about them. It touches neither the disk nor the store: it says
//! which action is due, the caller carries the action out and reports what
//! it observed. [`setup::Setup`] prepares a manager in this way,
//! [`dispatch::Dispatcher`] runs one invocation, and the modules below them
//! hold the single decisions: names and paths, the index, the settings, the
//! trash directory.

pub mod rrm_error;
pub mod database;
pub mod setting;
pub mod paths;
pub mod config;
pub mod trash;
pub mod confirm;
pub mod app;
pub mod dispatch;
pub mod setup;
