//! Start-up configuration for the wiki-tui terminal application.
//!
//! The crate decides how the per-user configuration file is provisioned and
//! turns its INI text into typed settings, filling every gap with a default.
//! It performs no input or output itself: the caller carries out the actions
//! the crate asks for and reports back what happened.

pub mod config;
pub mod error;
pub mod ini_file;
pub mod path;
pub mod provision;
pub mod settings;
pub mod text;
pub mod world;
