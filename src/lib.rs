//! A shebang launcher: selects a platform entry from a declarative
//! configuration, derives a content-addressed cache location for the tool
//! archive, runs the archive's extraction steps and prepares the launch of
//! the resolved binary.
pub mod text;
pub mod config;
pub mod cache;
pub mod platform;
pub mod extract;
pub mod binary;
pub mod launch;
