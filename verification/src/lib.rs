//! Backup and restore of Docker containers, their volumes and their bind
//! mounts: the decisions of the orchestration engine, stated and proved.
//!
//! The daemon is never called from here. Each operation is split into the
//! request handed to a helper container, and the reading of what the helper
//! gave back.

pub mod backup;
pub mod cleanup;
pub mod config;
pub mod container;
pub mod error;
pub mod file;
pub mod mount;
pub mod restore;
pub mod text;
pub mod watch;
