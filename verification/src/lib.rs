//! Verified core of a privileged task-runner launcher.
//!
//! The launcher starts with elevated rights, settles on one configured
//! profile, gives up its privileges for the profile's user and group, and
//! then either replaces itself with the profile's command or signals a
//! process that runs under the profile's identity. Every decision on that
//! path is taken here; the system calls themselves are made by the caller,
//! which performs each requested step and reports what came of it.

pub mod config;
pub mod environment;
pub mod identity;
pub mod launcher;
pub mod safety;
