//! Provisioning of a single web user on a Unix host, as a verified decision core.
//!
//! A run creates a system account with a non-interactive shell, allocates a
//! zero-filled backing file of the requested size inside the new home
//! directory, and formats that file with ext4. The three steps are performed by
//! external utilities. This library never starts a process: it decides which
//! command is to be run next, with which arguments, and what each exit outcome
//! means. The caller runs the commands and reports their outcomes back.

pub mod text;
pub mod command;
pub mod error;
pub mod resolver;
pub mod account;
pub mod volume;
pub mod pipeline;
pub mod run;
