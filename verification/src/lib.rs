//! Session bookkeeping for a KDBX desktop shell.
//!
//! The crate keeps the list of recently opened databases and decides, from the
//! outcome of each database operation, how that list changes and what is sent
//! back to the caller. The database engine itself is not part of it: every
//! entry point takes the engine's outcome as a plain value.

pub mod recent_list;
pub mod preference;
pub mod engine;
pub mod app_state;
pub mod commands;
