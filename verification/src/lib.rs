//! Decisions of a command-line cache for compiler artifacts.
//!
//! The library holds every rule of the tool as plain functions: how an
//! artifact is named, how timestamps are read and written, which artifact a
//! comparison picks, what each command prints, and in which order a command
//! asks its host for outside work. The host performs that work (file system,
//! subprocesses, clock, terminal) and reports back what happened.

pub mod artifact;
pub mod capture;
pub mod cleaner;
pub mod command;
pub mod decimal;
pub mod differ;
pub mod host;
pub mod lister;
pub mod message;
pub mod store;
