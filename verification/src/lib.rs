//! Scaffolding of a server-side project skeleton: a package selection becomes a
//! manifest, an entry-point source file and an optional environment file, and
//! free-text user stories become route stubs.
//!
//! Every text this crate produces is specified as a sequence of characters, so a
//! caller can reason about the generated files without running the generator.
//! The crate touches neither the filesystem nor a process: it decides what is
//! to be written and in which order, and its caller carries that out.

pub mod browser;
pub mod catalog;
pub mod entry_point;
pub mod failure;
pub mod gateway;
pub mod manifest;
pub mod routes;
pub mod text;
