//! Decision logic of a small file-management command-line tool.
//!
//! The tool creates, copies and imports files and directories, asks the user
//! before overwriting an existing destination, and on one of its two command
//! surfaces re-executes itself with elevated privileges when it is not
//! already elevated.  Everything the tool decides — how a command line is
//! understood, when a prompt is shown, what a given answer means, which
//! filesystem operation runs and which status line is emitted — is computed
//! here, as verified functions from plain values to plain values.  The
//! process edges (reading standard input, touching the filesystem, spawning
//! the elevated copy) stay outside and act only on what these functions
//! return.

pub mod confirm;
pub mod elevate;
pub mod laws;
pub mod parse;
pub mod paths;
pub mod plan;
pub mod report;
pub mod request;
pub mod text;
