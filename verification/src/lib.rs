//! A verified request dispatcher and command-execution engine for a line
//! oriented JSON-RPC server that exposes operator-configured system commands,
//! prompts, and file or URL resources.
//!
//! The library owns the protocol logic: parsing-independent routing, argument
//! composition, text-versus-binary classification, and the exact text of every
//! response line. Process spawning, network and file input/output, and
//! configuration-file reading are left to the surrounding program, which talks
//! to the library through plain values.
pub mod config;
pub mod content;
pub mod envelope;
pub mod json;
pub mod laws;
pub mod resource;
pub mod runner;
pub mod server;
pub mod text;
pub mod wire;
