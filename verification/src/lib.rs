//! Verified core of a cargo subcommand that builds `no_std + alloc` Rust
//! programs as Cosmopolitan Actually Portable Executables.
//!
//! Paths and command-line arguments are handled as the raw bytes of Unix
//! OS strings, so nothing here depends on them being UTF-8 unless the tool
//! itself requires it.
pub mod bytes;
pub mod paths;
pub mod text;
pub mod cli;
pub mod link;
pub mod launch;
pub mod json;
pub mod target;
pub mod process;
pub mod order;
pub mod artifacts;
pub mod packaging;
pub mod preflight;
pub mod driver;
pub mod steps;
