//! A multi-backend version-control history resolver.
//!
//! Given a file path, the library decides which version-control system
//! tracks the file, normalizes the history reported by that system's
//! command-line tool, and prepares the requests needed to fetch historical
//! file content.  All tool output is handled as raw bytes; the subprocess
//! launches themselves are performed by the embedding application, which
//! drives the probe state machines defined here.

pub mod git;
pub mod gitlog;
pub mod laws;
pub mod messages;
pub mod model;
pub mod p4;
pub mod paths;
pub mod resolve;
pub mod runner;
pub mod svn;
pub mod svnlog;
pub mod text;
