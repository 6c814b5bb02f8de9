//! Finding and providing the command-line tools that a document converter
//! depends on: which executable to use among a custom path, a managed copy
//! and the installations of the system; which release asset fits a
//! platform; under which mirrors it is downloaded; and by which steps an
//! archive is extracted.
//!
//! The library decides; it touches neither the file system nor the network
//! nor any process. Whoever calls it hands in what these showed (the output
//! of a probe, the body of an answer, the bytes of an archive) and carries
//! out what comes back. Every function states what it returns over the
//! mathematical value of its arguments, and Verus proves that it does.

pub mod archive;
pub mod codec;
pub mod download;
pub mod engines;
pub mod error;
pub mod json;
pub mod layout;
pub mod locator;
pub mod manager;
pub mod platform;
pub mod probe;
pub mod registry;
pub mod sizes;
pub mod text;
pub mod types;
pub mod version;
