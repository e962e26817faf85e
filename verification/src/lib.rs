//! Scaffolding of a fresh ESP-IDF project: a template archive is unpacked
//! into a destination directory and a few generated files are patched for
//! the chosen language.
//!
//! The library decides; it never touches the file system, the network or the
//! terminal. Every decision is handed out as a plain value (a list of
//! extraction steps, a list of file operations, a next action) for the caller
//! to carry out.

pub mod archive;
pub mod descriptor;
pub mod extractor;
pub mod guard;
pub mod language;
pub mod orchestrator;
pub mod patcher;
pub mod path;
pub mod templates;
pub mod text;
