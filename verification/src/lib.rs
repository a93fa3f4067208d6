//! A minimal build-configuration library for single-file projects.
//!
//! A project is described by a two-field manifest (the "mushroom"): the
//! relative path of the source file holding the program entry point and the
//! relative path of the build artifact.  The library serializes and parses
//! that manifest, derives the artifact and backup paths, searches a bounded
//! directory tree for a plausible entry file, and drives the
//! compile-and-swap protocol that replaces a previous artifact only when a
//! fresh compilation succeeded.

pub mod strutil;
pub mod utility;
pub mod fs_tree;
pub mod data_structs;
pub mod germination;
pub mod search;
pub mod cmd_build;
pub mod cmd_init;
