//! Materializes a lightweight Python virtual environment that links to an
//! existing interpreter and seeds its package search path with a generated
//! path-configuration (`.pth`) file.
//!
//! Everything here is decided from plain values: the version string is
//! parsed, the directory layout and the metadata text are computed, and the
//! content of the path-configuration file is built from the text of a path
//! list. The program that touches the file system carries these out.
use vstd::prelude::*;

pub mod entries;
pub mod error;
pub mod layout;
pub mod plan;
pub mod text;
pub mod version;

verus! {

} // verus!
