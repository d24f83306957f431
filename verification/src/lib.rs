//! Core of a segmented command-prompt renderer.
//!
//! A prompt is assembled from independent detector units. Each unit decides
//! whether it applies to the current directory (`scan`), parses its configured
//! format string into a template (`template`), and resolves the template's
//! variables through lookup callbacks into an ordered list of styled text
//! segments (`render`, `style`). The `crystal`, `lua` and `shell` modules are
//! the detector units themselves, with the outside world (directory listings,
//! version-command output) handed in as plain values.

pub mod crystal;
pub mod lua;
pub mod render;
pub mod scan;
pub mod shell;
pub mod style;
pub mod template;
pub mod text;

use vstd::prelude::*;

verus! {

} // verus!
