//! Discovery of the foreign functions that a build actually calls.
//!
//! The analyzer runs once for each module of a build, on the module's
//! resolved syntax tree. It finds the calls whose callee is declared without
//! a body, to be linked from outside, and adds the bare names of those
//! callees to a text file that all the modules of the build share.
//!
//! - [`tree`] is the syntax tree as far as the analysis reads it, and
//!   [`target`] what is known of a callee.
//! - [`classifier`] decides whether a callee is a foreign function to record,
//!   and [`walk`] says what the analysis does at each call site.
//! - [`result_set`] is the set of names found, [`shared_output`] its form as
//!   text.
//! - [`analysis`] holds the analyzer, which walks a tree and records what it
//!   finds; [`lifecycle`] is one whole run, from the text read to the text
//!   to write.
//! - [`laws`] states what holds of every run, and of several runs on one
//!   file.
//! - [`args`] and [`logging`] read what the build tells a run about the crate
//!   and about its log.

pub mod analysis;
pub mod args;
pub mod classifier;
pub mod laws;
pub mod lifecycle;
pub mod logging;
pub mod result_set;
pub mod shared_output;
pub mod target;
pub mod text;
pub mod tree;
pub mod walk;
