//! Configuration resolution for an interactive search-and-replace tool.
//!
//! Raw pattern, replacement and flag strings are turned into one fully
//! resolved execution plan: which matching engine to use, which mode to run
//! in, how output is rendered, and how the program's own invocation is
//! rebuilt when it re-executes itself through a shell wrapper.

use vstd::prelude::*;

pub mod argparse;
pub mod chars;
pub mod engine;
pub mod errors;
pub mod flags;
pub mod fzf;
pub mod laws;
pub mod pager;
pub mod strops;
pub mod subprocess;

verus! {

} // verus!
