//! An immutable descriptor of a subprocess to be spawned by a collaborator:
//! program name, argument list, and environment overrides.

use vstd::prelude::*;
use vstd::hash_map::StringHashMap;

verus! {

/// A program, its ordered arguments, and environment overrides with unique
/// keys. Resolution only constructs these; it never executes them.
pub struct SubprocessCommand {
    pub program: String,
    pub arguments: Vec<String>,
    pub env: StringHashMap<String>,
}

} // verus!
