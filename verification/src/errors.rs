//! The fatal errors of configuration resolution.

use vstd::prelude::*;

verus! {

#[verifier::external_type_specification]
#[verifier::external_body]
pub struct ExRegexError(regex::Error);

/// Why resolution had to abort: the flag string held a character the chosen
/// engine does not recognize, or the pattern was not a valid regular
/// expression (the compiler's own error is kept).
#[derive(Debug)]
pub enum Fail {
    InvalidFlags,
    PatternCompilationFailed(regex::Error),
}

} // verus!
