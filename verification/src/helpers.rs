//! Short names for step definition files.

use crate::cucumber_regex::{build, pattern_compiles, regex_source};
use regex::Regex;
use vstd::prelude::*;

verus! {

/// Compiles a pattern that is known to be valid.
pub fn r(str: &str) -> (regex: Regex)
    requires
        pattern_compiles(str@),
    ensures
        regex_source(regex) == str@,
{
    build(str)
}

} // verus!
