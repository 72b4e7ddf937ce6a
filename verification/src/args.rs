//! The search configuration handed in from the command line.

use vstd::prelude::*;

verus! {

/// The configuration of one search session: the pattern inputs (each a
/// literal suffix or a `/…/` expression, any match accepted), an optional
/// thread-count override, an optional notification topic, and whether the
/// session stops after the first match.
pub struct Args {
    pub patterns: Vec<String>,
    pub threads: Option<usize>,
    pub ntfy: Option<String>,
    pub stop_after_match: bool,
}

} // verus!
