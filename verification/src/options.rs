//! What a run of the inspector is asked to do.

use vstd::prelude::*;

verus! {

/// The choices that the command line makes.
#[derive(Debug, PartialEq, Eq)]
pub struct Options {
    /// The path of the file to inspect.
    pub infile: String,
    /// Whether the format and the kind of division are to be reported.
    pub debug: bool,
}

} // verus!
