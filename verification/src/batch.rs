//! Running one statement and leaving.

use vstd::prelude::*;
use crate::output::Format;

verus! {

/// What a batch run is told: the statement, and how to print its result.
#[derive(Debug)]
pub struct Opt {
    pub format: Format,
    pub statement: String,
}

} // verus!
