//! The single-submission command line, as plain values. The binary owns
//! the real parser and converts into this record.

use vstd::prelude::*;

verus! {

/// What a single submission run needs: the source file, the problem,
/// and whether stored credentials are to be asked for anew.
pub struct Args {
    pub filename: String,
    pub reset_email: bool,
    pub reset_password: bool,
    pub problem_id: String,
}

} // verus!
