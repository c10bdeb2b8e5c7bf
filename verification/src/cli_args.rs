//! The newer single-submission command line, as plain values. The
//! binary owns the real parser and converts into this record.

use vstd::prelude::*;

verus! {

/// What a submission run needs, with the user-id reset of the newer
/// interface.
pub struct Args {
    pub filename: String,
    pub reset_email: bool,
    pub reset_password: bool,
    pub reset_user_id: bool,
    pub problem_id: String,
}

} // verus!
