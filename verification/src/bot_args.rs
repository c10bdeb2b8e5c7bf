//! The range-scan command line, as plain values. The binary owns the
//! real parser and converts into this record.

use vstd::prelude::*;

verus! {

/// What a range scan needs: the closed id range, the pacing delay, the
/// dry-run switch, the consecutive-error ceiling, and whether stored
/// credentials are to be asked for anew.
pub struct Args {
    pub reset_email: bool,
    pub reset_password: bool,
    pub reset_user_id: bool,
    pub start_problem_id: u32,
    pub end_problem_id: u32,
    pub delay: u64,
    pub dry_run: bool,
    pub max_consecutive_errors: u32,
}

} // verus!
