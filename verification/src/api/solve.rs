//! Submitting a known-good solution, with the cooldown backoff.
//!
//! The service rate-limits uploads; a cooldown reply is expected rather
//! than exceptional, so the submit flow sleeps a fixed window and tries
//! the same upload again, without spending any error budget. Every other
//! failure propagates. The decisions are verified here; fetching the
//! solution text and the HTTP calls stay with the caller.

use vstd::prelude::*;

use crate::api::upload::UploadError;

verus! {

/// What can end a submit flow: no solution to submit, or an upload
/// failure worth propagating.
#[derive(Debug, PartialEq, Eq)]
pub enum SolveError {
    GetSolutionError { problem_id: String, err: String },
    UploadError { problem_id: String, err: UploadError },
}

/// How long the caller sleeps after a cooldown reply, in seconds.
pub const COOLDOWN_SECS: u64 = 11;

/// Where the submit flow stands.
#[derive(Debug, PartialEq, Eq)]
pub enum SolvePhase {
    /// An upload attempt is owed (after the cooldown sleep, when the
    /// previous attempt hit the rate limit).
    Upload,
    /// The flow ended with the new solution's id or a terminal error.
    Done(Result<String, SolveError>),
}

/// The submit-with-backoff flow for one problem.
pub struct SolveMachine {
    pub problem_id: String,
    pub phase: SolvePhase,
}

impl SolveMachine {
    /// A fresh submit flow for `problem_id`.
    pub fn start(problem_id: String) -> (m: SolveMachine)
        ensures
            m.problem_id == problem_id,
            m.phase == SolvePhase::Upload,
    {
        SolveMachine { problem_id, phase: SolvePhase::Upload }
    }

    /// Consumes one upload outcome: success ends the flow with the id, a
    /// cooldown asks for the same upload again after the sleep, anything
    /// else propagates unretried.
    pub fn step(&mut self, outcome: Result<String, UploadError>)
        requires
            old(self).phase == SolvePhase::Upload,
        ensures
            final(self).problem_id == old(self).problem_id,
            match outcome {
                Ok(id) => final(self).phase == SolvePhase::Done(Ok(id)),
                Err(e) => {
                    if e is CooldownError {
                        final(self).phase == SolvePhase::Upload
                    } else {
                        final(self).phase == SolvePhase::Done(
                            Err(
                                SolveError::UploadError {
                                    problem_id: old(self).problem_id,
                                    err: e,
                                },
                            ),
                        )
                    }
                },
            },
    {
        match outcome {
            Ok(id) => {
                self.phase = SolvePhase::Done(Ok(id));
            },
            Err(UploadError::CooldownError) => {
                self.phase = SolvePhase::Upload;
            },
            Err(e) => {
                let pid = self.problem_id.clone();
                self.phase = SolvePhase::Done(
                    Err(SolveError::UploadError { problem_id: pid, err: e }),
                );
            },
        }
    }
}

} // verus!
