//! Scanning a range of problems for top scores.
//!
//! The batch mode walks a closed range of problem ids, skips the ones
//! whose persisted status is final, examines the rest, and — outside dry
//! runs — submits a known-good solution where the score falls short. A
//! consecutive-failure counter trips a circuit breaker so a systemically
//! failing backend is not hammered. The decisions are verified here; the
//! caller owns the persisted map, the HTTP calls and the sleeps.

use vstd::prelude::*;

use crate::api::login::LoginError;
use crate::api::score::{GetScoreError, TopSolutionResponseType};
use crate::api::solve::SolveError;
use crate::json::JsonValue;

verus! {

/// The ceiling the scan uses when none is configured: after this many
/// consecutive page errors the whole run stops early.
pub const SCAN_ERROR_CEILING: u32 = 250;

/// Whether a persisted status leaves a problem worth examining again.
/// Only a perfect solution and a missing problem are final.
pub open spec fn spec_needs_rescan(st: Option<TopSolutionResponseType>) -> bool {
    match st {
        None => true,
        Some(s) => match s {
            TopSolutionResponseType::PageError(_) => true,
            TopSolutionResponseType::ImperfectSolution => true,
            TopSolutionResponseType::NoSolution => true,
            _ => false,
        },
    }
}

/// Whether this persisted status leaves the problem worth examining.
pub fn needs_rescan(st: Option<&TopSolutionResponseType>) -> (r: bool)
    ensures
        r == spec_needs_rescan(
            match st {
                Some(s) => Some(*s),
                None => None,
            },
        ),
{
    match st {
        None => true,
        Some(TopSolutionResponseType::PageError(_)) => true,
        Some(TopSolutionResponseType::ImperfectSolution) => true,
        Some(TopSolutionResponseType::NoSolution) => true,
        Some(_) => false,
    }
}

/// Whether progress is flushed after finishing this problem id: every
/// tenth id, so a crash loses at most one batch.
pub fn should_flush(id: u32) -> (r: bool)
    ensures
        r == (id % 10 == 0),
{
    id % 10 == 0
}

/// Where the scan stands.
#[derive(Debug, PartialEq, Eq, Clone, Copy)]
pub enum ScanPhase {
    /// The current id needs a verdict (or a skip, when its persisted
    /// status is final).
    Examine,
    /// The current id scored short of perfect: the submit flow runs.
    Solving,
    /// The range is exhausted.
    Finished,
    /// The circuit breaker tripped.
    Aborted,
}

/// The range scan as a state machine. The caller looks up the persisted
/// status of `next_id`, skips or examines accordingly, records what the
/// methods hand back, and stops at `Finished` or `Aborted`.
#[derive(Debug, PartialEq, Eq)]
pub struct ScanMachine {
    pub next_id: u32,
    pub end_id: u32,
    pub consecutive_failures: u32,
    pub ceiling: u32,
    pub dry_run: bool,
    pub phase: ScanPhase,
}

/// A failure counter bumped without wrapping.
pub open spec fn spec_bump(cf: u32) -> u32 {
    if cf == u32::MAX {
        cf
    } else {
        (cf + 1) as u32
    }
}

/// The machine after finishing with the current id: the next id, or the
/// end of the range.
pub open spec fn spec_advance(m: ScanMachine) -> ScanMachine {
    if m.next_id >= m.end_id {
        ScanMachine { phase: ScanPhase::Finished, ..m }
    } else {
        ScanMachine { next_id: (m.next_id + 1) as u32, phase: ScanPhase::Examine, ..m }
    }
}

/// The machine after a verdict for the current id: a page error feeds
/// the breaker, a short score starts the submit flow outside dry runs,
/// and every other verdict resets the breaker and moves on.
pub open spec fn spec_after_examined(m: ScanMachine, st: TopSolutionResponseType) -> ScanMachine {
    match st {
        TopSolutionResponseType::PageError(_) => {
            let bumped = ScanMachine { consecutive_failures: spec_bump(m.consecutive_failures), ..m };
            if spec_bump(m.consecutive_failures) >= m.ceiling {
                ScanMachine { phase: ScanPhase::Aborted, ..bumped }
            } else {
                spec_advance(bumped)
            }
        },
        TopSolutionResponseType::ImperfectSolution => spec_after_short_score(m),
        TopSolutionResponseType::NoSolution => spec_after_short_score(m),
        _ => spec_advance(ScanMachine { consecutive_failures: 0, ..m }),
    }
}

/// The machine after a verdict that falls short of perfect: solve it,
/// unless this is a dry run.
pub open spec fn spec_after_short_score(m: ScanMachine) -> ScanMachine {
    if m.dry_run {
        spec_advance(ScanMachine { consecutive_failures: 0, ..m })
    } else {
        ScanMachine { consecutive_failures: 0, phase: ScanPhase::Solving, ..m }
    }
}

/// What a verdict tells the caller to record right away: final verdicts
/// and dry-run verdicts, never a page error, and nothing yet when the
/// submit flow is about to run.
pub open spec fn spec_record_of(dry_run: bool, st: TopSolutionResponseType) -> Option<
    TopSolutionResponseType,
> {
    match st {
        TopSolutionResponseType::PageError(_) => None,
        TopSolutionResponseType::ImperfectSolution => if dry_run {
            Some(st)
        } else {
            None
        },
        TopSolutionResponseType::NoSolution => if dry_run {
            Some(st)
        } else {
            None
        },
        _ => Some(st),
    }
}

impl ScanMachine {
    /// A scan over the closed range `start_id ..= end_id`, refused when
    /// the range is inverted or the ceiling is zero.
    pub fn new(start_id: u32, end_id: u32, ceiling: u32, dry_run: bool) -> (r: Option<ScanMachine>)
        ensures
            (start_id <= end_id && ceiling >= 1) <==> r is Some,
            r matches Some(m) ==> m == (ScanMachine {
                next_id: start_id,
                end_id,
                consecutive_failures: 0,
                ceiling,
                dry_run,
                phase: ScanPhase::Examine,
            }),
    {
        if start_id <= end_id && ceiling >= 1 {
            Some(
                ScanMachine {
                    next_id: start_id,
                    end_id,
                    consecutive_failures: 0,
                    ceiling,
                    dry_run,
                    phase: ScanPhase::Examine,
                },
            )
        } else {
            None
        }
    }

    /// Passes over the current id without touching the breaker: its
    /// persisted status was final.
    pub fn skip(&mut self)
        requires
            old(self).phase == ScanPhase::Examine,
        ensures
            *final(self) == spec_advance(*old(self)),
    {
        self.advance();
    }

    /// Consumes the verdict for the current id and hands back what to
    /// record under it.
    pub fn examined(&mut self, st: TopSolutionResponseType) -> (rec: Option<
        TopSolutionResponseType,
    >)
        requires
            old(self).phase == ScanPhase::Examine,
        ensures
            *final(self) == spec_after_examined(*old(self), st),
            rec == spec_record_of(old(self).dry_run, st),
    {
        match st {
            TopSolutionResponseType::PageError(_) => {
                self.consecutive_failures = if self.consecutive_failures == 4294967295u32 {
                    self.consecutive_failures
                } else {
                    self.consecutive_failures + 1
                };
                if self.consecutive_failures >= self.ceiling {
                    self.phase = ScanPhase::Aborted;
                } else {
                    self.advance();
                }
                None
            },
            TopSolutionResponseType::ImperfectSolution => self.short_score(
                TopSolutionResponseType::ImperfectSolution,
            ),
            TopSolutionResponseType::NoSolution => self.short_score(
                TopSolutionResponseType::NoSolution,
            ),
            st => {
                self.consecutive_failures = 0;
                self.advance();
                Some(st)
            },
        }
    }

    /// Consumes the submit flow's outcome for the current id: a freshly
    /// read status is recorded, a failure only logged by the caller.
    pub fn solved(&mut self, outcome: Result<TopSolutionResponseType, String>) -> (rec: Option<
        TopSolutionResponseType,
    >)
        requires
            old(self).phase == ScanPhase::Solving,
        ensures
            *final(self) == spec_advance(*old(self)),
            rec == match outcome {
                Ok(st) => Some(st),
                Err(_) => None,
            },
    {
        self.advance();
        match outcome {
            Ok(st) => Some(st),
            Err(_) => None,
        }
    }

    /// A verdict short of perfect: record it at once in a dry run, else
    /// start the submit flow.
    fn short_score(&mut self, st: TopSolutionResponseType) -> (rec: Option<
        TopSolutionResponseType,
    >)
        requires
            old(self).phase == ScanPhase::Examine || old(self).phase == ScanPhase::Solving,
        ensures
            *final(self) == spec_after_short_score(*old(self)),
            rec == if old(self).dry_run {
                Some(st)
            } else {
                None::<TopSolutionResponseType>
            },
    {
        self.consecutive_failures = 0;
        if self.dry_run {
            self.advance();
            Some(st)
        } else {
            self.phase = ScanPhase::Solving;
            None
        }
    }

    /// Moves to the next id, or ends the range.
    fn advance(&mut self)
        ensures
            *final(self) == spec_advance(*old(self)),
    {
        if self.next_id >= self.end_id {
            self.phase = ScanPhase::Finished;
        } else {
            self.next_id = self.next_id + 1;
            self.phase = ScanPhase::Examine;
        }
    }
}

/// The machine after a run of page-error verdicts, one per examined id.
pub open spec fn spec_scan_after_errors(m: ScanMachine, errs: Seq<String>) -> ScanMachine
    decreases errs.len(),
{
    if errs.len() == 0 {
        m
    } else {
        spec_scan_after_errors(
            spec_after_examined(m, TopSolutionResponseType::PageError(errs[0])),
            errs.drop_first(),
        )
    }
}

/// The circuit breaker trips after exactly the configured ceiling of
/// consecutive page errors, and never before: a run of fewer keeps
/// scanning with the counter at the run's length, and a run that reaches
/// the ceiling aborts the scan.
pub proof fn lemma_scan_circuit_breaker(m: ScanMachine, errs: Seq<String>)
    requires
        m.phase == ScanPhase::Examine,
        m.consecutive_failures + errs.len() <= m.ceiling,
        m.end_id - m.next_id >= errs.len(),
    ensures
        m.consecutive_failures + errs.len() < m.ceiling ==> ({
            let post = spec_scan_after_errors(m, errs);
            post.phase == ScanPhase::Examine && post.consecutive_failures
                == m.consecutive_failures + errs.len()
        }),
        errs.len() > 0 && m.consecutive_failures + errs.len() == m.ceiling ==> ({
            let post = spec_scan_after_errors(m, errs);
            post.phase == ScanPhase::Aborted && post.consecutive_failures == m.ceiling
        }),
    decreases errs.len(),
{
    if errs.len() > 0 {
        let m1 = spec_after_examined(m, TopSolutionResponseType::PageError(errs[0]));
        if m.consecutive_failures + 1 >= m.ceiling {
            assert(errs.len() == 1);
            assert(spec_scan_after_errors(m1, errs.drop_first()) == m1);
        } else {
            lemma_scan_circuit_breaker(m1, errs.drop_first());
        }
    }
}

/// What can end the bot's per-problem flow.
#[derive(Debug, PartialEq, Eq)]
pub enum SolveRetryError {
    Solve(SolveError),
    Login(LoginError),
    Poll(GetScoreError),
}

/// How long the bot backs off after repeated cooldowns or a failed
/// re-login, in seconds.
pub const LONG_WAIT_SECS: u64 = 300;

/// Where the bot's per-problem flow stands.
#[derive(Debug, PartialEq, Eq)]
pub enum RetryPhase {
    /// Run the submit-with-backoff flow.
    Solve,
    /// Poll the fresh solution until its evaluation ends.
    Poll { sol_id: String },
    /// Re-login before going on.
    FreshLogin { after_cooldown: bool },
    /// Back off for the long window, then submit again.
    LongWait,
    /// Re-read the problem's status, freshly recorded by the service.
    TopScore,
    /// The flow ended.
    Done(Result<TopSolutionResponseType, SolveRetryError>),
}

/// The bot's flow for one problem: submit, treat a persistent cooldown
/// as a possible stale session, re-login at most once for each cause,
/// poll the evaluation, then capture the recorded status.
#[derive(Debug, PartialEq, Eq)]
pub struct SolveRetryMachine {
    /// A cooldown already forced one re-login.
    pub attempted_login: bool,
    /// A not-logged-in reply already forced one re-login and retry.
    pub login_retried: bool,
    pub phase: RetryPhase,
}

impl SolveRetryMachine {
    /// A fresh flow for one problem.
    pub fn start() -> (m: SolveRetryMachine)
        ensures
            m == (SolveRetryMachine {
                attempted_login: false,
                login_retried: false,
                phase: RetryPhase::Solve,
            }),
    {
        SolveRetryMachine { attempted_login: false, login_retried: false, phase: RetryPhase::Solve }
    }

    /// Consumes the submit flow's outcome. A cooldown that survived the
    /// submit flow's own backoff suggests a stale session: re-login
    /// once, then only back off. A not-logged-in reply forces a fresh
    /// login and one retry of the upload. Anything else propagates.
    pub fn solve_done(&mut self, outcome: Result<String, SolveError>)
        requires
            old(self).phase == RetryPhase::Solve,
        ensures
            match outcome {
                Ok(id) => *final(self) == (SolveRetryMachine {
                    phase: RetryPhase::Poll { sol_id: id },
                    ..*old(self)
                }),
                Err(e) => {
                    if (e matches SolveError::UploadError { problem_id: _, err }
                        && err is CooldownError) {
                        if old(self).attempted_login {
                            *final(self) == (SolveRetryMachine {
                                phase: RetryPhase::LongWait,
                                ..*old(self)
                            })
                        } else {
                            *final(self) == (SolveRetryMachine {
                                attempted_login: true,
                                phase: RetryPhase::FreshLogin { after_cooldown: true },
                                ..*old(self)
                            })
                        }
                    } else if (e matches SolveError::UploadError { problem_id: _, err }
                        && err is NotLoggedInError) {
                        if old(self).login_retried {
                            *final(self) == (SolveRetryMachine {
                                phase: RetryPhase::Done(Err(SolveRetryError::Solve(e))),
                                ..*old(self)
                            })
                        } else {
                            *final(self) == (SolveRetryMachine {
                                phase: RetryPhase::FreshLogin { after_cooldown: false },
                                ..*old(self)
                            })
                        }
                    } else {
                        *final(self) == (SolveRetryMachine {
                            phase: RetryPhase::Done(Err(SolveRetryError::Solve(e))),
                            ..*old(self)
                        })
                    }
                },
            },
    {
        match outcome {
            Ok(id) => {
                self.phase = RetryPhase::Poll { sol_id: id };
            },
            Err(e) => {
                let is_cooldown = match &e {
                    SolveError::UploadError { problem_id: _, err } => match err {
                        crate::api::upload::UploadError::CooldownError => true,
                        _ => false,
                    },
                    _ => false,
                };
                let is_not_logged_in = match &e {
                    SolveError::UploadError { problem_id: _, err } => match err {
                        crate::api::upload::UploadError::NotLoggedInError => true,
                        _ => false,
                    },
                    _ => false,
                };
                if is_cooldown {
                    if self.attempted_login {
                        self.phase = RetryPhase::LongWait;
                    } else {
                        self.attempted_login = true;
                        self.phase = RetryPhase::FreshLogin { after_cooldown: true };
                    }
                } else if is_not_logged_in && !self.login_retried {
                    self.phase = RetryPhase::FreshLogin { after_cooldown: false };
                } else {
                    self.phase = RetryPhase::Done(Err(SolveRetryError::Solve(e)));
                }
            },
        }
    }

    /// Consumes the re-login's outcome. After a cooldown-driven login,
    /// failure only means the long backoff; after a not-logged-in reply
    /// it is terminal, and success spends the one upload retry.
    pub fn login_done(&mut self, outcome: Result<(), LoginError>)
        requires
            old(self).phase matches RetryPhase::FreshLogin { after_cooldown: _ },
        ensures
            ({
                let after_cooldown = old(self).phase->FreshLogin_after_cooldown;
                match outcome {
                    Ok(u) => {
                        if after_cooldown {
                            *final(self) == (SolveRetryMachine {
                                phase: RetryPhase::Solve,
                                ..*old(self)
                            })
                        } else {
                            *final(self) == (SolveRetryMachine {
                                login_retried: true,
                                phase: RetryPhase::Solve,
                                ..*old(self)
                            })
                        }
                    },
                    Err(e) => {
                        if after_cooldown {
                            *final(self) == (SolveRetryMachine {
                                phase: RetryPhase::LongWait,
                                ..*old(self)
                            })
                        } else {
                            *final(self) == (SolveRetryMachine {
                                phase: RetryPhase::Done(Err(SolveRetryError::Login(e))),
                                ..*old(self)
                            })
                        }
                    },
                }
            }),
    {
        let after_cooldown = match &self.phase {
            RetryPhase::FreshLogin { after_cooldown } => *after_cooldown,
            _ => false,
        };
        match outcome {
            Ok(_) => {
                if !after_cooldown {
                    self.login_retried = true;
                }
                self.phase = RetryPhase::Solve;
            },
            Err(e) => {
                if after_cooldown {
                    self.phase = RetryPhase::LongWait;
                } else {
                    self.phase = RetryPhase::Done(Err(SolveRetryError::Login(e)));
                }
            },
        }
    }

    /// The long backoff elapsed: submit again.
    pub fn waited(&mut self)
        requires
            old(self).phase == RetryPhase::LongWait,
        ensures
            *final(self) == (SolveRetryMachine { phase: RetryPhase::Solve, ..*old(self) }),
    {
        self.phase = RetryPhase::Solve;
    }

    /// Consumes the poller's outcome: the payload itself is not needed
    /// here, only that the evaluation ended; a timeout propagates.
    pub fn poll_done(&mut self, outcome: Result<JsonValue, GetScoreError>)
        requires
            old(self).phase matches RetryPhase::Poll { sol_id: _ },
        ensures
            match outcome {
                Ok(v) => *final(self) == (SolveRetryMachine {
                    phase: RetryPhase::TopScore,
                    ..*old(self)
                }),
                Err(e) => *final(self) == (SolveRetryMachine {
                    phase: RetryPhase::Done(Err(SolveRetryError::Poll(e))),
                    ..*old(self)
                }),
            },
    {
        match outcome {
            Ok(_) => {
                self.phase = RetryPhase::TopScore;
            },
            Err(e) => {
                self.phase = RetryPhase::Done(Err(SolveRetryError::Poll(e)));
            },
        }
    }

    /// Consumes the freshly read status: the flow's result.
    pub fn top_score_done(&mut self, st: TopSolutionResponseType)
        requires
            old(self).phase == RetryPhase::TopScore,
        ensures
            *final(self) == (SolveRetryMachine { phase: RetryPhase::Done(Ok(st)), ..*old(self) }),
    {
        self.phase = RetryPhase::Done(Ok(st));
    }
}

} // verus!
