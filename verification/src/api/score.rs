//! Evaluation polling and top-score scanning.
//!
//! A submitted solution is evaluated asynchronously: the status endpoint
//! answers "pending" or "executing" until a terminal payload appears, and
//! the service only displays a finished score after one further reload.
//! The bounded polling protocol, and the protocol that decides whether a
//! problem already has a perfect solution, are verified here as state
//! machines fed by the caller's HTTP calls.

use vstd::prelude::*;

use crate::json::{parse_json, parsed_json, spec_get, spec_is_str, is_str, JsonValue};
use crate::text::{
    chars_of, fmt_i64, parse_i64_chars, spec_i64_value, string_from_chars, valid_i64_text,
};

verus! {

/// What can end a score query or a polling run.
#[derive(Debug, PartialEq, Eq)]
pub enum GetScoreError {
    GenericError { err: String },
    ParseJsonError { json: String, err: String },
    TimeoutError,
}

/// A score reply: either the evaluation still runs, or the terminal
/// payload is in hand.
#[derive(Debug, PartialEq, Eq)]
pub enum ScoreStatus {
    DoneExecuting { value: JsonValue },
    StillExecuting,
}

/// Whether a status payload says the evaluation is still running.
pub open spec fn spec_still_executing(doc: JsonValue) -> bool {
    spec_is_str(spec_get(doc, "status_sursa"@), "executing"@) || spec_is_str(
        spec_get(doc, "status_sursa"@),
        "pending"@,
    )
}

/// Whether this status payload says the evaluation is still running.
pub fn still_executing(doc: &JsonValue) -> (r: bool)
    ensures
        r == spec_still_executing(*doc),
{
    is_str(doc.get("status_sursa"), "executing") || is_str(doc.get("status_sursa"), "pending")
}

/// Reads one reply of the status endpoint: unparseable text is an error,
/// a running evaluation stays pending, anything else is terminal and
/// carries the whole payload.
pub fn classify_score_reply(text: String) -> (r: Result<ScoreStatus, GetScoreError>)
    ensures
        match parsed_json(text@) {
            None => r matches Err(GetScoreError::ParseJsonError { json, err: _ }) && json@
                == text@,
            Some(doc) => {
                if spec_still_executing(doc) {
                    r == Ok::<ScoreStatus, GetScoreError>(ScoreStatus::StillExecuting)
                } else {
                    r == Ok::<ScoreStatus, GetScoreError>(
                        ScoreStatus::DoneExecuting { value: doc },
                    )
                }
            },
        },
{
    let doc = match parse_json(text.as_str()) {
        Ok(d) => d,
        Err(e) => {
            return Err(GetScoreError::ParseJsonError { json: text, err: e });
        },
    };
    if still_executing(&doc) {
        Ok(ScoreStatus::StillExecuting)
    } else {
        Ok(ScoreStatus::DoneExecuting { value: doc })
    }
}

/// How many status queries a polling run may spend.
pub const POLL_TRIES: u32 = 60;

/// How long the caller sleeps before each status query, in milliseconds.
pub const POLL_INTERVAL_MS: u64 = 1500;

/// What the caller saw for the query the poller asked for.
#[derive(Debug, PartialEq, Eq)]
pub enum PollEvent {
    Reply { text: String },
    Failed { err: String },
    ExtraDone,
}

/// The bounded polling protocol.
///
/// `Query` asks the caller to sleep one interval and query the status
/// endpoint once more; `ExtraReload` asks for one further fire-and-forget
/// query — the service persists the score for display only after being
/// asked again — whose outcome is ignored.
#[derive(Debug, PartialEq, Eq)]
pub enum PollMachine {
    Query { tries_left: u32 },
    ExtraReload { value: JsonValue },
    Done(Result<JsonValue, GetScoreError>),
}

/// Which events a polling phase can answer.
pub open spec fn poll_event_fits(pre: PollMachine, ev: PollEvent) -> bool {
    match pre {
        PollMachine::Query { .. } => ev is Reply || ev is Failed,
        PollMachine::ExtraReload { .. } => true,
        PollMachine::Done(_) => false,
    }
}

/// The polling protocol, one transition at a time.
pub open spec fn spec_poll_rel(pre: PollMachine, ev: PollEvent, post: PollMachine) -> bool {
    match pre {
        PollMachine::Query { tries_left } => match ev {
            PollEvent::Failed { err } => post == PollMachine::Done(
                Err(GetScoreError::GenericError { err }),
            ),
            PollEvent::Reply { text } => match parsed_json(text@) {
                None => post matches PollMachine::Done(
                    Err(GetScoreError::ParseJsonError { json, err: _ }),
                ) && json@ == text@,
                Some(doc) => {
                    if spec_still_executing(doc) {
                        if tries_left > 1 {
                            post == (PollMachine::Query { tries_left: (tries_left - 1) as u32 })
                        } else {
                            post == PollMachine::Done(Err(GetScoreError::TimeoutError))
                        }
                    } else {
                        post == (PollMachine::ExtraReload { value: doc })
                    }
                },
            },
            PollEvent::ExtraDone => false,
        },
        PollMachine::ExtraReload { value } => post == PollMachine::Done(Ok(value)),
        PollMachine::Done(_) => false,
    }
}

impl PollMachine {
    /// A fresh polling run with the full attempt budget.
    pub fn start() -> (m: PollMachine)
        ensures
            m == (PollMachine::Query { tries_left: POLL_TRIES }),
    {
        PollMachine::Query { tries_left: POLL_TRIES }
    }

    /// Consumes what the caller saw and moves the protocol along.
    pub fn step(self, ev: PollEvent) -> (next: PollMachine)
        requires
            !(self is Done),
            poll_event_fits(self, ev),
        ensures
            spec_poll_rel(self, ev, next),
    {
        match self {
            PollMachine::Query { tries_left } => match ev {
                PollEvent::Failed { err } => PollMachine::Done(
                    Err(GetScoreError::GenericError { err }),
                ),
                PollEvent::Reply { text } => {
                    let doc = match parse_json(text.as_str()) {
                        Ok(d) => d,
                        Err(e) => {
                            return PollMachine::Done(
                                Err(GetScoreError::ParseJsonError { json: text, err: e }),
                            );
                        },
                    };
                    if still_executing(&doc) {
                        if tries_left > 1 {
                            PollMachine::Query { tries_left: tries_left - 1 }
                        } else {
                            PollMachine::Done(Err(GetScoreError::TimeoutError))
                        }
                    } else {
                        PollMachine::ExtraReload { value: doc }
                    }
                },
                PollEvent::ExtraDone => {
                    proof {
                        assert(false);
                    }
                    PollMachine::Done(Err(GetScoreError::TimeoutError))
                },
            },
            PollMachine::ExtraReload { value } => PollMachine::Done(Ok(value)),
            PollMachine::Done(r) => {
                proof {
                    assert(false);
                }
                PollMachine::Done(r)
            },
        }
    }
}

/// A reply that says the evaluation is still running.
pub open spec fn spec_still_reply(ev: PollEvent) -> bool {
    ev matches PollEvent::Reply { text } && (match parsed_json(text@) {
        Some(doc) => spec_still_executing(doc),
        None => false,
    })
}

/// A terminal reply costs exactly one extra query: the step after it
/// asks for a single fire-and-forget reload, and the step after that
/// ends the run with the payload already in hand, whatever the reload
/// returned.
pub proof fn lemma_poll_one_extra(
    pre: PollMachine,
    ev: PollEvent,
    mid: PollMachine,
    ev2: PollEvent,
    post: PollMachine,
)
    requires
        pre is Query,
        spec_poll_rel(pre, ev, mid),
        mid matches PollMachine::ExtraReload { value },
        spec_poll_rel(mid, ev2, post),
    ensures
        post == PollMachine::Done(Ok(mid->value)),
{
}

/// The states a polling run passes through, linked step by step.
pub open spec fn poll_run(states: Seq<PollMachine>, evs: Seq<PollEvent>) -> bool
    decreases evs.len(),
{
    evs.len() == 0 || (states.len() >= 2 && spec_poll_rel(states[0], evs[0], states[1])
        && poll_run(states.skip(1), evs.skip(1)))
}

/// A run that sees nothing but still-executing replies spends its whole
/// budget and then fails with the timeout error — the poller's only
/// terminal failure.
pub proof fn lemma_poll_timeout(states: Seq<PollMachine>, evs: Seq<PollEvent>, t: u32)
    requires
        t >= 1,
        states.len() == evs.len() + 1,
        evs.len() == t,
        states[0] == (PollMachine::Query { tries_left: t }),
        poll_run(states, evs),
        forall|i: int| 0 <= i < evs.len() ==> spec_still_reply(#[trigger] evs[i]),
    ensures
        states.last() == PollMachine::Done(Err(GetScoreError::TimeoutError)),
    decreases t,
{
    assert(spec_still_reply(evs[0]));
    if t == 1 {
        assert(states.last() == states[1]);
    } else {
        let states2 = states.skip(1);
        let evs2 = evs.skip(1);
        assert(states2[0] == states[1]);
        assert forall|i: int| 0 <= i < evs2.len() implies spec_still_reply(#[trigger] evs2[i]) by {
            assert(evs2[i] == evs[i + 1]);
        }
        lemma_poll_timeout(states2, evs2, (t - 1) as u32);
        assert(states2.last() == states.last());
    }
}

/// The durable outcome of examining one problem: the unit of persisted
/// scan progress. `PerfectSolution` and `ProblemNotFound` are final;
/// everything else is examined again on a later run.
#[derive(Debug, PartialEq, Eq, Clone)]
pub enum TopSolutionResponseType {
    PerfectSolution,
    ImperfectSolution,
    NoSolution,
    ProblemNotFound,
    PageError(String),
}

/// How many failed attempts each top-score request forgives before the
/// next failure becomes the verdict.
pub const TOP_SCORE_RETRIES: u8 = 3;

/// The score text of one listed solution: its `scor` string, or the
/// out-of-band `-2` when the field is missing or not a string.
pub open spec fn spec_scor_text(item: JsonValue) -> Seq<char> {
    match spec_get(item, "scor"@) {
        Some(v) => match v.spec_as_str() {
            Some(s) => s,
            None => "-2"@,
        },
        None => "-2"@,
    }
}

/// Whether every listed solution carries a readable score.
pub open spec fn all_scores_valid(items: Seq<JsonValue>) -> bool {
    forall|i: int| 0 <= i < items.len() ==> valid_i64_text(spec_scor_text(#[trigger] items[i]))
}

/// Whether some listed solution scored the full 100 points.
pub open spec fn spec_has_perfect(items: Seq<JsonValue>) -> bool {
    exists|i: int| 0 <= i < items.len() && spec_i64_value(spec_scor_text(#[trigger] items[i]))
        == 100
}

/// Reads the scores out of a solution list, or nothing when one of them
/// does not parse as an integer.
pub fn collect_scores(items: &Vec<JsonValue>) -> (r: Option<Vec<i64>>)
    ensures
        r is Some <==> all_scores_valid(items@),
        r matches Some(v) ==> v@.len() == items@.len() && forall|i: int|
            0 <= i < v@.len() ==> #[trigger] v@[i] as int == spec_i64_value(
                spec_scor_text(items@[i]),
            ),
{
    let mut scores: Vec<i64> = Vec::new();
    let mut i: usize = 0;
    while i < items.len()
        invariant
            i <= items@.len(),
            scores@.len() == i,
            forall|j: int| 0 <= j < i ==> valid_i64_text(spec_scor_text(#[trigger] items@[j])),
            forall|j: int| 0 <= j < i ==> #[trigger] scores@[j] as int == spec_i64_value(
                spec_scor_text(items@[j]),
            ),
        decreases items@.len() - i,
    {
        let scor = match items[i].get("scor") {
            Some(v) => match v.as_str() {
                Some(s) => chars_of(s.as_str()),
                None => chars_of("-2"),
            },
            None => chars_of("-2"),
        };
        match parse_i64_chars(&scor) {
            Some(n) => {
                scores.push(n);
            },
            None => {
                proof {
                    assert(!valid_i64_text(spec_scor_text(items@[i as int])));
                }
                return None;
            },
        }
        i += 1;
    }
    Some(scores)
}

/// The top-score verdict a list of scores earns: perfect exactly when
/// some solution scored 100, imperfect otherwise.
pub fn classify_scores(scores: &Vec<i64>) -> (r: TopSolutionResponseType)
    ensures
        (exists|i: int| 0 <= i < scores@.len() && #[trigger] scores@[i] == 100)
            ==> r == TopSolutionResponseType::PerfectSolution,
        !(exists|i: int| 0 <= i < scores@.len() && #[trigger] scores@[i] == 100)
            ==> r == TopSolutionResponseType::ImperfectSolution,
{
    let mut i: usize = 0;
    while i < scores.len()
        invariant
            i <= scores@.len(),
            forall|j: int| 0 <= j < i ==> #[trigger] scores@[j] != 100,
        decreases scores@.len() - i,
    {
        if scores[i] == 100 {
            return TopSolutionResponseType::PerfectSolution;
        }
        i += 1;
    }
    TopSolutionResponseType::ImperfectSolution
}

/// What the caller saw for the request the top-score protocol asked for.
#[derive(Debug, PartialEq, Eq)]
pub enum TopScoreEvent {
    ExistsReply { ok: bool },
    ListReply { text: String },
    Failed { err: String },
}

/// The protocol that decides a problem's top-score status.
///
/// `CheckExists` asks whether the problem page answers at all;
/// `FetchCount` asks for the user's most recent solution, to learn how
/// many there are; `FetchScores` asks for exactly that many and takes
/// the best. Each request forgives up to three failed attempts.
#[derive(Debug, PartialEq, Eq)]
pub enum TopScoreMachine {
    CheckExists { failures: u8 },
    FetchCount { failures: u8 },
    FetchScores { failures: u8, count: u32 },
    Done(TopSolutionResponseType),
}

/// Which events a top-score phase can answer.
pub open spec fn top_event_fits(pre: TopScoreMachine, ev: TopScoreEvent) -> bool {
    match pre {
        TopScoreMachine::CheckExists { .. } => ev is ExistsReply || ev is Failed,
        TopScoreMachine::FetchCount { .. } => ev is ListReply || ev is Failed,
        TopScoreMachine::FetchScores { .. } => ev is ListReply || ev is Failed,
        TopScoreMachine::Done(_) => false,
    }
}

/// A failed attempt within a phase: retried while attempts remain, the
/// verdict `PageError` once they run out.
pub open spec fn spec_retry(failures: u8, retry: TopScoreMachine, post: TopScoreMachine) -> bool {
    if failures < TOP_SCORE_RETRIES {
        post == retry
    } else {
        post matches TopScoreMachine::Done(TopSolutionResponseType::PageError(_))
    }
}

/// The count field of a solutions-list reply, as `as_i64` reads it.
pub open spec fn spec_solution_count(doc: JsonValue) -> Option<i64> {
    match spec_get(doc, "numar_total_solutii"@) {
        Some(v) => v.spec_as_int(),
        None => None,
    }
}

/// The top-score protocol, one transition at a time.
pub open spec fn spec_top_rel(pre: TopScoreMachine, ev: TopScoreEvent, post: TopScoreMachine) -> bool {
    match pre {
        TopScoreMachine::CheckExists { failures } => match ev {
            TopScoreEvent::Failed { err: _ } => spec_retry(
                failures,
                TopScoreMachine::CheckExists { failures: (failures + 1) as u8 },
                post,
            ),
            TopScoreEvent::ExistsReply { ok } => {
                if ok {
                    post == (TopScoreMachine::FetchCount { failures: 0 })
                } else {
                    post == TopScoreMachine::Done(TopSolutionResponseType::ProblemNotFound)
                }
            },
            _ => false,
        },
        TopScoreMachine::FetchCount { failures } => match ev {
            TopScoreEvent::Failed { err: _ } => spec_retry(
                failures,
                TopScoreMachine::FetchCount { failures: (failures + 1) as u8 },
                post,
            ),
            TopScoreEvent::ListReply { text } => match parsed_json(text@) {
                None => spec_retry(
                    failures,
                    TopScoreMachine::FetchCount { failures: (failures + 1) as u8 },
                    post,
                ),
                Some(doc) => match spec_solution_count(doc) {
                    None => post matches TopScoreMachine::Done(
                        TopSolutionResponseType::PageError(_),
                    ),
                    Some(n) => {
                        if n < 0 || n > u32::MAX {
                            post matches TopScoreMachine::Done(
                                TopSolutionResponseType::PageError(_),
                            )
                        } else if n == 0 {
                            post == TopScoreMachine::Done(TopSolutionResponseType::NoSolution)
                        } else {
                            post == (TopScoreMachine::FetchScores {
                                failures: 0,
                                count: n as u32,
                            })
                        }
                    },
                },
            },
            _ => false,
        },
        TopScoreMachine::FetchScores { failures, count: _ } => match ev {
            TopScoreEvent::Failed { err: _ } => spec_retry(
                failures,
                TopScoreMachine::FetchScores {
                    failures: (failures + 1) as u8,
                    count: pre->FetchScores_count,
                },
                post,
            ),
            TopScoreEvent::ListReply { text } => match parsed_json(text@) {
                None => spec_retry(
                    failures,
                    TopScoreMachine::FetchScores {
                        failures: (failures + 1) as u8,
                        count: pre->FetchScores_count,
                    },
                    post,
                ),
                Some(doc) => match spec_get(doc, "surse"@) {
                    Some(JsonValue::Arr(items)) => {
                        if all_scores_valid(items@) {
                            post == TopScoreMachine::Done(
                                if spec_has_perfect(items@) {
                                    TopSolutionResponseType::PerfectSolution
                                } else {
                                    TopSolutionResponseType::ImperfectSolution
                                },
                            )
                        } else {
                            post matches TopScoreMachine::Done(
                                TopSolutionResponseType::PageError(_),
                            )
                        }
                    },
                    _ => post matches TopScoreMachine::Done(TopSolutionResponseType::PageError(_)),
                },
            },
            _ => false,
        },
        TopScoreMachine::Done(_) => false,
    }
}

impl TopScoreMachine {
    /// A fresh examination of one problem.
    pub fn start() -> (m: TopScoreMachine)
        ensures
            m == (TopScoreMachine::CheckExists { failures: 0 }),
    {
        TopScoreMachine::CheckExists { failures: 0 }
    }

    /// Consumes what the caller saw and moves the protocol along.
    pub fn step(self, ev: TopScoreEvent) -> (next: TopScoreMachine)
        requires
            !(self is Done),
            top_event_fits(self, ev),
        ensures
            spec_top_rel(self, ev, next),
    {
        match self {
            TopScoreMachine::CheckExists { failures } => match ev {
                TopScoreEvent::Failed { err } => Self::retry_or_fail(
                    failures,
                    TopScoreMachine::CheckExists { failures: saturate(failures) },
                    err,
                ),
                TopScoreEvent::ExistsReply { ok } => {
                    if ok {
                        TopScoreMachine::FetchCount { failures: 0 }
                    } else {
                        TopScoreMachine::Done(TopSolutionResponseType::ProblemNotFound)
                    }
                },
                _ => {
                    proof {
                        assert(false);
                    }
                    TopScoreMachine::Done(TopSolutionResponseType::NoSolution)
                },
            },
            TopScoreMachine::FetchCount { failures } => match ev {
                TopScoreEvent::Failed { err } => Self::retry_or_fail(
                    failures,
                    TopScoreMachine::FetchCount { failures: saturate(failures) },
                    err,
                ),
                TopScoreEvent::ListReply { text } => {
                    let doc = match parse_json(text.as_str()) {
                        Ok(d) => d,
                        Err(e) => {
                            return Self::retry_or_fail(
                                failures,
                                TopScoreMachine::FetchCount { failures: saturate(failures) },
                                e,
                            );
                        },
                    };
                    let n = match doc.get("numar_total_solutii") {
                        Some(v) => v.as_int(),
                        None => None,
                    };
                    match n {
                        None => TopScoreMachine::Done(
                            TopSolutionResponseType::PageError(
                                String::from_str(
                                    "numar_total_solutii couldn't be found in response json as an int!\nResponse json was: ",
                                ).concat(text.as_str()),
                            ),
                        ),
                        Some(n) => {
                            if n < 0 || n > 4294967295i64 {
                                let digits = fmt_i64(n);
                                TopScoreMachine::Done(
                                    TopSolutionResponseType::PageError(
                                        String::from_str(
                                            "numar_total_solutii couldn't be parsed to an u32\nnumar_total_solutii was ",
                                        ).concat(string_from_chars(&digits).as_str()),
                                    ),
                                )
                            } else if n == 0 {
                                TopScoreMachine::Done(TopSolutionResponseType::NoSolution)
                            } else {
                                TopScoreMachine::FetchScores { failures: 0, count: n as u32 }
                            }
                        },
                    }
                },
                _ => {
                    proof {
                        assert(false);
                    }
                    TopScoreMachine::Done(TopSolutionResponseType::NoSolution)
                },
            },
            TopScoreMachine::FetchScores { failures, count } => match ev {
                TopScoreEvent::Failed { err } => Self::retry_or_fail(
                    failures,
                    TopScoreMachine::FetchScores { failures: saturate(failures), count },
                    err,
                ),
                TopScoreEvent::ListReply { text } => {
                    let doc = match parse_json(text.as_str()) {
                        Ok(d) => d,
                        Err(e) => {
                            return Self::retry_or_fail(
                                failures,
                                TopScoreMachine::FetchScores { failures: saturate(failures), count },
                                e,
                            );
                        },
                    };
                    let items = match doc.get("surse") {
                        Some(v) => match v.as_array() {
                            Some(items) => items,
                            None => {
                                return TopScoreMachine::Done(
                                    TopSolutionResponseType::PageError(
                                        String::from_str(
                                            "surse was not an array\nResponse was: ",
                                        ).concat(text.as_str()),
                                    ),
                                );
                            },
                        },
                        None => {
                            return TopScoreMachine::Done(
                                TopSolutionResponseType::PageError(
                                    String::from_str(
                                        "surse was not an array\nResponse was: ",
                                    ).concat(text.as_str()),
                                ),
                            );
                        },
                    };
                    match collect_scores(items) {
                        Some(scores) => {
                            let verdict = classify_scores(&scores);
                            proof {
                                if spec_has_perfect(items@) {
                                    let i = choose|i: int|
                                        0 <= i < items@.len() && spec_i64_value(
                                            spec_scor_text(#[trigger] items@[i]),
                                        ) == 100;
                                    assert(scores@[i] as int == 100);
                                }
                                if exists|i: int|
                                    0 <= i < scores@.len() && #[trigger] scores@[i] == 100 {
                                    let i = choose|i: int|
                                        0 <= i < scores@.len() && #[trigger] scores@[i] == 100;
                                    assert(spec_i64_value(spec_scor_text(items@[i])) == 100);
                                }
                            }
                            TopScoreMachine::Done(verdict)
                        },
                        None => TopScoreMachine::Done(
                            TopSolutionResponseType::PageError(
                                String::from_str(
                                    "Couldn't parse a score for a solution!\nSolution list was: ",
                                ).concat(text.as_str()),
                            ),
                        ),
                    }
                },
                _ => {
                    proof {
                        assert(false);
                    }
                    TopScoreMachine::Done(TopSolutionResponseType::NoSolution)
                },
            },
            TopScoreMachine::Done(v) => {
                proof {
                    assert(false);
                }
                TopScoreMachine::Done(v)
            },
        }
    }

    /// One more failed attempt: retry while the budget lasts, otherwise
    /// let the failure's text become the verdict.
    fn retry_or_fail(failures: u8, retry: TopScoreMachine, err: String) -> (post: TopScoreMachine)
        ensures
            spec_retry(failures, retry, post),
    {
        if failures < TOP_SCORE_RETRIES {
            retry
        } else {
            TopScoreMachine::Done(TopSolutionResponseType::PageError(err))
        }
    }
}

/// The bump a failure counter takes, stopped short of wrapping.
fn saturate(failures: u8) -> (r: u8)
    ensures
        failures < 255 ==> r == failures + 1,
{
    if failures < 255 {
        failures + 1
    } else {
        failures
    }
}

} // verus!
