use pbinfo_cli::api::login::{
    CookieHeader, LoginError, SessionEvent, SessionMachine, SessionPhase,
};
use pbinfo_cli::api::score::{
    classify_scores, GetScoreError, PollEvent, PollMachine, TopScoreEvent, TopScoreMachine,
    TopSolutionResponseType, POLL_TRIES,
};
use pbinfo_cli::api::solve::{SolveError, SolveMachine, SolvePhase};
use pbinfo_cli::api::upload::UploadError;
use pbinfo_cli::scan::{needs_rescan, should_flush, RetryPhase, ScanMachine, ScanPhase, SolveRetryMachine};

fn post_with_cookie(header: &str) -> SessionEvent {
    SessionEvent::PostOutcome {
        cookie: CookieHeader::Value {
            header: header.to_string(),
        },
        reply: Ok(String::new()),
    }
}

#[test]
fn login_probe_success_keeps_session() {
    let mut m = SessionMachine::start("oldssid".to_string(), "oldtok".to_string());
    m.step(SessionEvent::ProbeOutcome {
        body: Some("{\"conversatii\":[]}".to_string()),
    });
    assert_eq!(m.phase, SessionPhase::Done(Ok(())));
    assert_eq!(m.ssid, "oldssid");
    assert_eq!(m.form_token, "oldtok");
}

#[test]
fn login_full_renewal_path() {
    let mut m = SessionMachine::start("oldssid".to_string(), "oldtok".to_string());
    // empty probe body: not logged in
    m.step(SessionEvent::ProbeOutcome {
        body: Some(String::new()),
    });
    assert_eq!(m.phase, SessionPhase::FirstPost { second_round: false });
    // first post: no cookie, but a refreshed form token in the body
    m.step(SessionEvent::PostOutcome {
        cookie: CookieHeader::Missing,
        reply: Ok("{\"form_token\":\"tok2\"}".to_string()),
    });
    assert_eq!(m.phase, SessionPhase::SecondPost { second_round: false });
    assert_eq!(m.form_token, "tok2");
    // second post: the cookie must be there
    m.step(post_with_cookie("SSID=fresh; Path=/"));
    assert_eq!(m.phase, SessionPhase::Done(Ok(())));
    assert_eq!(m.ssid, "fresh");
}

#[test]
fn login_repeated_session_only_renewals_converge() {
    let mut m = SessionMachine::start_fresh("s0".to_string(), "t0".to_string());
    m.step(post_with_cookie("SSID=s1; Path=/"));
    assert_eq!(m.phase, SessionPhase::FirstPost { second_round: true });
    assert_eq!(m.ssid, "s1");
    // the server keeps renewing only the session id; the protocol still ends
    m.step(post_with_cookie("SSID=s2; Path=/"));
    assert_eq!(m.phase, SessionPhase::Done(Ok(())));
    assert_eq!(m.ssid, "s2");
    assert_eq!(m.form_token, "t0");
}

#[test]
fn login_missing_cookie_on_second_post_is_terminal() {
    let mut m = SessionMachine::start_fresh("s".to_string(), "t".to_string());
    m.step(SessionEvent::PostOutcome {
        cookie: CookieHeader::Missing,
        reply: Ok("{\"form_token\":\"t2\"}".to_string()),
    });
    m.step(SessionEvent::PostOutcome {
        cookie: CookieHeader::Missing,
        reply: Ok(String::new()),
    });
    assert_eq!(m.phase, SessionPhase::Done(Err(LoginError::NoCookieError)));
}

#[test]
fn login_transport_failure_is_terminal() {
    let mut m = SessionMachine::start_fresh("s".to_string(), "t".to_string());
    m.step(SessionEvent::PostFailed {
        url: "http://example.invalid".to_string(),
        err: "no route".to_string(),
    });
    assert!(matches!(
        m.phase,
        SessionPhase::Done(Err(LoginError::RequestSendError { .. }))
    ));
}

fn pending_reply() -> PollEvent {
    PollEvent::Reply {
        text: "{\"status_sursa\":\"pending\"}".to_string(),
    }
}

#[test]
fn poller_returns_terminal_payload_after_one_extra_reload() {
    let mut m = PollMachine::start();
    m = m.step(pending_reply());
    m = m.step(PollEvent::Reply {
        text: "{\"status_sursa\":\"executing\"}".to_string(),
    });
    m = m.step(PollEvent::Reply {
        text: "{\"status_sursa\":\"finalizat\",\"scor\":\"100\"}".to_string(),
    });
    // the terminal payload is in hand; exactly one extra reload is owed
    assert!(matches!(m, PollMachine::ExtraReload { .. }));
    m = m.step(PollEvent::ExtraDone);
    match m {
        PollMachine::Done(Ok(value)) => {
            assert!(value.get("scor").is_some());
        }
        other => panic!("expected the payload, got {:?}", other),
    }
}

#[test]
fn poller_times_out_after_its_whole_budget() {
    let mut m = PollMachine::start();
    for i in 0..POLL_TRIES {
        assert!(
            matches!(m, PollMachine::Query { .. }),
            "still querying at attempt {}",
            i
        );
        m = m.step(pending_reply());
    }
    assert_eq!(m, PollMachine::Done(Err(GetScoreError::TimeoutError)));
}

#[test]
fn poller_propagates_transport_failure() {
    let m = PollMachine::start().step(PollEvent::Failed {
        err: "boom".to_string(),
    });
    assert!(matches!(
        m,
        PollMachine::Done(Err(GetScoreError::GenericError { .. }))
    ));
}

#[test]
fn top_score_perfect_list() {
    let mut m = TopScoreMachine::start();
    m = m.step(TopScoreEvent::ExistsReply { ok: true });
    m = m.step(TopScoreEvent::ListReply {
        text: "{\"numar_total_solutii\":2}".to_string(),
    });
    assert_eq!(m, TopScoreMachine::FetchScores { failures: 0, count: 2 });
    m = m.step(TopScoreEvent::ListReply {
        text: "{\"surse\":[{\"scor\":\"100\"},{\"scor\":\"40\"}]}".to_string(),
    });
    assert_eq!(
        m,
        TopScoreMachine::Done(TopSolutionResponseType::PerfectSolution)
    );
}

#[test]
fn top_score_imperfect_list() {
    let mut m = TopScoreMachine::start();
    m = m.step(TopScoreEvent::ExistsReply { ok: true });
    m = m.step(TopScoreEvent::ListReply {
        text: "{\"numar_total_solutii\":2}".to_string(),
    });
    m = m.step(TopScoreEvent::ListReply {
        text: "{\"surse\":[{\"scor\":\"40\"},{\"scor\":\"60\"}]}".to_string(),
    });
    assert_eq!(
        m,
        TopScoreMachine::Done(TopSolutionResponseType::ImperfectSolution)
    );
}

#[test]
fn top_score_empty_list_is_no_solution() {
    let mut m = TopScoreMachine::start();
    m = m.step(TopScoreEvent::ExistsReply { ok: true });
    m = m.step(TopScoreEvent::ListReply {
        text: "{\"numar_total_solutii\":0}".to_string(),
    });
    assert_eq!(m, TopScoreMachine::Done(TopSolutionResponseType::NoSolution));
}

#[test]
fn top_score_missing_problem_short_circuits() {
    let m = TopScoreMachine::start().step(TopScoreEvent::ExistsReply { ok: false });
    assert_eq!(
        m,
        TopScoreMachine::Done(TopSolutionResponseType::ProblemNotFound)
    );
}

#[test]
fn top_score_retries_three_times_then_fails() {
    let mut m = TopScoreMachine::start();
    for i in 0..3u8 {
        m = m.step(TopScoreEvent::Failed {
            err: "down".to_string(),
        });
        assert_eq!(m, TopScoreMachine::CheckExists { failures: i + 1 });
    }
    m = m.step(TopScoreEvent::Failed {
        err: "down".to_string(),
    });
    assert!(matches!(
        m,
        TopScoreMachine::Done(TopSolutionResponseType::PageError(_))
    ));
}

#[test]
fn top_score_bad_count_is_page_error() {
    let mut m = TopScoreMachine::start();
    m = m.step(TopScoreEvent::ExistsReply { ok: true });
    m = m.step(TopScoreEvent::ListReply {
        text: "{\"numar_total_solutii\":\"two\"}".to_string(),
    });
    assert!(matches!(
        m,
        TopScoreMachine::Done(TopSolutionResponseType::PageError(_))
    ));
}

#[test]
fn top_score_surse_not_array_is_page_error() {
    let mut m = TopScoreMachine::start();
    m = m.step(TopScoreEvent::ExistsReply { ok: true });
    m = m.step(TopScoreEvent::ListReply {
        text: "{\"numar_total_solutii\":1}".to_string(),
    });
    m = m.step(TopScoreEvent::ListReply {
        text: "{\"surse\":7}".to_string(),
    });
    assert!(matches!(
        m,
        TopScoreMachine::Done(TopSolutionResponseType::PageError(_))
    ));
}

#[test]
fn classify_scores_directly() {
    assert_eq!(
        classify_scores(&vec![100, 40]),
        TopSolutionResponseType::PerfectSolution
    );
    assert_eq!(
        classify_scores(&vec![40, 60]),
        TopSolutionResponseType::ImperfectSolution
    );
}

#[test]
fn solve_flow_retries_cooldowns_unconditionally() {
    let mut m = SolveMachine::start("123".to_string());
    m.step(Err(UploadError::CooldownError));
    assert_eq!(m.phase, SolvePhase::Upload);
    m.step(Err(UploadError::CooldownError));
    assert_eq!(m.phase, SolvePhase::Upload);
    m.step(Ok("555".to_string()));
    assert_eq!(m.phase, SolvePhase::Done(Ok("555".to_string())));
}

#[test]
fn solve_flow_propagates_other_errors() {
    let mut m = SolveMachine::start("123".to_string());
    m.step(Err(UploadError::NotLoggedInError));
    assert_eq!(
        m.phase,
        SolvePhase::Done(Err(SolveError::UploadError {
            problem_id: "123".to_string(),
            err: UploadError::NotLoggedInError,
        }))
    );
}

#[test]
fn retry_flow_relogs_once_after_cooldown_then_only_waits() {
    let mut m = SolveRetryMachine::start();
    let cooldown = || {
        Err(SolveError::UploadError {
            problem_id: "1".to_string(),
            err: UploadError::CooldownError,
        })
    };
    m.solve_done(cooldown());
    assert_eq!(m.phase, RetryPhase::FreshLogin { after_cooldown: true });
    m.login_done(Ok(()));
    assert_eq!(m.phase, RetryPhase::Solve);
    m.solve_done(cooldown());
    assert_eq!(m.phase, RetryPhase::LongWait);
    m.waited();
    assert_eq!(m.phase, RetryPhase::Solve);
}

#[test]
fn retry_flow_not_logged_in_gets_one_retry() {
    let mut m = SolveRetryMachine::start();
    let not_logged_in = || {
        Err(SolveError::UploadError {
            problem_id: "1".to_string(),
            err: UploadError::NotLoggedInError,
        })
    };
    m.solve_done(not_logged_in());
    assert_eq!(m.phase, RetryPhase::FreshLogin { after_cooldown: false });
    m.login_done(Ok(()));
    assert_eq!(m.phase, RetryPhase::Solve);
    m.solve_done(not_logged_in());
    assert!(matches!(m.phase, RetryPhase::Done(Err(_))));
}

#[test]
fn retry_flow_happy_path_records_fresh_status() {
    let mut m = SolveRetryMachine::start();
    m.solve_done(Ok("555".to_string()));
    assert_eq!(
        m.phase,
        RetryPhase::Poll {
            sol_id: "555".to_string()
        }
    );
    let payload = pbinfo_cli::json::parse_json("{\"scor\":\"100\"}").unwrap();
    m.poll_done(Ok(payload));
    assert_eq!(m.phase, RetryPhase::TopScore);
    m.top_score_done(TopSolutionResponseType::PerfectSolution);
    assert_eq!(
        m.phase,
        RetryPhase::Done(Ok(TopSolutionResponseType::PerfectSolution))
    );
}

#[test]
fn scan_skips_final_statuses_only() {
    assert!(!needs_rescan(Some(&TopSolutionResponseType::PerfectSolution)));
    assert!(!needs_rescan(Some(&TopSolutionResponseType::ProblemNotFound)));
    assert!(needs_rescan(Some(&TopSolutionResponseType::NoSolution)));
    assert!(needs_rescan(Some(&TopSolutionResponseType::ImperfectSolution)));
    assert!(needs_rescan(Some(&TopSolutionResponseType::PageError(
        "x".to_string()
    ))));
    assert!(needs_rescan(None));
}

#[test]
fn scan_aborts_after_exactly_the_ceiling_and_not_before() {
    let mut m = ScanMachine::new(1, 100, 3, true).unwrap();
    for k in 1..3u32 {
        let rec = m.examined(TopSolutionResponseType::PageError("down".to_string()));
        assert_eq!(rec, None);
        assert_eq!(m.phase, ScanPhase::Examine, "still scanning after {} errors", k);
        assert_eq!(m.consecutive_failures, k);
    }
    let rec = m.examined(TopSolutionResponseType::PageError("down".to_string()));
    assert_eq!(rec, None);
    assert_eq!(m.phase, ScanPhase::Aborted);
    assert_eq!(m.consecutive_failures, 3);
}

#[test]
fn scan_counter_resets_on_non_page_error() {
    let mut m = ScanMachine::new(1, 100, 3, true).unwrap();
    m.examined(TopSolutionResponseType::PageError("down".to_string()));
    m.examined(TopSolutionResponseType::PageError("down".to_string()));
    assert_eq!(m.consecutive_failures, 2);
    let rec = m.examined(TopSolutionResponseType::PerfectSolution);
    assert_eq!(rec, Some(TopSolutionResponseType::PerfectSolution));
    assert_eq!(m.consecutive_failures, 0);
    m.examined(TopSolutionResponseType::PageError("down".to_string()));
    m.examined(TopSolutionResponseType::PageError("down".to_string()));
    assert_eq!(m.phase, ScanPhase::Examine);
}

#[test]
fn scan_dry_run_records_short_scores_without_solving() {
    let mut m = ScanMachine::new(5, 6, 3, true).unwrap();
    let rec = m.examined(TopSolutionResponseType::ImperfectSolution);
    assert_eq!(rec, Some(TopSolutionResponseType::ImperfectSolution));
    assert_eq!(m.phase, ScanPhase::Examine);
    assert_eq!(m.next_id, 6);
}

#[test]
fn scan_solves_short_scores_outside_dry_runs() {
    let mut m = ScanMachine::new(5, 6, 3, false).unwrap();
    let rec = m.examined(TopSolutionResponseType::NoSolution);
    assert_eq!(rec, None);
    assert_eq!(m.phase, ScanPhase::Solving);
    let rec = m.solved(Ok(TopSolutionResponseType::PerfectSolution));
    assert_eq!(rec, Some(TopSolutionResponseType::PerfectSolution));
    assert_eq!(m.phase, ScanPhase::Examine);
    assert_eq!(m.next_id, 6);
    let rec = m.examined(TopSolutionResponseType::ProblemNotFound);
    assert_eq!(rec, Some(TopSolutionResponseType::ProblemNotFound));
    assert_eq!(m.phase, ScanPhase::Finished);
}

#[test]
fn scan_skip_walks_the_range() {
    let mut m = ScanMachine::new(1, 3, 3, true).unwrap();
    m.skip();
    assert_eq!((m.next_id, m.phase), (2, ScanPhase::Examine));
    m.skip();
    m.skip();
    assert_eq!(m.phase, ScanPhase::Finished);
}

#[test]
fn scan_rejects_bad_configuration() {
    assert!(ScanMachine::new(10, 5, 3, true).is_none());
    assert!(ScanMachine::new(1, 5, 0, true).is_none());
}

#[test]
fn scan_flushes_every_tenth_id() {
    assert!(should_flush(10));
    assert!(should_flush(0));
    assert!(!should_flush(11));
}

use pbinfo_cli::solution::{UploadAttempt, UploadFlowError, UploadFlowMachine, UploadFlowPhase};

#[test]
fn legacy_upload_flow_relogs_once_then_succeeds() {
    let mut m = UploadFlowMachine::start();
    m.attempted(UploadAttempt::Sent {
        reply: "{\"stare\":\"fail\",\"raspuns\":\"Lipsa autentificare\"}".to_string(),
    });
    assert_eq!(m.phase, UploadFlowPhase::Login);
    m.logged_in(Ok(()));
    assert_eq!(m.phase, UploadFlowPhase::Attempt { after_login: true });
    m.attempted(UploadAttempt::Sent {
        reply: "{\"stare\":\"success\",\"id_solutie\":31}".to_string(),
    });
    assert_eq!(m.phase, UploadFlowPhase::Done(Ok("31".to_string())));
}

#[test]
fn legacy_upload_flow_second_rejection_is_fatal() {
    let mut m = UploadFlowMachine::start();
    let rejected = || UploadAttempt::Sent {
        reply: "{\"stare\":\"fail\",\"raspuns\":\"Lipsa autentificare\"}".to_string(),
    };
    m.attempted(rejected());
    m.logged_in(Ok(()));
    m.attempted(rejected());
    assert_eq!(
        m.phase,
        UploadFlowPhase::Done(Err(UploadFlowError::NotLoggedIn))
    );
}

#[test]
fn legacy_upload_flow_garbage_reply_is_fatal() {
    let mut m = UploadFlowMachine::start();
    m.attempted(UploadAttempt::Sent {
        reply: "<html>".to_string(),
    });
    assert_eq!(
        m.phase,
        UploadFlowPhase::Done(Err(UploadFlowError::InvalidResponse {
            response: "<html>".to_string()
        }))
    );
}
