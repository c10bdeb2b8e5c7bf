//! Login and session renewal.
//!
//! A session is a cookie (`SSID`) plus a form token, and the only way to
//! learn whether it is live is to ask the service. Renewal is a two-phase
//! protocol the service does not document: a login post either rotates
//! just the session id (and must then be repeated), or hands back a fresh
//! form token that a second post turns into a full session. The protocol
//! decisions are verified here as a state machine; the caller performs
//! each request the current phase asks for and feeds the outcome back in.

use vstd::prelude::*;

use crate::json::{parse_json, parsed_json, spec_get, JsonValue};
use crate::text::{chars_of, find_char, first_at, lemma_first_at, slice_chars, string_from_chars};

verus! {

/// Everything that can end a login attempt early, kept apart so the
/// caller can tell wrong credentials from transport trouble.
#[derive(Debug, PartialEq, Eq)]
pub enum LoginError {
    NoCookieError,
    HeaderParseError { err: String },
    CookieParseError { cookie: String, err: String },
    RequestSendError { url: String, err: String },
    RequestBuildError { err: String },
    ResponseParseError { err: String },
    JsonParseError { json: String, err: String },
}

/// The part of a `set-cookie` header before its first `;`.
pub open spec fn spec_cookie_segment(h: Seq<char>) -> Seq<char> {
    h.take(first_at(h, 0, ';'))
}

/// The session id a `set-cookie` header carries: the text strictly
/// between the first `=` of its first `;`-segment and the next `=` or the
/// segment's end. `None` when the segment has no `=`.
pub open spec fn spec_ssid_of_header(h: Seq<char>) -> Option<Seq<char>> {
    let seg = spec_cookie_segment(h);
    let e1 = first_at(seg, 0, '=');
    if e1 >= seg.len() {
        None
    } else {
        Some(seg.subrange(e1 + 1, first_at(seg, e1 + 1, '=')))
    }
}

/// Pulls the session id out of a `set-cookie` header.
pub fn try_get_ssid(header: &str) -> (r: Result<String, LoginError>)
    ensures
        match r {
            Ok(v) => spec_ssid_of_header(header@) == Some(v@),
            Err(e) => {
                &&& spec_ssid_of_header(header@) is None
                &&& e matches LoginError::CookieParseError { cookie, err: _ }
                &&& cookie@ == spec_cookie_segment(header@)
            },
        },
{
    let chars = chars_of(header);
    proof {
        lemma_first_at(chars@, 0, ';');
    }
    let seg_end = match find_char(&chars, 0, ';') {
        Some(i) => i,
        None => chars.len(),
    };
    proof {
        assert(seg_end == first_at(chars@, 0, ';'));
    }
    let ghost seg = chars@.take(seg_end as int);
    proof {
        lemma_first_at(seg, 0, '=');
    }
    let e1 = match find_char_within(&chars, 0, seg_end, '=') {
        Some(i) => i,
        None => {
            let cookie = slice_chars(&chars, 0, seg_end);
            return Err(
                LoginError::CookieParseError {
                    cookie: string_from_chars(&cookie),
                    err: String::from_str("Couldn't find anything after the '=' sign!"),
                },
            );
        },
    };
    proof {
        assert(e1 == first_at(seg, 0, '='));
        lemma_first_at(seg, e1 + 1, '=');
    }
    let e2 = match find_char_within(&chars, e1 + 1, seg_end, '=') {
        Some(i) => i,
        None => seg_end,
    };
    proof {
        assert(e2 == first_at(seg, e1 + 1, '='));
    }
    let value = slice_chars(&chars, e1 + 1, e2);
    proof {
        assert(chars@.subrange(e1 + 1, e2 as int) =~= seg.subrange(e1 + 1, e2 as int));
    }
    Ok(string_from_chars(&value))
}

/// The first `c` in `v` at or after `from` and strictly before `until`.
fn find_char_within(v: &Vec<char>, from: usize, until: usize, c: char) -> (r: Option<usize>)
    requires
        from <= until <= v@.len(),
    ensures
        ({
            let w = v@.take(until as int);
            match r {
                Some(i) => from <= i < until && w[i as int] == c && forall|j: int|
                    from <= j < i ==> w[j] != c,
                None => forall|j: int| from <= j < until ==> w[j] != c,
            }
        }),
{
    let mut i: usize = from;
    while i < until
        invariant
            from <= i <= until <= v@.len(),
            forall|j: int| from <= j < i ==> v@.take(until as int)[j] != c,
        decreases until - i,
    {
        if v[i] == c {
            return Some(i);
        }
        i += 1;
    }
    None
}

/// A well-formed `SSID` cookie line yields exactly the value between its
/// `=` and its first `;`, whatever attributes follow.
pub proof fn lemma_ssid_extraction(value: Seq<char>, attrs: Seq<char>)
    requires
        !value.contains(';'),
        !value.contains('='),
    ensures
        spec_ssid_of_header("SSID="@ + value + ";"@ + attrs) == Some(value),
{
    reveal_strlit("SSID=");
    reveal_strlit(";");
    let h = "SSID="@ + value + ";"@ + attrs;
    let semi = 5 + value.len() as int;
    assert(h[semi] == ';');
    assert forall|j: int| 0 <= j < semi implies h[j] != ';' by {
        if j < 5 {
            assert(h[j] == "SSID="@[j]);
        } else {
            assert(h[j] == value[j - 5]);
            assert(value.contains(h[j])) by {
                assert(value[j - 5] == h[j]);
            }
        }
    }
    lemma_first_at(h, 0, ';');
    let f = first_at(h, 0, ';');
    assert(f == semi) by {
        if f < semi {
            assert(h[f] != ';');
        } else if f > semi {
            assert(h[semi] != ';');
        }
    }
    let seg = spec_cookie_segment(h);
    assert(seg =~= "SSID="@ + value);
    assert(seg[4] == '=');
    assert forall|j: int| 0 <= j < 4 implies seg[j] != '=' by {
        assert(seg[j] == "SSID="@[j]);
    }
    lemma_first_at(seg, 0, '=');
    let e1 = first_at(seg, 0, '=');
    assert(e1 == 4) by {
        if e1 < 4 {
            assert(seg[e1] != '=');
        } else if e1 > 4 {
            assert(seg[4] != '=');
        }
    }
    assert forall|j: int| 5 <= j < seg.len() implies seg[j] != '=' by {
        assert(seg[j] == value[j - 5]);
        assert(value.contains(seg[j])) by {
            assert(value[j - 5] == seg[j]);
        }
    }
    lemma_first_at(seg, 5, '=');
    let e2 = first_at(seg, 5, '=');
    assert(e2 == seg.len()) by {
        if e2 < seg.len() {
            assert(seg[e2] != '=');
        }
    }
    assert(seg.subrange(5, seg.len() as int) =~= value);
}

/// A header whose first `;`-segment has no `=` never yields a session
/// id: extraction fails with the cookie-parse error kind.
pub proof fn lemma_ssid_extraction_no_eq(h: Seq<char>)
    requires
        !spec_cookie_segment(h).contains('='),
    ensures
        spec_ssid_of_header(h) is None,
{
    let seg = spec_cookie_segment(h);
    lemma_first_at(seg, 0, '=');
    if first_at(seg, 0, '=') < seg.len() {
        assert(seg[first_at(seg, 0, '=')] == '=');
        assert(seg.contains(seg[first_at(seg, 0, '=')]));
    }
}

/// Reads the liveness probe: an empty body means "not logged in", a JSON
/// body means "logged in" exactly when it carries `conversatii`, and a
/// non-JSON body is an error rather than a verdict.
pub fn probe_is_logged_in(body: &str) -> (r: Result<bool, LoginError>)
    ensures
        body@.len() == 0 ==> r == Ok::<bool, LoginError>(false),
        body@.len() > 0 ==> match parsed_json(body@) {
            None => {
                &&& r matches Err(LoginError::JsonParseError { json, err: _ })
                &&& json@ == body@
            },
            Some(doc) => r == Ok::<bool, LoginError>(spec_get(doc, "conversatii"@) is Some),
        },
{
    if body.is_empty() {
        return Ok(false);
    }
    let doc = match parse_json(body) {
        Ok(d) => d,
        Err(e) => {
            return Err(LoginError::JsonParseError { json: body.to_owned(), err: e });
        },
    };
    match doc.get("conversatii") {
        Some(_) => Ok(true),
        None => Ok(false),
    }
}

/// Reads the refreshed form token out of a login reply body: the reply
/// must be JSON whose `form_token` is a string; anything else counts as
/// an unparseable reply.
pub fn refresh_form_token(body: &str) -> (r: Result<String, LoginError>)
    ensures
        match parsed_json(body@) {
            Some(doc) => match spec_get(doc, "form_token"@) {
                Some(v) => {
                    if v is Str {
                        r matches Ok(t) && Some(t@) == v.spec_as_str()
                    } else {
                        r matches Err(LoginError::JsonParseError { json, err: _ }) && json@
                            == body@
                    }
                },
                None => {
                    &&& r matches Err(LoginError::JsonParseError { json, err: _ })
                    &&& json@ == body@
                },
            },
            None => {
                &&& r matches Err(LoginError::JsonParseError { json, err: _ })
                &&& json@ == body@
            },
        },
{
    let doc = match parse_json(body) {
        Ok(d) => d,
        Err(e) => {
            return Err(LoginError::JsonParseError { json: body.to_owned(), err: e });
        },
    };
    match doc.get("form_token") {
        Some(v) => match v.as_str() {
            Some(s) => Ok(s.clone()),
            None => Err(
                LoginError::JsonParseError {
                    json: body.to_owned(),
                    err: String::from_str("form_token was not a string"),
                },
            ),
        },
        None => Err(
            LoginError::JsonParseError {
                json: body.to_owned(),
                err: String::from_str("form_token was missing"),
            },
        ),
    }
}

/// The `set-cookie` header of a login reply, as the caller saw it.
#[derive(Debug, PartialEq, Eq)]
pub enum CookieHeader {
    Missing,
    Unreadable { err: String },
    Value { header: String },
}

/// What came back from the request the current phase asked for.
#[derive(Debug, PartialEq, Eq)]
pub enum SessionEvent {
    ProbeOutcome { body: Option<String> },
    PostOutcome { cookie: CookieHeader, reply: Result<String, String> },
    PostFailed { url: String, err: String },
}

/// The request the protocol owes next, or its outcome.
#[derive(Debug, PartialEq, Eq)]
pub enum SessionPhase {
    /// Ask the liveness probe whether the current session is live.
    Probe,
    /// Post the credentials with the current form token.
    FirstPost { second_round: bool },
    /// Post the credentials again with the token the reply refreshed.
    SecondPost { second_round: bool },
    /// The protocol ended, with a usable session or a terminal error.
    Done(Result<(), LoginError>),
}

/// The login and renewal protocol as a state machine.
///
/// The caller owns the session exclusively: it performs the request the
/// phase names, using `ssid` and `form_token` as they stand, and feeds
/// the outcome to `step`. The machine mutates the session fields exactly
/// as the protocol dictates.
#[derive(Debug, PartialEq, Eq)]
pub struct SessionMachine {
    pub ssid: String,
    pub form_token: String,
    pub phase: SessionPhase,
}

/// How the protocol reads the liveness probe: any probe failure, an
/// empty body and a body without `conversatii` all mean "renew".
pub open spec fn spec_probe_logged_in(body: Option<String>) -> bool {
    match body {
        None => false,
        Some(b) => b@.len() > 0 && (match parsed_json(b@) {
            Some(doc) => spec_get(doc, "conversatii"@) is Some,
            None => false,
        }),
    }
}

/// The session id a login reply's cookie carries, if any: a missing or
/// unreadable header, like one without `=`, carries none.
pub open spec fn spec_cookie_ssid(cookie: CookieHeader) -> Option<Seq<char>> {
    match cookie {
        CookieHeader::Value { header } => spec_ssid_of_header(header@),
        _ => None,
    }
}

/// Which events a phase can answer.
pub open spec fn event_fits(phase: SessionPhase, ev: SessionEvent) -> bool {
    match phase {
        SessionPhase::Probe => ev is ProbeOutcome,
        SessionPhase::FirstPost { .. } => ev is PostOutcome || ev is PostFailed,
        SessionPhase::SecondPost { .. } => ev is PostOutcome || ev is PostFailed,
        SessionPhase::Done(_) => false,
    }
}

/// The machine left the session untouched.
pub open spec fn session_kept(pre: SessionMachine, post: SessionMachine) -> bool {
    post.ssid == pre.ssid && post.form_token == pre.form_token
}

/// The whole renewal protocol, one transition at a time: what `step`
/// does to the session and the phase for every phase and event.
pub open spec fn spec_step_rel(pre: SessionMachine, ev: SessionEvent, post: SessionMachine) -> bool {
    match pre.phase {
        SessionPhase::Probe => ev matches SessionEvent::ProbeOutcome { body } && {
            if spec_probe_logged_in(body) {
                session_kept(pre, post) && post.phase == SessionPhase::Done(Ok(()))
            } else {
                session_kept(pre, post) && post.phase == (SessionPhase::FirstPost {
                    second_round: false,
                })
            }
        },
        SessionPhase::FirstPost { second_round } => match ev {
            SessionEvent::PostFailed { url, err } => session_kept(pre, post) && post.phase
                == SessionPhase::Done(Err(LoginError::RequestSendError { url, err })),
            SessionEvent::PostOutcome { cookie, reply } => match spec_cookie_ssid(cookie) {
                Some(new_ssid) => {
                    &&& post.ssid@ == new_ssid
                    &&& post.form_token == pre.form_token
                    &&& post.phase == if second_round {
                        SessionPhase::Done(Ok(()))
                    } else {
                        (SessionPhase::FirstPost { second_round: true })
                    }
                },
                None => match reply {
                    Err(err) => session_kept(pre, post) && post.phase == SessionPhase::Done(
                        Err(LoginError::ResponseParseError { err }),
                    ),
                    Ok(text) => match parsed_json(text@) {
                        Some(doc) => match spec_get(doc, "form_token"@) {
                            Some(v) => {
                                if v is Str {
                                    &&& post.ssid == pre.ssid
                                    &&& Some(post.form_token@) == v.spec_as_str()
                                    &&& post.phase == (SessionPhase::SecondPost { second_round })
                                } else {
                                    failed_on_json(pre, post, text@)
                                }
                            },
                            None => failed_on_json(pre, post, text@),
                        },
                        None => failed_on_json(pre, post, text@),
                    },
                },
            },
            _ => false,
        },
        SessionPhase::SecondPost { second_round: _ } => match ev {
            SessionEvent::PostFailed { url, err } => session_kept(pre, post) && post.phase
                == SessionPhase::Done(Err(LoginError::RequestSendError { url, err })),
            SessionEvent::PostOutcome { cookie, reply: _ } => match cookie {
                CookieHeader::Missing => session_kept(pre, post) && post.phase
                    == SessionPhase::Done(Err(LoginError::NoCookieError)),
                CookieHeader::Unreadable { err } => session_kept(pre, post) && post.phase
                    == SessionPhase::Done(Err(LoginError::HeaderParseError { err })),
                CookieHeader::Value { header } => match spec_ssid_of_header(header@) {
                    Some(new_ssid) => {
                        &&& post.ssid@ == new_ssid
                        &&& post.form_token == pre.form_token
                        &&& post.phase == SessionPhase::Done(Ok(()))
                    },
                    None => {
                        &&& session_kept(pre, post)
                        &&& post.phase matches SessionPhase::Done(
                            Err(LoginError::CookieParseError { cookie: c, err: _ }),
                        ) && c@ == spec_cookie_segment(header@)
                    },
                },
            },
            _ => false,
        },
        SessionPhase::Done(_) => false,
    }
}

/// The transition for a reply whose JSON held no usable form token.
pub open spec fn failed_on_json(pre: SessionMachine, post: SessionMachine, body: Seq<char>) -> bool {
    &&& session_kept(pre, post)
    &&& post.phase matches SessionPhase::Done(Err(LoginError::JsonParseError { json, err: _ }))
        && json@ == body
}

/// How many events the protocol can still consume before it must be
/// done.
pub open spec fn spec_measure(phase: SessionPhase) -> nat {
    match phase {
        SessionPhase::Probe => 4,
        SessionPhase::FirstPost { second_round } => if second_round {
            2
        } else {
            3
        },
        SessionPhase::SecondPost { .. } => 1,
        SessionPhase::Done(_) => 0,
    }
}

impl SessionMachine {
    /// A login that first probes whether the session is already live.
    pub fn start(ssid: String, form_token: String) -> (m: SessionMachine)
        ensures
            m.ssid == ssid,
            m.form_token == form_token,
            m.phase == SessionPhase::Probe,
    {
        SessionMachine { ssid, form_token, phase: SessionPhase::Probe }
    }

    /// A forced fresh login, skipping the liveness probe.
    pub fn start_fresh(ssid: String, form_token: String) -> (m: SessionMachine)
        ensures
            m.ssid == ssid,
            m.form_token == form_token,
            m.phase == (SessionPhase::FirstPost { second_round: false }),
    {
        SessionMachine { ssid, form_token, phase: SessionPhase::FirstPost { second_round: false } }
    }

    /// Consumes the outcome of the request the current phase asked for
    /// and moves the protocol along, renewing the session fields exactly
    /// as the service's answer dictates.
    pub fn step(&mut self, ev: SessionEvent)
        requires
            !(old(self).phase is Done),
            event_fits(old(self).phase, ev),
        ensures
            spec_step_rel(*old(self), ev, *final(self)),
            spec_measure(final(self).phase) < spec_measure(old(self).phase),
    {
        let in_probe: bool;
        let in_first: bool;
        let round2: bool;
        match &self.phase {
            SessionPhase::Probe => {
                in_probe = true;
                in_first = false;
                round2 = false;
            },
            SessionPhase::FirstPost { second_round } => {
                in_probe = false;
                in_first = true;
                round2 = *second_round;
            },
            SessionPhase::SecondPost { second_round } => {
                in_probe = false;
                in_first = false;
                round2 = *second_round;
            },
            SessionPhase::Done(_) => {
                proof {
                    assert(false);
                }
                in_probe = false;
                in_first = false;
                round2 = false;
            },
        }
        if in_probe {
            match ev {
                SessionEvent::ProbeOutcome { body } => {
                    let logged = match &body {
                        Some(b) => match probe_is_logged_in(b.as_str()) {
                            Ok(v) => v,
                            Err(_) => false,
                        },
                        None => false,
                    };
                    if logged {
                        self.phase = SessionPhase::Done(Ok(()));
                    } else {
                        self.phase = SessionPhase::FirstPost { second_round: false };
                    }
                },
                _ => {
                    proof {
                        assert(false);
                    }
                },
            }
        } else if in_first {
            match ev {
                SessionEvent::PostFailed { url, err } => {
                    self.phase = SessionPhase::Done(Err(LoginError::RequestSendError { url, err }));
                },
                SessionEvent::PostOutcome { cookie, reply } => {
                    let renewed: Option<String> = match &cookie {
                        CookieHeader::Value { header } => match try_get_ssid(header.as_str()) {
                            Ok(s) => Some(s),
                            Err(_) => None,
                        },
                        _ => None,
                    };
                    match renewed {
                        Some(new_ssid) => {
                            self.ssid = new_ssid;
                            if round2 {
                                self.phase = SessionPhase::Done(Ok(()));
                            } else {
                                self.phase = SessionPhase::FirstPost { second_round: true };
                            }
                        },
                        None => match reply {
                            Err(err) => {
                                self.phase = SessionPhase::Done(
                                    Err(LoginError::ResponseParseError { err }),
                                );
                            },
                            Ok(text) => match refresh_form_token(text.as_str()) {
                                Ok(tok) => {
                                    self.form_token = tok;
                                    self.phase = SessionPhase::SecondPost { second_round: round2 };
                                },
                                Err(e) => {
                                    self.phase = SessionPhase::Done(Err(e));
                                },
                            },
                        },
                    }
                },
                _ => {
                    proof {
                        assert(false);
                    }
                },
            }
        } else {
            match ev {
                SessionEvent::PostFailed { url, err } => {
                    self.phase = SessionPhase::Done(Err(LoginError::RequestSendError { url, err }));
                },
                SessionEvent::PostOutcome { cookie, reply: _ } => match cookie {
                    CookieHeader::Missing => {
                        self.phase = SessionPhase::Done(Err(LoginError::NoCookieError));
                    },
                    CookieHeader::Unreadable { err } => {
                        self.phase = SessionPhase::Done(Err(LoginError::HeaderParseError { err }));
                    },
                    CookieHeader::Value { header } => match try_get_ssid(header.as_str()) {
                        Ok(new_ssid) => {
                            self.ssid = new_ssid;
                            self.phase = SessionPhase::Done(Ok(()));
                        },
                        Err(e) => {
                            self.phase = SessionPhase::Done(Err(e));
                        },
                    },
                },
                _ => {
                    proof {
                        assert(false);
                    }
                },
            }
        }
    }
}

/// An event that renews only the session id: the reply carried a usable
/// `set-cookie`, so the protocol never read the body.
pub open spec fn spec_session_only(ev: SessionEvent) -> bool {
    ev matches SessionEvent::PostOutcome { cookie, reply: _ } && spec_cookie_ssid(cookie) is Some
}

/// The renewal protocol cannot loop: every event strictly shrinks the
/// phase's budget, which starts at four at most, so a run reaches
/// `Done` — a usable session or a terminal error — within four events.
pub proof fn lemma_renewal_bounded(pre: SessionMachine, ev: SessionEvent, post: SessionMachine)
    requires
        spec_step_rel(pre, ev, post),
    ensures
        spec_measure(post.phase) < spec_measure(pre.phase),
        spec_measure(pre.phase) <= 4,
{
}

/// Repeated session-only renewals still converge: when the service
/// answers the credential post twice in a row with only a fresh session
/// cookie, the protocol accepts the session and finishes successfully
/// instead of posting again.
pub proof fn lemma_session_only_renewals(
    m0: SessionMachine,
    ev1: SessionEvent,
    m1: SessionMachine,
    ev2: SessionEvent,
    m2: SessionMachine,
)
    requires
        m0.phase == (SessionPhase::FirstPost { second_round: false }),
        spec_step_rel(m0, ev1, m1),
        spec_step_rel(m1, ev2, m2),
        spec_session_only(ev1),
        spec_session_only(ev2),
    ensures
        m2.phase == SessionPhase::Done(Ok(())),
{
}

} // verus!
