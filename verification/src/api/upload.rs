//! Uploading a solution: extracting the per-page upload token and
//! classifying the service's reply.
//!
//! The upload form keys the source code by a token hidden in the problem
//! page's HTML, and answers with JSON whose failure modes arrive as
//! free-text Romanian strings. Both the token extraction and the mapping
//! of those strings to a closed set of errors are verified here; the HTTP
//! calls themselves stay with the caller.

use vstd::prelude::*;

use crate::json::{parse_json, parsed_json, scalar_text, spec_get, spec_is_str, is_str, JsonValue};
use crate::text::{
    chars_of, find_seq, first_seq_at, last_at, lemma_first_seq_at, lemma_last_at, slice_chars,
    spec_decimal, string_from_chars, fmt_u64,
};

verus! {

/// What can go wrong between the upload reply and a solution id.
#[derive(Debug, PartialEq, Eq)]
pub enum ResponseIdError {
    UnknownUploadError { response: String },
    ParseError { json: String, err: String },
    NotLoggedInError,
    AlreadyEvaluationError,
    CooldownError,
}

/// What can go wrong during an upload, as the caller sees it.
#[derive(Debug, PartialEq, Eq)]
pub enum UploadError {
    UploadError { err: String },
    ResponseParseError { err: String },
    NotLoggedInError,
    BadStatusCodeError { status_code: String },
    CooldownError,
}

/// Failure of the token extraction: the marker is nowhere in the page,
/// which means a logged-out session or changed markup.
#[derive(Debug, PartialEq, Eq)]
pub enum GetEncodedSursaError {
    NotFoundEditorGetValue,
}

/// The marker that sits right after the hidden form-field token in the
/// problem page.
pub open spec fn upload_marker() -> Seq<char> {
    ".val(Editor.getValue())"@
}

/// The token hidden in a problem page: the characters strictly between
/// the last `#` (or the start) and the last `'` before the first marker.
/// `None` when the page holds no marker; empty when no quote precedes it.
pub open spec fn spec_encoded_sursa(page: Seq<char>) -> Option<Seq<char>> {
    let m = first_seq_at(page, upload_marker(), 0);
    if m > page.len() {
        None
    } else {
        let before = page.take(m);
        let q = last_at(before, '\'');
        if q < 0 {
            Some(Seq::<char>::empty())
        } else {
            let p = last_at(before.take(q), '#');
            Some(before.subrange(p + 1, q))
        }
    }
}

/// Pulls the per-page upload token out of a problem page.
///
/// The page embeds a line of the shape `$('#<token>').val(Editor.getValue());`;
/// the token must be re-extracted before every upload, since the service
/// mints a fresh one per page load.
pub fn get_encoded_sursa(body: &str) -> (r: Result<String, GetEncodedSursaError>)
    ensures
        match r {
            Ok(t) => spec_encoded_sursa(body@) == Some(t@),
            Err(e) => e == GetEncodedSursaError::NotFoundEditorGetValue && spec_encoded_sursa(
                body@,
            ) is None,
        },
{
    let chars = chars_of(body);
    let marker = chars_of(".val(Editor.getValue())");
    proof {
        reveal_strlit(".val(Editor.getValue())");
        lemma_first_seq_at(chars@, marker@, 0);
    }
    let m = match find_seq(&chars, &marker) {
        Some(m) => m,
        None => {
            return Err(GetEncodedSursaError::NotFoundEditorGetValue);
        },
    };
    let ghost before = chars@.take(m as int);
    proof {
        assert(first_seq_at(chars@, upload_marker(), 0) == m);
        lemma_last_at(before, '\'');
    }
    // scan backward from the marker for the quote that closes the token
    let mut j: usize = m;
    let mut q: usize = 0;
    let mut found = false;
    while j > 0 && !found
        invariant
            j <= m <= chars@.len(),
            before == chars@.take(m as int),
            !found ==> forall|k: int| j <= k < m ==> before[k] != '\'',
            found ==> j < m && before[j as int] == '\'' && q == j && forall|k: int|
                j < k < m ==> before[k] != '\'',
        decreases j,
    {
        j -= 1;
        if chars[j] == '\'' {
            found = true;
            q = j;
        }
    }
    if !found {
        proof {
            assert(last_at(before, '\'') == -1) by {
                if last_at(before, '\'') >= 0 {
                    assert(before[last_at(before, '\'')] == '\'');
                }
            }
        }
        return Ok(String::new());
    }
    proof {
        assert(last_at(before, '\'') == q) by {
            let l = last_at(before, '\'');
            if l > q {
                assert(before[l] != '\'');
            } else if l < q {
                assert(l < q < before.len());
            }
        }
    }
    // scan further back for the `#` that opens it
    let ghost head = before.take(q as int);
    proof {
        lemma_last_at(head, '#');
    }
    let mut j2: usize = q;
    let mut start: usize = 0;
    let mut found_hash = false;
    while j2 > 0 && !found_hash
        invariant
            j2 <= q <= chars@.len(),
            head == before.take(q as int),
            before == chars@.take(m as int),
            q < m <= chars@.len(),
            !found_hash ==> start == 0 && forall|k: int| j2 <= k < q ==> head[k] != '#',
            found_hash ==> j2 < q && head[j2 as int] == '#' && start == j2 + 1 && forall|k: int|
                j2 < k < q ==> head[k] != '#',
        decreases j2,
    {
        j2 -= 1;
        if chars[j2] == '#' {
            found_hash = true;
            start = j2 + 1;
        }
    }
    proof {
        if found_hash {
            assert(last_at(head, '#') == j2) by {
                let l = last_at(head, '#');
                if l > j2 {
                    assert(head[l] != '#');
                } else if l < j2 {
                    assert(l < j2 < head.len());
                }
            }
        } else {
            assert(last_at(head, '#') == -1) by {
                if last_at(head, '#') >= 0 {
                    assert(head[last_at(head, '#')] == '#');
                }
            }
            assert(start == 0);
        }
        assert(last_at(head, '#') + 1 == start);
    }
    let token = slice_chars(&chars, start, q);
    proof {
        assert(before.subrange(last_at(head, '#') + 1, q as int) =~= chars@.subrange(
            start as int,
            q as int,
        ));
    }
    Ok(string_from_chars(&token))
}

/// The shape of an upload reply, read off the parsed document the way the
/// service signals it: `stare` says success; otherwise the free-text
/// `raspuns` names one of the known failure modes.
#[derive(Debug, PartialEq, Eq, Structural, Clone, Copy)]
pub enum ReplyClass {
    NotJson,
    Success,
    NotLoggedIn,
    AlreadyEvaluating,
    Cooldown,
    Unknown,
}

/// Classifies a (possibly unparseable) upload reply.
pub open spec fn spec_reply_class(p: Option<JsonValue>) -> ReplyClass {
    match p {
        None => ReplyClass::NotJson,
        Some(doc) => {
            if spec_is_str(spec_get(doc, "stare"@), "success"@) {
                ReplyClass::Success
            } else if spec_is_str(spec_get(doc, "raspuns"@), "Lipsa autentificare"@) {
                ReplyClass::NotLoggedIn
            } else if spec_is_str(
                spec_get(doc, "raspuns"@),
                "Așteaptă evaluarea surselor deja trimise"@,
            ) {
                ReplyClass::AlreadyEvaluating
            } else if spec_is_str(
                spec_get(doc, "raspuns"@),
                "Mai așteaptă! Ai trimis prea multe surse într-un interval scurt de timp."@,
            ) {
                ReplyClass::Cooldown
            } else {
                ReplyClass::Unknown
            }
        },
    }
}

/// Classifies a parsed upload reply.
pub fn reply_class(doc: &JsonValue) -> (c: ReplyClass)
    ensures
        c == spec_reply_class(Some(*doc)),
{
    if is_str(doc.get("stare"), "success") {
        ReplyClass::Success
    } else if is_str(doc.get("raspuns"), "Lipsa autentificare") {
        ReplyClass::NotLoggedIn
    } else if is_str(doc.get("raspuns"), "Așteaptă evaluarea surselor deja trimise") {
        ReplyClass::AlreadyEvaluating
    } else if is_str(
        doc.get("raspuns"),
        "Mai așteaptă! Ai trimis prea multe surse într-un interval scurt de timp.",
    ) {
        ReplyClass::Cooldown
    } else {
        ReplyClass::Unknown
    }
}

/// The solution id a successful reply carries: the scalar text of its
/// `id_solutie` field, `null` when the field is missing.
pub open spec fn spec_solution_id(doc: JsonValue) -> Seq<char> {
    match spec_get(doc, "id_solutie"@) {
        Some(v) => crate::json::spec_scalar_text(v),
        None => "null"@,
    }
}

/// Turns an upload reply into the new solution's id.
///
/// Success is exactly a reply whose `stare` is `success`; the id is the
/// scalar text of `id_solutie`. Each known failure text maps to its own
/// error; anything else keeps the raw reply for diagnostics.
pub fn get_response_id(response: String) -> (r: Result<String, ResponseIdError>)
    ensures
        ({
            let p = parsed_json(response@);
            match spec_reply_class(p) {
                ReplyClass::NotJson => r matches Err(
                    ResponseIdError::ParseError { json, err: _ },
                ) && json@ == response@,
                ReplyClass::Success => r matches Ok(id) && id@ == spec_solution_id(
                    p.unwrap(),
                ),
                ReplyClass::NotLoggedIn => r == Err::<String, _>(
                    ResponseIdError::NotLoggedInError,
                ),
                ReplyClass::AlreadyEvaluating => r == Err::<String, _>(
                    ResponseIdError::AlreadyEvaluationError,
                ),
                ReplyClass::Cooldown => r == Err::<String, _>(ResponseIdError::CooldownError),
                ReplyClass::Unknown => r matches Err(
                    ResponseIdError::UnknownUploadError { response: raw },
                ) && raw@ == response@,
            }
        }),
{
    let doc = match parse_json(response.as_str()) {
        Ok(d) => d,
        Err(e) => {
            return Err(ResponseIdError::ParseError { json: response, err: e });
        },
    };
    match reply_class(&doc) {
        ReplyClass::Success => {
            let id = match doc.get("id_solutie") {
                Some(v) => scalar_text(v),
                None => String::from_str("null"),
            };
            Ok(id)
        },
        ReplyClass::NotLoggedIn => Err(ResponseIdError::NotLoggedInError),
        ReplyClass::AlreadyEvaluating => Err(ResponseIdError::AlreadyEvaluationError),
        ReplyClass::Cooldown => Err(ResponseIdError::CooldownError),
        _ => Err(ResponseIdError::UnknownUploadError { response }),
    }
}

/// Finishes an upload from what came back over the wire: the HTTP status
/// and the body. A non-200 status is its own error; otherwise the reply
/// decides, with the not-logged-in and cooldown cases kept apart so the
/// retry policy can see them.
pub fn complete_upload(status: u16, body: String) -> (r: Result<String, UploadError>)
    ensures
        status != 200 ==> (r matches Err(UploadError::BadStatusCodeError { status_code })
            && status_code@ == spec_decimal(status as nat)),
        status == 200 ==> ({
            let p = parsed_json(body@);
            match spec_reply_class(p) {
                ReplyClass::Success => r matches Ok(id) && id@ == spec_solution_id(p.unwrap()),
                ReplyClass::NotLoggedIn => r == Err::<String, _>(UploadError::NotLoggedInError),
                ReplyClass::Cooldown => r == Err::<String, _>(UploadError::CooldownError),
                _ => r matches Err(UploadError::ResponseParseError { err: _ }),
            }
        }),
{
    if status != 200 {
        let digits = fmt_u64(status as u64);
        return Err(UploadError::BadStatusCodeError { status_code: string_from_chars(&digits) });
    }
    match get_response_id(body) {
        Ok(id) => Ok(id),
        Err(ResponseIdError::NotLoggedInError) => Err(UploadError::NotLoggedInError),
        Err(ResponseIdError::CooldownError) => Err(UploadError::CooldownError),
        Err(ResponseIdError::ParseError { json: _, err }) => Err(
            UploadError::ResponseParseError { err },
        ),
        Err(ResponseIdError::AlreadyEvaluationError) => Err(
            UploadError::ResponseParseError {
                err: String::from_str(
                    "Error: Another solution is being evaulated!\nPlease wait for it to finish!",
                ),
            },
        ),
        Err(ResponseIdError::UnknownUploadError { response }) => Err(
            UploadError::ResponseParseError {
                err: String::from_str(
                    "Error: An unknown upload error happened!\nResponse from pbinfo was: ",
                ).concat(response.as_str()),
            },
        ),
    }
}

} // verus!
