//! The older reply readers of the single-submission path: the same
//! payloads as the newer modules, with a smaller error vocabulary.

use vstd::prelude::*;

use crate::api::score::spec_still_executing;
use crate::api::upload::{spec_reply_class, spec_solution_id, reply_class, ReplyClass};
use crate::display::{read_tests, spec_compile_message, spec_test_matches, spec_tests_valid, wf_report, ScoreReport};
use crate::json::{parse_json, parsed_json, scalar_text, spec_get, JsonValue};
use crate::text::{chars_of, slice_chars, string_from_chars};

verus! {

/// What can make a score payload unreadable here.
#[derive(Debug, PartialEq, Eq)]
pub enum ParseError {
    JsonInit,
    InvalidTests,
    NoTests,
    StillExecuting,
}

/// The older upload-reply verdicts: everything but a missing login is
/// lumped together.
#[derive(Debug, PartialEq, Eq)]
pub enum ResponseType {
    UnknownUploadError,
    ParseError,
    LipsaAuth,
}

/// The text between a leading and a trailing `"`, when both are there.
pub fn try_remove_sorrounding_quotes(input: String) -> (r: Option<String>)
    ensures
        r is Some <==> (input@.len() >= 2 && input@[0] == '"' && input@.last() == '"'),
        r matches Some(s) ==> s@ == input@.subrange(1, input@.len() - 1),
{
    let chars = chars_of(input.as_str());
    if chars.len() >= 2 && chars[0] == '"' && chars[chars.len() - 1] == '"' {
        let inner = slice_chars(&chars, 1, chars.len() - 1);
        Some(string_from_chars(&inner))
    } else {
        None
    }
}

/// Reads a terminal score payload into a report.
///
/// Unparseable text, a still-running payload, a missing test array and
/// an unreadable test each fail with their own error; otherwise every
/// listed test is read, in order, with messages falling back to nothing.
pub fn parse_score(score: &str) -> (r: Result<ScoreReport, ParseError>)
    ensures
        match parsed_json(score@) {
            None => r == Err::<ScoreReport, ParseError>(ParseError::JsonInit),
            Some(doc) => {
                if spec_still_executing(doc) {
                    r == Err::<ScoreReport, ParseError>(ParseError::StillExecuting)
                } else {
                    match spec_get(doc, "teste"@) {
                        Some(JsonValue::Arr(items)) => {
                            if spec_tests_valid(items@) {
                                r matches Ok(rep) && wf_report(rep) && rep.compile_message@
                                    == spec_compile_message(doc) && rep.tests@.len()
                                    == items@.len() && (forall|i: int|
                                    0 <= i < items@.len() ==> spec_test_matches(
                                        items@[i],
                                        #[trigger] rep.tests@[i],
                                        false,
                                    ))
                            } else {
                                r == Err::<ScoreReport, ParseError>(ParseError::InvalidTests)
                            }
                        },
                        _ => r == Err::<ScoreReport, ParseError>(ParseError::NoTests),
                    }
                }
            },
        },
{
    let doc = match parse_json(score) {
        Ok(d) => d,
        Err(_) => {
            return Err(ParseError::JsonInit);
        },
    };
    if crate::api::score::still_executing(&doc) {
        return Err(ParseError::StillExecuting);
    }
    let compile_message = match doc.get("mesaj_compilare_brut") {
        Some(v) => match v.as_str() {
            Some(s) => s.clone(),
            None => String::new(),
        },
        None => String::new(),
    };
    let items = match doc.get("teste") {
        Some(v) => match v.as_array() {
            Some(items) => items,
            None => {
                return Err(ParseError::NoTests);
            },
        },
        None => {
            return Err(ParseError::NoTests);
        },
    };
    match read_tests(items, false) {
        Ok(tests) => Ok(ScoreReport { compile_message, tests }),
        Err(_) => Err(ParseError::InvalidTests),
    }
}

/// Turns an upload reply into the new solution's id, with the older,
/// coarser error vocabulary: only the missing login is kept apart.
pub fn parse_response(response: &String) -> (r: Result<String, ResponseType>)
    ensures
        ({
            let p = parsed_json(response@);
            match spec_reply_class(p) {
                ReplyClass::NotJson => r == Err::<String, ResponseType>(ResponseType::ParseError),
                ReplyClass::Success => r matches Ok(id) && id@ == spec_solution_id(p.unwrap()),
                ReplyClass::NotLoggedIn => r == Err::<String, ResponseType>(
                    ResponseType::LipsaAuth,
                ),
                _ => r == Err::<String, ResponseType>(ResponseType::UnknownUploadError),
            }
        }),
{
    let doc = match parse_json(response.as_str()) {
        Ok(d) => d,
        Err(_) => {
            return Err(ResponseType::ParseError);
        },
    };
    match reply_class(&doc) {
        ReplyClass::Success => {
            let id = match doc.get("id_solutie") {
                Some(v) => scalar_text(v),
                None => String::from_str("null"),
            };
            Ok(id)
        },
        ReplyClass::NotLoggedIn => Err(ResponseType::LipsaAuth),
        _ => Err(ResponseType::UnknownUploadError),
    }
}

} // verus!
