//! Turning a terminal evaluation payload into a structured report.
//!
//! The payload lists one entry per test, each with its score, maximum,
//! memory use and message, all wrapped in JSON strings. Building the
//! report and deciding how each line is classed for rendering is
//! verified here; the colors and the printing stay with the caller.

use vstd::prelude::*;

use crate::api::score::{spec_still_executing, still_executing};
use crate::json::JsonValue;
use crate::json::{spec_get, spec_scalar_text, scalar_text};
use crate::text::{chars_of, parse_i64_chars, spec_i64_value, string_from_chars, valid_i64_text};

verus! {

/// What can make a payload unreadable as a report.
#[derive(Debug, PartialEq, Eq)]
pub enum DisplayError {
    ParseJsonError { json: String, err: String },
    InvalidTestFormattingError { teste_field: String },
    InvalidScoreFormat { invalid_test: String },
    StillExecutingError,
}

/// One test's outcome, as the payload reports it.
#[derive(Debug, PartialEq, Eq)]
pub struct TestOutcome {
    pub label: String,
    pub score: i64,
    pub max_score: i64,
    pub memory: String,
    pub message: String,
    pub is_example: bool,
}

/// A whole evaluation: the compiler's message and the ordered tests.
#[derive(Debug, PartialEq, Eq)]
pub struct ScoreReport {
    pub compile_message: String,
    pub tests: Vec<TestOutcome>,
}

/// A test never scores less than nothing nor more than its maximum.
pub open spec fn wf_test(t: TestOutcome) -> bool {
    0 <= t.score <= t.max_score
}

/// Every test of a report is well-formed.
pub open spec fn wf_report(r: ScoreReport) -> bool {
    forall|i: int| 0 <= i < r.tests@.len() ==> wf_test(#[trigger] r.tests@[i])
}

/// The characters of `s` with every `"` dropped.
pub open spec fn filter_quotes(s: Seq<char>) -> Seq<char>
    decreases s.len(),
{
    if s.len() == 0 {
        Seq::<char>::empty()
    } else if s.last() == '"' {
        filter_quotes(s.drop_last())
    } else {
        filter_quotes(s.drop_last()).push(s.last())
    }
}

/// An ASCII whitespace character.
pub open spec fn is_ascii_space(c: char) -> bool {
    c == ' ' || c == '\t' || c == '\n' || c == '\r'
}

/// `s` with its trailing ASCII whitespace dropped.
pub open spec fn spec_trim_end(s: Seq<char>) -> Seq<char>
    decreases s.len(),
{
    if s.len() == 0 {
        s
    } else if is_ascii_space(s.last()) {
        spec_trim_end(s.drop_last())
    } else {
        s
    }
}

/// The text a quoted field denotes: the string's characters with quotes
/// dropped, or `0` when the field is missing or not a string — the
/// reading the judge's payload format calls for.
pub open spec fn spec_quoted_field(v: Option<JsonValue>) -> Seq<char> {
    match v {
        Some(JsonValue::Str(s)) => filter_quotes(s@),
        _ => "0"@,
    }
}

/// The binding under `key` inside a test's `detalii` object.
pub open spec fn spec_detail(item: JsonValue, key: Seq<char>) -> Option<JsonValue> {
    match spec_get(item, "detalii"@) {
        Some(d) => spec_get(d, key),
        None => None,
    }
}

/// A test's message text: the string itself when it is one; otherwise
/// the field's scalar text, or nothing, depending on the caller's
/// fallback.
pub open spec fn spec_message_text(v: Option<JsonValue>, raw_fallback: bool) -> Seq<char> {
    match v {
        Some(JsonValue::Str(s)) => s@,
        Some(u) => if raw_fallback {
            spec_scalar_text(u)
        } else {
            Seq::<char>::empty()
        },
        None => if raw_fallback {
            "null"@
        } else {
            Seq::<char>::empty()
        },
    }
}

/// Whether one listed test can be read into a `TestOutcome`.
pub open spec fn spec_test_valid(item: JsonValue) -> bool {
    &&& valid_i64_text(spec_quoted_field(spec_detail(item, "scor"@)))
    &&& valid_i64_text(spec_quoted_field(spec_detail(item, "scor_maxim"@)))
    &&& (match spec_detail(item, "exemplu"@) {
        Some(v) => v.spec_as_int() is Some,
        None => false,
    })
    &&& 0 <= spec_i64_value(spec_quoted_field(spec_detail(item, "scor"@)))
    &&& spec_i64_value(spec_quoted_field(spec_detail(item, "scor"@))) <= spec_i64_value(
        spec_quoted_field(spec_detail(item, "scor_maxim"@)),
    )
}

/// Whether every listed test can be read.
pub open spec fn spec_tests_valid(items: Seq<JsonValue>) -> bool {
    forall|i: int| 0 <= i < items.len() ==> spec_test_valid(#[trigger] items[i])
}

/// How `t` reads the listed test `item`.
pub open spec fn spec_test_matches(item: JsonValue, t: TestOutcome, raw_fallback: bool) -> bool {
    &&& t.label@ == spec_quoted_field(spec_get(item, "eticheta"@))
    &&& t.score as int == spec_i64_value(spec_quoted_field(spec_detail(item, "scor"@)))
    &&& t.max_score as int == spec_i64_value(spec_quoted_field(spec_detail(item, "scor_maxim"@)))
    &&& t.memory@ == spec_quoted_field(spec_detail(item, "memorie"@))
    &&& t.message@ == spec_trim_end(spec_message_text(spec_detail(item, "mesaj"@), raw_fallback))
    &&& t.is_example == (match spec_detail(item, "exemplu"@) {
        Some(v) => v.spec_as_int() == Some(1i64),
        None => false,
    })
}

/// The compile message a payload carries: the string's characters, or
/// nothing when the field is missing or not a string.
pub open spec fn spec_compile_message(doc: JsonValue) -> Seq<char> {
    match spec_get(doc, "mesaj_compilare_brut"@) {
        Some(JsonValue::Str(s)) => s@,
        _ => Seq::<char>::empty(),
    }
}

/// The characters of `v` with every `"` dropped.
fn drop_quotes(v: &Vec<char>) -> (r: Vec<char>)
    ensures
        r@ == filter_quotes(v@),
{
    let mut r: Vec<char> = Vec::new();
    let mut i: usize = 0;
    while i < v.len()
        invariant
            i <= v@.len(),
            r@ == filter_quotes(v@.take(i as int)),
        decreases v@.len() - i,
    {
        proof {
            assert(v@.take(i + 1).drop_last() =~= v@.take(i as int));
        }
        if v[i] != '"' {
            r.push(v[i]);
        }
        i += 1;
    }
    proof {
        assert(v@.take(v@.len() as int) =~= v@);
    }
    r
}

/// Reads a quoted field: the string's characters without quotes, or `0`.
fn quoted_field(v: Option<&JsonValue>) -> (r: Vec<char>)
    ensures
        r@ == spec_quoted_field(
            match v {
                Some(u) => Some(*u),
                None => None,
            },
        ),
{
    match v {
        Some(u) => match u.as_str() {
            Some(s) => {
                let chars = chars_of(s.as_str());
                drop_quotes(&chars)
            },
            None => chars_of("0"),
        },
        None => chars_of("0"),
    }
}

/// Drops trailing ASCII whitespace.
fn trim_end_chars(v: &Vec<char>) -> (r: Vec<char>)
    ensures
        r@ == spec_trim_end(v@),
{
    let mut j: usize = v.len();
    proof {
        assert(v@.take(v@.len() as int) =~= v@);
    }
    while j > 0 && (v[j - 1] == ' ' || v[j - 1] == '\t' || v[j - 1] == '\n' || v[j - 1] == '\r')
        invariant
            j <= v@.len(),
            spec_trim_end(v@) == spec_trim_end(v@.take(j as int)),
        decreases j,
    {
        proof {
            assert(v@.take(j as int).drop_last() =~= v@.take(j - 1));
        }
        j -= 1;
    }
    proof {
        if j > 0 {
            assert(!is_ascii_space(v@.take(j as int).last()));
        }
        assert(spec_trim_end(v@.take(j as int)) == v@.take(j as int));
    }
    crate::text::slice_chars(v, 0, j)
}

/// Reads one listed test.
fn read_test(item: &JsonValue, raw_fallback: bool) -> (r: Result<TestOutcome, String>)
    ensures
        r is Ok <==> spec_test_valid(*item),
        r matches Ok(t) ==> spec_test_matches(*item, t, raw_fallback) && wf_test(t),
{
    let detalii = item.get("detalii");
    let scor_chars = quoted_field(
        match detalii {
            Some(d) => d.get("scor"),
            None => None,
        },
    );
    let score = match parse_i64_chars(&scor_chars) {
        Some(n) => n,
        None => {
            return Err(string_from_chars(&scor_chars));
        },
    };
    let max_chars = quoted_field(
        match detalii {
            Some(d) => d.get("scor_maxim"),
            None => None,
        },
    );
    let max_score = match parse_i64_chars(&max_chars) {
        Some(n) => n,
        None => {
            return Err(string_from_chars(&max_chars));
        },
    };
    let exemplu = match detalii {
        Some(d) => match d.get("exemplu") {
            Some(v) => v.as_int(),
            None => None,
        },
        None => None,
    };
    let exemplu = match exemplu {
        Some(n) => n,
        None => {
            return Err(String::from_str("exemplu"));
        },
    };
    if score < 0 || score > max_score {
        return Err(string_from_chars(&scor_chars));
    }
    let label_chars = quoted_field(item.get("eticheta"));
    let memory_chars = quoted_field(
        match detalii {
            Some(d) => d.get("memorie"),
            None => None,
        },
    );
    let mesaj = match detalii {
        Some(d) => d.get("mesaj"),
        None => None,
    };
    let message_chars = match mesaj {
        Some(v) => match v.as_str() {
            Some(s) => chars_of(s.as_str()),
            None => {
                if raw_fallback {
                    chars_of(scalar_text(v).as_str())
                } else {
                    Vec::new()
                }
            },
        },
        None => {
            if raw_fallback {
                chars_of("null")
            } else {
                Vec::new()
            }
        },
    };
    let trimmed = trim_end_chars(&message_chars);
    Ok(
        TestOutcome {
            label: string_from_chars(&label_chars),
            score,
            max_score,
            memory: string_from_chars(&memory_chars),
            message: string_from_chars(&trimmed),
            is_example: exemplu == 1,
        },
    )
}

/// Reads every listed test, or the first unreadable field's text.
pub(crate) fn read_tests(items: &Vec<JsonValue>, raw_fallback: bool) -> (r: Result<Vec<TestOutcome>, String>)
    ensures
        r is Ok <==> spec_tests_valid(items@),
        r matches Ok(ts) ==> ts@.len() == items@.len() && forall|i: int|
            0 <= i < items@.len() ==> spec_test_matches(
                items@[i],
                #[trigger] ts@[i],
                raw_fallback,
            ) && wf_test(ts@[i]),
{
    let mut ts: Vec<TestOutcome> = Vec::new();
    let mut i: usize = 0;
    while i < items.len()
        invariant
            i <= items@.len(),
            ts@.len() == i,
            forall|j: int| 0 <= j < i ==> spec_test_valid(#[trigger] items@[j]),
            forall|j: int| 0 <= j < i ==> spec_test_matches(
                items@[j],
                #[trigger] ts@[j],
                raw_fallback,
            ) && wf_test(ts@[j]),
        decreases items@.len() - i,
    {
        match read_test(&items[i], raw_fallback) {
            Ok(t) => {
                ts.push(t);
            },
            Err(e) => {
                proof {
                    assert(!spec_test_valid(items@[i as int]));
                }
                return Err(e);
            },
        }
        i += 1;
    }
    Ok(ts)
}

/// Whether a payload can be read into a report at all.
pub open spec fn spec_report_valid(doc: JsonValue) -> bool {
    &&& !spec_still_executing(doc)
    &&& spec_get(doc, "teste"@) matches Some(JsonValue::Arr(items)) && spec_tests_valid(items@)
}

/// Builds the report out of a terminal payload.
///
/// A still-running payload, a `teste` field that is not an array, and a
/// test with an unreadable or out-of-range score each fail with their
/// own error; otherwise every listed test is read, in order.
pub fn build_score_report(table: &JsonValue) -> (r: Result<ScoreReport, DisplayError>)
    ensures
        r is Ok <==> spec_report_valid(*table),
        r matches Ok(rep) ==> {
            &&& wf_report(rep)
            &&& rep.compile_message@ == spec_compile_message(*table)
            &&& (spec_get(*table, "teste"@) matches Some(JsonValue::Arr(items))
                && rep.tests@.len() == items@.len() && forall|i: int|
                0 <= i < items@.len() ==> spec_test_matches(
                    items@[i],
                    #[trigger] rep.tests@[i],
                    true,
                ))
        },
        r matches Err(e) ==> match e {
            DisplayError::StillExecutingError => spec_still_executing(*table),
            DisplayError::InvalidTestFormattingError { teste_field: _ } => !spec_still_executing(
                *table,
            ) && !(spec_get(*table, "teste"@) matches Some(u) && u is Arr),
            DisplayError::InvalidScoreFormat { invalid_test: _ } => !spec_still_executing(*table)
                && (spec_get(*table, "teste"@) matches Some(JsonValue::Arr(items))
                && !spec_tests_valid(items@)),
            _ => false,
        },
{
    if still_executing(table) {
        return Err(DisplayError::StillExecutingError);
    }
    let compile_message = match table.get("mesaj_compilare_brut") {
        Some(v) => match v.as_str() {
            Some(s) => s.clone(),
            None => String::new(),
        },
        None => String::new(),
    };
    let items = match table.get("teste") {
        Some(v) => match v.as_array() {
            Some(items) => items,
            None => {
                return Err(
                    DisplayError::InvalidTestFormattingError { teste_field: scalar_text(v) },
                );
            },
        },
        None => {
            return Err(
                DisplayError::InvalidTestFormattingError {
                    teste_field: String::from_str("null"),
                },
            );
        },
    };
    match read_tests(items, true) {
        Ok(tests) => Ok(ScoreReport { compile_message, tests }),
        Err(e) => Err(DisplayError::InvalidScoreFormat { invalid_test: e }),
    }
}

/// How a test's line is classed for rendering.
#[derive(Debug, PartialEq, Eq, Structural, Clone, Copy)]
pub enum TestClass {
    /// The full maximum was reached.
    Full,
    /// Nothing was scored.
    Zero,
    /// Something in between.
    Partial,
}

/// Classes one test's line: the full score, nothing, or in between.
pub fn test_class(t: &TestOutcome) -> (r: TestClass)
    ensures
        t.max_score <= t.score ==> r == TestClass::Full,
        t.max_score > t.score && t.score == 0 ==> r == TestClass::Zero,
        t.max_score > t.score && t.score != 0 ==> r == TestClass::Partial,
{
    if t.max_score <= t.score {
        TestClass::Full
    } else if t.score == 0 {
        TestClass::Zero
    } else {
        TestClass::Partial
    }
}

} // verus!
