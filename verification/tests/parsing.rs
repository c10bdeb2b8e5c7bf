use pbinfo_cli::api::login::{probe_is_logged_in, refresh_form_token, try_get_ssid, LoginError};
use pbinfo_cli::api::score::{classify_score_reply, GetScoreError, ScoreStatus};
use pbinfo_cli::api::upload::{
    complete_upload, get_encoded_sursa, get_response_id, GetEncodedSursaError, ResponseIdError,
    UploadError,
};
use pbinfo_cli::display::{build_score_report, DisplayError, TestClass};
use pbinfo_cli::json::{parse_json, JsonValue};
use pbinfo_cli::parse::{
    parse_response, parse_score, try_remove_sorrounding_quotes, ParseError, ResponseType,
};
use pbinfo_cli::text::{chars_of, parse_i64_chars, string_from_chars};

#[test]
fn ssid_extracted_from_well_formed_header() {
    let r = try_get_ssid("SSID=abcdef123; Path=/; HttpOnly");
    assert_eq!(r.unwrap(), "abcdef123");
}

#[test]
fn ssid_without_attributes() {
    assert_eq!(try_get_ssid("SSID=xyz").unwrap(), "xyz");
}

#[test]
fn ssid_stops_at_second_equals() {
    assert_eq!(try_get_ssid("SSID=a=b; Path=/").unwrap(), "a");
}

#[test]
fn ssid_missing_equals_is_cookie_parse_error() {
    let r = try_get_ssid("SSIDnovalue; Path=/");
    match r {
        Err(LoginError::CookieParseError { cookie, err: _ }) => {
            assert_eq!(cookie, "SSIDnovalue");
        }
        other => panic!("expected CookieParseError, got {:?}", other),
    }
}

#[test]
fn empty_header_is_cookie_parse_error() {
    assert!(matches!(
        try_get_ssid(""),
        Err(LoginError::CookieParseError { .. })
    ));
}

#[test]
fn probe_empty_body_means_logged_out() {
    assert_eq!(probe_is_logged_in("").unwrap(), false);
}

#[test]
fn probe_with_conversatii_means_logged_in() {
    assert_eq!(probe_is_logged_in("{\"conversatii\":[]}").unwrap(), true);
}

#[test]
fn probe_without_conversatii_means_logged_out() {
    assert_eq!(probe_is_logged_in("{\"mesaje\":[]}").unwrap(), false);
}

#[test]
fn probe_with_garbage_is_an_error_not_a_verdict() {
    assert!(matches!(
        probe_is_logged_in("not json"),
        Err(LoginError::JsonParseError { .. })
    ));
}

#[test]
fn form_token_read_from_login_reply() {
    let r = refresh_form_token("{\"form_token\":\"tok42\"}");
    assert_eq!(r.unwrap(), "tok42");
}

#[test]
fn form_token_missing_is_an_error() {
    assert!(matches!(
        refresh_form_token("{\"status\":\"ok\"}"),
        Err(LoginError::JsonParseError { .. })
    ));
}

#[test]
fn token_extracted_from_fixture_page() {
    let page = "<html><script>$('#abc123').val(Editor.getValue());</script></html>";
    assert_eq!(get_encoded_sursa(page).unwrap(), "abc123");
}

#[test]
fn token_extracted_from_long_hex_id() {
    let page = "stuff before $('#eedd451d5e1eb7dfd9c6e3a0e918f02cc2a87d03').val(Editor.getValue()); stuff after";
    assert_eq!(
        get_encoded_sursa(page).unwrap(),
        "eedd451d5e1eb7dfd9c6e3a0e918f02cc2a87d03"
    );
}

#[test]
fn page_without_marker_fails_extraction() {
    let page = "<html>no editor here</html>";
    assert_eq!(
        get_encoded_sursa(page),
        Err(GetEncodedSursaError::NotFoundEditorGetValue)
    );
}

#[test]
fn upload_success_returns_id() {
    let r = get_response_id("{\"stare\":\"success\",\"id_solutie\":42}".to_string());
    assert_eq!(r.unwrap(), "42");
}

#[test]
fn upload_success_with_string_id() {
    let r = get_response_id("{\"stare\":\"success\",\"id_solutie\":\"77\"}".to_string());
    assert_eq!(r.unwrap(), "77");
}

#[test]
fn upload_missing_auth_is_not_logged_in() {
    let r = get_response_id("{\"stare\":\"fail\",\"raspuns\":\"Lipsa autentificare\"}".to_string());
    assert_eq!(r, Err(ResponseIdError::NotLoggedInError));
}

#[test]
fn upload_cooldown_message_is_cooldown() {
    let raspuns = "Mai așteaptă! Ai trimis prea multe surse într-un interval scurt de timp.";
    let reply = format!("{{\"stare\":\"fail\",\"raspuns\":\"{}\"}}", raspuns);
    assert_eq!(get_response_id(reply), Err(ResponseIdError::CooldownError));
}

#[test]
fn upload_already_evaluating_is_its_own_error() {
    let reply = "{\"stare\":\"fail\",\"raspuns\":\"Așteaptă evaluarea surselor deja trimise\"}";
    assert_eq!(
        get_response_id(reply.to_string()),
        Err(ResponseIdError::AlreadyEvaluationError)
    );
}

#[test]
fn upload_unknown_failure_keeps_raw_reply() {
    let reply = "{\"stare\":\"fail\",\"raspuns\":\"ceva nou\"}";
    match get_response_id(reply.to_string()) {
        Err(ResponseIdError::UnknownUploadError { response }) => assert_eq!(response, reply),
        other => panic!("expected UnknownUploadError, got {:?}", other),
    }
}

#[test]
fn upload_garbage_is_parse_error() {
    match get_response_id("<html>".to_string()) {
        Err(ResponseIdError::ParseError { json, err: _ }) => assert_eq!(json, "<html>"),
        other => panic!("expected ParseError, got {:?}", other),
    }
}

#[test]
fn complete_upload_rejects_bad_status() {
    match complete_upload(404, "{}".to_string()) {
        Err(UploadError::BadStatusCodeError { status_code }) => assert_eq!(status_code, "404"),
        other => panic!("expected BadStatusCodeError, got {:?}", other),
    }
}

#[test]
fn complete_upload_maps_not_logged_in() {
    let reply = "{\"stare\":\"fail\",\"raspuns\":\"Lipsa autentificare\"}".to_string();
    assert_eq!(complete_upload(200, reply), Err(UploadError::NotLoggedInError));
}

#[test]
fn complete_upload_maps_cooldown() {
    let raspuns = "Mai așteaptă! Ai trimis prea multe surse într-un interval scurt de timp.";
    let reply = format!("{{\"stare\":\"fail\",\"raspuns\":\"{}\"}}", raspuns);
    assert_eq!(complete_upload(200, reply), Err(UploadError::CooldownError));
}

#[test]
fn legacy_parse_response_keeps_auth_apart() {
    let reply = "{\"stare\":\"fail\",\"raspuns\":\"Lipsa autentificare\"}".to_string();
    assert_eq!(parse_response(&reply), Err(ResponseType::LipsaAuth));
    let other = "{\"stare\":\"fail\",\"raspuns\":\"altceva\"}".to_string();
    assert_eq!(parse_response(&other), Err(ResponseType::UnknownUploadError));
    let ok = "{\"stare\":\"success\",\"id_solutie\":9}".to_string();
    assert_eq!(parse_response(&ok).unwrap(), "9");
    assert_eq!(
        parse_response(&"nope".to_string()),
        Err(ResponseType::ParseError)
    );
}

#[test]
fn surrounding_quotes_removed() {
    assert_eq!(
        try_remove_sorrounding_quotes("\"abc\"".to_string()),
        Some("abc".to_string())
    );
    assert_eq!(try_remove_sorrounding_quotes("abc".to_string()), None);
    assert_eq!(try_remove_sorrounding_quotes("\"".to_string()), None);
    assert_eq!(
        try_remove_sorrounding_quotes("\"\"".to_string()),
        Some(String::new())
    );
}

#[test]
fn score_reply_still_executing() {
    let r = classify_score_reply("{\"status_sursa\":\"pending\"}".to_string());
    assert_eq!(r.unwrap(), ScoreStatus::StillExecuting);
    let r = classify_score_reply("{\"status_sursa\":\"executing\"}".to_string());
    assert_eq!(r.unwrap(), ScoreStatus::StillExecuting);
}

#[test]
fn score_reply_terminal_keeps_payload() {
    let r = classify_score_reply("{\"status_sursa\":\"done\",\"scor\":\"100\"}".to_string());
    match r.unwrap() {
        ScoreStatus::DoneExecuting { value } => {
            assert!(matches!(value.get("scor"), Some(JsonValue::Str(_))));
        }
        other => panic!("expected DoneExecuting, got {:?}", other),
    }
}

#[test]
fn score_reply_garbage_is_error() {
    assert!(matches!(
        classify_score_reply("zzz".to_string()),
        Err(GetScoreError::ParseJsonError { .. })
    ));
}

fn fixture_payload() -> String {
    let mut s = String::new();
    s.push_str("{\"status_sursa\":\"finalizat\",");
    s.push_str("\"mesaj_compilare_brut\":\"all good\",");
    s.push_str("\"teste\":[");
    s.push_str("{\"eticheta\":\"Test 1\",\"detalii\":{\"scor\":\"10\",\"scor_maxim\":\"10\",");
    s.push_str("\"exemplu\":1,\"mesaj\":\"OK  \",\"memorie\":\"1kb\"}},");
    s.push_str("{\"eticheta\":\"Test 2\",\"detalii\":{\"scor\":\"0\",\"scor_maxim\":\"20\",");
    s.push_str("\"exemplu\":0,\"mesaj\":\"Wrong\",\"memorie\":\"2kb\"}},");
    s.push_str("{\"eticheta\":\"Test 3\",\"detalii\":{\"scor\":\"5\",\"scor_maxim\":\"20\",");
    s.push_str("\"exemplu\":0,\"mesaj\":\"Partial\",\"memorie\":\"3kb\"}}");
    s.push_str("]}");
    s
}

#[test]
fn score_report_reads_every_test() {
    let rep = parse_score(&fixture_payload()).unwrap();
    assert_eq!(rep.compile_message, "all good");
    assert_eq!(rep.tests.len(), 3);
    assert_eq!(rep.tests[0].label, "Test 1");
    assert_eq!(rep.tests[0].score, 10);
    assert_eq!(rep.tests[0].max_score, 10);
    assert_eq!(rep.tests[0].message, "OK");
    assert_eq!(rep.tests[0].memory, "1kb");
    assert!(rep.tests[0].is_example);
    assert_eq!(rep.tests[1].score, 0);
    assert!(!rep.tests[1].is_example);
}

#[test]
fn score_report_classes_lines() {
    let doc = parse_json(&fixture_payload()).unwrap();
    let rep = build_score_report(&doc).unwrap();
    assert_eq!(pbinfo_cli::display::test_class(&rep.tests[0]), TestClass::Full);
    assert_eq!(pbinfo_cli::display::test_class(&rep.tests[1]), TestClass::Zero);
    assert_eq!(pbinfo_cli::display::test_class(&rep.tests[2]), TestClass::Partial);
}

#[test]
fn score_report_rejects_running_payload() {
    assert_eq!(
        parse_score("{\"status_sursa\":\"executing\"}"),
        Err(ParseError::StillExecuting)
    );
    let doc = parse_json("{\"status_sursa\":\"pending\"}").unwrap();
    assert_eq!(build_score_report(&doc), Err(DisplayError::StillExecutingError));
}

#[test]
fn score_report_rejects_missing_tests() {
    assert_eq!(parse_score("{\"status_sursa\":\"x\"}"), Err(ParseError::NoTests));
    let doc = parse_json("{\"status_sursa\":\"x\",\"teste\":5}").unwrap();
    assert!(matches!(
        build_score_report(&doc),
        Err(DisplayError::InvalidTestFormattingError { .. })
    ));
}

#[test]
fn score_report_rejects_unreadable_score() {
    let bad = "{\"status_sursa\":\"x\",\"teste\":[{\"eticheta\":\"T\",\"detalii\":{\"scor\":\"zece\",\"scor_maxim\":\"10\",\"exemplu\":0}}]}";
    assert_eq!(parse_score(bad), Err(ParseError::InvalidTests));
    let doc = parse_json(bad).unwrap();
    assert!(matches!(
        build_score_report(&doc),
        Err(DisplayError::InvalidScoreFormat { .. })
    ));
}

#[test]
fn parse_score_garbage_is_json_init() {
    assert_eq!(parse_score("<html>"), Err(ParseError::JsonInit));
}

#[test]
fn integers_parse_like_std() {
    let cases: [(&str, Option<i64>); 8] = [
        ("100", Some(100)),
        ("-2", Some(-2)),
        ("+7", Some(7)),
        ("", None),
        ("12a", None),
        ("-9223372036854775808", Some(i64::MIN)),
        ("9223372036854775807", Some(i64::MAX)),
        ("9223372036854775808", None),
    ];
    for (text, want) in cases {
        let chars = chars_of(text);
        assert_eq!(parse_i64_chars(&chars), want, "case {:?}", text);
    }
}

#[test]
fn chars_round_trip() {
    let v = chars_of("punctaj: ăî");
    assert_eq!(string_from_chars(&v), "punctaj: ăî");
}

#[test]
fn parsed_document_lookup() {
    let doc = parse_json("{\"a\":1,\"b\":\"x\"}").unwrap();
    assert_eq!(doc.get("a").unwrap().as_int(), Some(1));
    assert!(matches!(doc.get("b"), Some(JsonValue::Str(s)) if s == "x"));
    assert!(doc.get("c").is_none());
    assert!(parse_json("{").is_err());
}

#[test]
fn complete_upload_success_returns_id() {
    let reply = "{\"stare\":\"success\",\"id_solutie\":314}".to_string();
    assert_eq!(complete_upload(200, reply).unwrap(), "314");
}

#[test]
fn ssid_with_empty_value() {
    assert_eq!(try_get_ssid("SSID=; Path=/").unwrap(), "");
}
