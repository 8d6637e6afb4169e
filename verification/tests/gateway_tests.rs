use simple_translate::gateway::{
    build_request, i32_string, interpret_response, probe_request, request_url, result_of_outcome,
    u32_string, validate_from_response, validate_precheck, TranslationError, ValidateKeyError,
};
use simple_translate::settings::Settings;

fn settings_with_key(key: &str) -> Settings {
    let mut s = Settings::default();
    s.api_key = key.to_string();
    s
}

#[test]
fn code_200_with_data_succeeds() {
    let r = interpret_response("{\"code\":200,\"data\":\"你好\"}");
    assert_eq!(r, Ok("你好".to_string()));
}

#[test]
fn code_403_is_a_service_error() {
    let r = interpret_response("{\"code\":403,\"data\":null}");
    assert_eq!(r, Err(TranslationError::ServiceError(403)));
}

#[test]
fn unparseable_body_is_a_protocol_error() {
    let r = interpret_response("not json at all");
    assert_eq!(r, Err(TranslationError::ProtocolError));
}

#[test]
fn missing_code_is_a_protocol_error() {
    assert_eq!(
        interpret_response("{\"data\":\"x\"}"),
        Err(TranslationError::ProtocolError)
    );
    assert_eq!(
        interpret_response("{\"code\":\"200\",\"data\":\"x\"}"),
        Err(TranslationError::ProtocolError)
    );
    assert_eq!(interpret_response("[1,2,3]"), Err(TranslationError::ProtocolError));
}

#[test]
fn fractional_code_is_a_protocol_error() {
    assert_eq!(
        interpret_response("{\"code\":200.5,\"data\":\"x\"}"),
        Err(TranslationError::ProtocolError)
    );
}

#[test]
fn out_of_range_code_is_a_protocol_error() {
    assert_eq!(
        interpret_response("{\"code\":4294967296,\"data\":\"x\"}"),
        Err(TranslationError::ProtocolError)
    );
}

#[test]
fn null_or_absent_data_succeeds_with_empty_text() {
    assert_eq!(interpret_response("{\"code\":200,\"data\":null}"), Ok(String::new()));
    assert_eq!(interpret_response("{\"code\":200}"), Ok(String::new()));
}

#[test]
fn mistyped_data_is_a_protocol_error() {
    assert_eq!(
        interpret_response("{\"code\":200,\"data\":42}"),
        Err(TranslationError::ProtocolError)
    );
}

#[test]
fn negative_service_code_is_reported() {
    assert_eq!(
        interpret_response("{\"code\":-7,\"data\":null}"),
        Err(TranslationError::ServiceError(-7))
    );
}

#[test]
fn empty_api_key_fails_without_a_request() {
    let settings = settings_with_key("");
    let r = build_request("hello".to_string(), &settings);
    match r {
        Err(e) => assert_eq!(e, TranslationError::MissingApiKey),
        Ok(_) => panic!("expected the missing-key failure"),
    }
}

#[test]
fn configured_key_builds_the_request_from_settings() {
    let mut settings = settings_with_key("k-9");
    settings.source_lang = "DE".to_string();
    settings.target_lang = "FR".to_string();
    let q = build_request("hello".to_string(), &settings).ok().expect("expected a request");
    assert_eq!(q.text, "hello");
    assert_eq!(q.source_lang, "DE");
    assert_eq!(q.target_lang, "FR");
}

#[test]
fn url_embeds_the_key() {
    assert_eq!(request_url("abc"), "https://api.deeplx.org/abc/translate");
}

#[test]
fn probe_is_the_fixed_test_translation() {
    let q = probe_request();
    assert_eq!(q.text, "test");
    assert_eq!(q.source_lang, "EN");
    assert_eq!(q.target_lang, "ZH");
}

#[test]
fn result_packs_success_and_failure() {
    let ok = result_of_outcome(Ok("你好".to_string()));
    assert!(ok.success);
    assert_eq!(ok.text, "你好");
    assert!(ok.error.is_none());

    let err = result_of_outcome(Err(TranslationError::NetworkError));
    assert!(!err.success);
    assert_eq!(err.text, "");
    assert_eq!(err.error.unwrap(), "network request failed");
}

#[test]
fn service_error_message_carries_the_code() {
    let r = result_of_outcome(Err(TranslationError::ServiceError(403)));
    assert_eq!(r.error.unwrap(), "translation service returned code 403");
    let r = result_of_outcome(Err(TranslationError::ServiceError(-12)));
    assert_eq!(r.error.unwrap(), "translation service returned code -12");
}

#[test]
fn missing_key_message_is_reported() {
    let r = result_of_outcome(Err(TranslationError::MissingApiKey));
    assert_eq!(r.error.unwrap(), "API key is not configured");
    let r = result_of_outcome(Err(TranslationError::ProtocolError));
    assert_eq!(r.error.unwrap(), "translation service response was malformed");
}

#[test]
fn decimal_rendering_is_exact() {
    assert_eq!(u32_string(0), "0");
    assert_eq!(u32_string(10), "10");
    assert_eq!(u32_string(4294967295), "4294967295");
    assert_eq!(i32_string(-2147483648), "-2147483648");
    assert_eq!(i32_string(200), "200");
}

#[test]
fn blank_candidate_key_is_rejected_before_any_probe() {
    assert_eq!(validate_precheck(""), Err(ValidateKeyError::EmptyKey));
    assert_eq!(validate_precheck("  \t"), Err(ValidateKeyError::EmptyKey));
    assert_eq!(validate_precheck("k"), Ok(()));
}

#[test]
fn probe_outcomes_map_to_validation_results() {
    assert_eq!(
        validate_from_response(404, "{\"code\":200}"),
        Err(ValidateKeyError::HttpStatus(404))
    );
    assert_eq!(validate_from_response(200, "{\"code\":200,\"data\":\"好\"}"), Ok(true));
    assert_eq!(
        validate_from_response(200, "{\"code\":500}"),
        Err(ValidateKeyError::InvalidKey)
    );
    assert_eq!(
        validate_from_response(200, "garbage"),
        Err(ValidateKeyError::InvalidKey)
    );
}
