//! The translation gateway: builds the request from the mirrored settings,
//! gated on a configured key; classifies the endpoint's response; and
//! validates a candidate key through a fixed probe translation.
//!
//! The network call itself is performed by the caller; this module decides
//! what is sent and what every possible response means.
use vstd::prelude::*;
use vstd::string::StringExecFns;
use crate::settings::Settings;
use crate::text::{is_blank, is_blank_str};

verus! {

/// Why a translation failed.
#[derive(Clone, Copy, PartialEq, Eq, Structural, Debug)]
pub enum TranslationError {
    /// No key is configured; no network call is attempted.
    MissingApiKey,
    /// The request could not be delivered or timed out.
    NetworkError,
    /// The response body was not the expected JSON shape.
    ProtocolError,
    /// The service answered with a code other than 200.
    ServiceError(i32),
}

/// The body sent to the translation endpoint.
pub struct TranslateRequest {
    pub text: String,
    pub source_lang: String,
    pub target_lang: String,
}

/// What the user-interface layer receives for a translation call.
pub struct TranslateResult {
    pub success: bool,
    pub text: String,
    pub error: Option<String>,
}

/// The `data` field of a response body, as found.
pub enum JsonField {
    /// The field is absent.
    Absent,
    /// The field is JSON null.
    Null,
    /// The field is a JSON string.
    Text(String),
    /// The field is present but neither a string nor null.
    Other,
}

/// The digit character for one decimal digit.
pub open spec fn digit_char(d: nat) -> char {
    if d == 0 {
        '0'
    } else if d == 1 {
        '1'
    } else if d == 2 {
        '2'
    } else if d == 3 {
        '3'
    } else if d == 4 {
        '4'
    } else if d == 5 {
        '5'
    } else if d == 6 {
        '6'
    } else if d == 7 {
        '7'
    } else if d == 8 {
        '8'
    } else {
        '9'
    }
}

/// The decimal digits of a natural number, most significant first.
pub open spec fn decimal_digits(n: nat) -> Seq<char>
    decreases n,
{
    if n < 10 {
        seq![digit_char(n)]
    } else {
        decimal_digits(n / 10).push(digit_char(n % 10))
    }
}

/// The decimal rendering of an integer, with a leading minus sign when
/// negative.
pub open spec fn decimal_int(n: int) -> Seq<char> {
    if n < 0 {
        seq!['-'] + decimal_digits((-n) as nat)
    } else {
        decimal_digits(n as nat)
    }
}

fn digit_str(d: u32) -> (r: &'static str)
    requires
        d < 10,
    ensures
        r@ == seq![digit_char(d as nat)],
{
    if d == 0 {
        proof {
            reveal_strlit("0");
            assert("0"@ =~= seq!['0']);
        }
        "0"
    } else if d == 1 {
        proof {
            reveal_strlit("1");
            assert("1"@ =~= seq!['1']);
        }
        "1"
    } else if d == 2 {
        proof {
            reveal_strlit("2");
            assert("2"@ =~= seq!['2']);
        }
        "2"
    } else if d == 3 {
        proof {
            reveal_strlit("3");
            assert("3"@ =~= seq!['3']);
        }
        "3"
    } else if d == 4 {
        proof {
            reveal_strlit("4");
            assert("4"@ =~= seq!['4']);
        }
        "4"
    } else if d == 5 {
        proof {
            reveal_strlit("5");
            assert("5"@ =~= seq!['5']);
        }
        "5"
    } else if d == 6 {
        proof {
            reveal_strlit("6");
            assert("6"@ =~= seq!['6']);
        }
        "6"
    } else if d == 7 {
        proof {
            reveal_strlit("7");
            assert("7"@ =~= seq!['7']);
        }
        "7"
    } else if d == 8 {
        proof {
            reveal_strlit("8");
            assert("8"@ =~= seq!['8']);
        }
        "8"
    } else {
        proof {
            reveal_strlit("9");
            assert("9"@ =~= seq!['9']);
        }
        "9"
    }
}

/// The decimal rendering of an unsigned number.
pub fn u32_string(n: u32) -> (r: String)
    ensures
        r@ == decimal_digits(n as nat),
    decreases n,
{
    if n < 10 {
        String::from_str(digit_str(n))
    } else {
        let mut s = u32_string(n / 10);
        s.append(digit_str(n % 10));
        proof {
            assert(decimal_digits((n / 10) as nat) + seq![digit_char((n % 10) as nat)]
                =~= decimal_digits((n / 10) as nat).push(digit_char((n % 10) as nat)));
        }
        s
    }
}

/// The decimal rendering of a signed number.
pub fn i32_string(n: i32) -> (r: String)
    ensures
        r@ == decimal_int(n as int),
{
    if n >= 0 {
        u32_string(n as u32)
    } else {
        let mag: u32 = (-(n as i64)) as u32;
        proof {
            assert(mag as nat == (-(n as int)) as nat);
        }
        let mut s = String::from_str("-");
        let d = u32_string(mag);
        s.append(d.as_str());
        proof {
            reveal_strlit("-");
            assert("-"@ =~= seq!['-']);
        }
        s
    }
}

/// The human-readable message for each failure.
pub open spec fn message_spec(e: TranslationError) -> Seq<char> {
    match e {
        TranslationError::MissingApiKey => "API key is not configured"@,
        TranslationError::NetworkError => "network request failed"@,
        TranslationError::ProtocolError => "translation service response was malformed"@,
        TranslationError::ServiceError(c) => "translation service returned code "@ + decimal_int(
            c as int,
        ),
    }
}

impl TranslationError {
    /// The message shown for this failure.
    pub fn message(&self) -> (r: String)
        ensures
            r@ == message_spec(*self),
    {
        match self {
            TranslationError::MissingApiKey => String::from_str("API key is not configured"),
            TranslationError::NetworkError => String::from_str("network request failed"),
            TranslationError::ProtocolError => String::from_str(
                "translation service response was malformed",
            ),
            TranslationError::ServiceError(c) => {
                let mut s = String::from_str("translation service returned code ");
                let d = i32_string(*c);
                s.append(d.as_str());
                s
            },
        }
    }
}

/// Builds the request for a translation of `text`, gated on a configured
/// key: an empty key fails at once, with no network call to attempt.
pub fn build_request(text: String, settings: &Settings) -> (r: Result<
    TranslateRequest,
    TranslationError,
>)
    ensures
        settings.api_key@.len() == 0 ==> r == Err::<TranslateRequest, TranslationError>(
            TranslationError::MissingApiKey,
        ),
        settings.api_key@.len() > 0 ==> (r matches Ok(q) && q.text == text && q.source_lang
            == settings.source_lang && q.target_lang == settings.target_lang),
{
    if settings.api_key.as_str().is_empty() {
        Err(TranslationError::MissingApiKey)
    } else {
        Ok(
            TranslateRequest {
                text,
                source_lang: settings.source_lang.clone(),
                target_lang: settings.target_lang.clone(),
            },
        )
    }
}

/// The endpoint for a key.
pub fn request_url(api_key: &str) -> (r: String)
    ensures
        r@ == "https://api.deeplx.org/"@ + api_key@ + "/translate"@,
{
    let mut s = String::from_str("https://api.deeplx.org/");
    s.append(api_key);
    s.append("/translate");
    s
}

/// The fixed probe used to validate a candidate key.
pub fn probe_request() -> (r: TranslateRequest)
    ensures
        r.text@ == "test"@,
        r.source_lang@ == "EN"@,
        r.target_lang@ == "ZH"@,
{
    TranslateRequest {
        text: String::from_str("test"),
        source_lang: String::from_str("EN"),
        target_lang: String::from_str("ZH"),
    }
}

/// What a parsed response means. A missing or non-integer `code`, a code
/// outside the signed 32-bit range, or a `data` of the wrong type is a
/// protocol error; a code other than 200 is a service error; code 200
/// succeeds with the data text, the empty text when data is absent or null.
pub fn classify_fields(code: Option<i64>, data: JsonField) -> (r: Result<String, TranslationError>)
    ensures
        result_view(r) == spec_classify(code, json_field_view(data)),
        code is None ==> r == Err::<String, TranslationError>(TranslationError::ProtocolError),
        code matches Some(c) ==> (if c < -2147483648 || c > 2147483647 {
            r == Err::<String, TranslationError>(TranslationError::ProtocolError)
        } else if data is Other {
            r == Err::<String, TranslationError>(TranslationError::ProtocolError)
        } else if c != 200 {
            r == Err::<String, TranslationError>(TranslationError::ServiceError(c as i32))
        } else {
            match data {
                JsonField::Text(t) => r == Ok::<String, TranslationError>(t),
                _ => r matches Ok(t) && t@ == Seq::<char>::empty(),
            }
        }),
        r matches Err(e) ==> (e is ProtocolError || e matches TranslationError::ServiceError(_)),
        r matches Err(e) ==> (e matches TranslationError::ServiceError(c) ==> c != 200),
{
    match code {
        None => Err(TranslationError::ProtocolError),
        Some(c) => {
            if c < -2147483648i64 || c > 2147483647i64 {
                Err(TranslationError::ProtocolError)
            } else if matches!(data, JsonField::Other) {
                Err(TranslationError::ProtocolError)
            } else if c != 200 {
                Err(TranslationError::ServiceError(c as i32))
            } else {
                match data {
                    JsonField::Text(t) => Ok(t),
                    _ => Ok(String::new()),
                }
            }
        },
    }
}

/// The shape of the `data` member of a response body, at the level of
/// views.
pub ghost enum JsonFieldSpec {
    Absent,
    Null,
    Text(Seq<char>),
    Other,
}

/// The view of an extracted `data` member.
pub open spec fn json_field_view(f: JsonField) -> JsonFieldSpec {
    match f {
        JsonField::Absent => JsonFieldSpec::Absent,
        JsonField::Null => JsonFieldSpec::Null,
        JsonField::Text(s) => JsonFieldSpec::Text(s@),
        JsonField::Other => JsonFieldSpec::Other,
    }
}

/// The view of a translation outcome.
pub open spec fn result_view(r: Result<String, TranslationError>) -> Result<
    Seq<char>,
    TranslationError,
> {
    match r {
        Ok(t) => Ok(t@),
        Err(e) => Err(e),
    }
}

/// What a parsed body's `code` and `data` members mean, over views: a
/// missing or non-integer code, a code outside the signed 32-bit range,
/// or mistyped data is the protocol error; a code other than 200 is a
/// service error; code 200 succeeds with the data text, the empty text
/// when data is absent or null.
pub open spec fn spec_classify(code: Option<i64>, data: JsonFieldSpec) -> Result<
    Seq<char>,
    TranslationError,
> {
    match code {
        None => Err(TranslationError::ProtocolError),
        Some(c) => if c < -2147483648 || c > 2147483647 {
            Err(TranslationError::ProtocolError)
        } else if data is Other {
            Err(TranslationError::ProtocolError)
        } else if c != 200 {
            Err(TranslationError::ServiceError(c as i32))
        } else {
            match data {
                JsonFieldSpec::Text(t) => Ok(t),
                _ => Ok(Seq::empty()),
            }
        },
    }
}

/// Whether the text is one valid JSON document, as serde_json parses it.
pub uninterp spec fn json_parses(body: Seq<char>) -> bool;

/// The `code` member of the parsed body, when the body parses to an
/// object whose `code` member is an integer fitting 64 signed bits.
pub uninterp spec fn code_of(body: Seq<char>) -> Option<i64>;

/// The `data` member of the parsed body, by shape.
pub uninterp spec fn data_of(body: Seq<char>) -> JsonFieldSpec;

/// Relies on serde_json::from_str::<Value>: whether the text is valid
/// JSON. The result depends on the text alone.
#[verifier::external_body]
fn response_parses(body: &str) -> (r: bool)
    ensures
        r == json_parses(body@),
{
    serde_json::from_str::<serde_json::Value>(body).is_ok()
}

/// Relies on serde_json::from_str::<Value>, Value::get and Value::as_i64:
/// the `code` member of the body as a signed 64-bit integer; None when
/// the body does not parse, is not an object, lacks the member, or holds
/// one that is no such integer. The result depends on the body alone.
#[verifier::external_body]
fn response_code(body: &str) -> (r: Option<i64>)
    ensures
        r == code_of(body@),
{
    serde_json::from_str::<serde_json::Value>(body)
        .ok()
        .and_then(|v| v.get("code").and_then(|c| c.as_i64()))
}

/// Relies on serde_json::from_str::<Value>, Value::get, Value::as_str and
/// Value::is_null: the `data` member of the body by shape; absent when
/// the body does not parse, is not an object, or lacks the member. The
/// result depends on the body alone.
#[verifier::external_body]
fn response_data(body: &str) -> (r: JsonField)
    ensures
        json_field_view(r) == data_of(body@),
{
    match serde_json::from_str::<serde_json::Value>(body).ok().and_then(|v| v.get("data").cloned()) {
        None => JsonField::Absent,
        Some(d) => match d.as_str() {
            Some(s) => JsonField::Text(s.to_owned()),
            None if d.is_null() => JsonField::Null,
            None => JsonField::Other,
        },
    }
}

/// Interprets a response body: a text that is not valid JSON is the
/// protocol error; otherwise the `code` and `data` members are extracted
/// and classified by the exact case split of `spec_classify`. The result
/// is never a missing-key or network failure, and a service error never
/// carries code 200.
pub fn interpret_response(body: &str) -> (r: Result<String, TranslationError>)
    ensures
        !json_parses(body@) ==> r == Err::<String, TranslationError>(
            TranslationError::ProtocolError,
        ),
        json_parses(body@) ==> result_view(r) == spec_classify(code_of(body@), data_of(body@)),
        r matches Err(e) ==> (e is ProtocolError || e matches TranslationError::ServiceError(_)),
        r matches Err(e) ==> (e matches TranslationError::ServiceError(c) ==> c != 200),
{
    if !response_parses(body) {
        return Err(TranslationError::ProtocolError);
    }
    let code: Option<i64> = response_code(body);
    let data: JsonField = response_data(body);
    classify_fields(code, data)
}

/// Packs a translation outcome for the user-interface layer: success
/// carries the text; failure carries the empty text and the message.
pub fn result_of_outcome(outcome: Result<String, TranslationError>) -> (r: TranslateResult)
    ensures
        outcome matches Ok(t) ==> r.success && r.text == t && r.error is None,
        outcome matches Err(e) ==> !r.success && r.text@ == Seq::<char>::empty() && (
        r.error matches Some(m) && m@ == message_spec(e)),
{
    match outcome {
        Ok(t) => TranslateResult { success: true, text: t, error: None },
        Err(e) => TranslateResult { success: false, text: String::new(), error: Some(e.message()) },
    }
}

/// Why a key validation failed.
#[derive(Clone, Copy, PartialEq, Eq, Structural, Debug)]
pub enum ValidateKeyError {
    /// The candidate key is empty or whitespace-only; nothing is sent.
    EmptyKey,
    /// The endpoint answered with a non-success HTTP status.
    HttpStatus(u16),
    /// The endpoint answered, but not with code 200: the key is rejected.
    InvalidKey,
    /// The probe could not be delivered.
    Network,
}

/// Whether a candidate key may be probed at all: a blank key fails at
/// once, with no network call to attempt.
pub fn validate_precheck(api_key: &str) -> (r: Result<(), ValidateKeyError>)
    ensures
        is_blank(api_key@) ==> r == Err::<(), ValidateKeyError>(ValidateKeyError::EmptyKey),
        !is_blank(api_key@) ==> r == Ok::<(), ValidateKeyError>(()),
{
    if is_blank_str(api_key) {
        Err(ValidateKeyError::EmptyKey)
    } else {
        Ok(())
    }
}

/// Whether an HTTP status is a success.
pub open spec fn http_success(status: u16) -> bool {
    200 <= status < 300
}

/// Judges the probe's answer: a non-success status is reported as such;
/// otherwise the key is valid exactly when the body parses and its code
/// and data classify as success, that is, code 200.
pub fn validate_from_response(status: u16, body: &str) -> (r: Result<bool, ValidateKeyError>)
    ensures
        !http_success(status) ==> r == Err::<bool, ValidateKeyError>(
            ValidateKeyError::HttpStatus(status),
        ),
        http_success(status) ==> (r == Ok::<bool, ValidateKeyError>(true) <==> json_parses(body@)
            && spec_classify(code_of(body@), data_of(body@)) is Ok),
        http_success(status) ==> (r == Ok::<bool, ValidateKeyError>(true) || r == Err::<
            bool,
            ValidateKeyError,
        >(ValidateKeyError::InvalidKey)),
        r matches Ok(b) ==> b,
{
    if !(status >= 200 && status < 300) {
        return Err(ValidateKeyError::HttpStatus(status));
    }
    match interpret_response(body) {
        Ok(_) => Ok(true),
        Err(_) => Err(ValidateKeyError::InvalidKey),
    }
}

} // verus!
