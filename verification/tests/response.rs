use hust::response::{interpret_mutation, interpret_registration, Payload, PayloadValue};
use hust::{ApiError, ApiResponseSection};

fn failure(kind: u32, address: &str, description: &str) -> ApiError {
    ApiError { kind, address: address.to_string(), description: description.to_string() }
}

fn failed(kind: u32, address: &str, description: &str) -> ApiResponseSection {
    ApiResponseSection::Error(failure(kind, address, description))
}

fn succeeded(entries: &[(&str, PayloadValue)]) -> ApiResponseSection {
    let mut payload = Payload::new();
    for (key, value) in entries {
        let value = match value {
            PayloadValue::Text(text) => PayloadValue::Text(text.clone()),
            PayloadValue::Json(text) => PayloadValue::Json(text.clone()),
        };
        payload.insert(key.to_string(), value);
    }
    ApiResponseSection::Success(payload)
}

fn text(content: &str) -> PayloadValue {
    PayloadValue::Text(content.to_string())
}

fn json(encoded: &str) -> PayloadValue {
    PayloadValue::Json(encoded.to_string())
}

#[test]
fn mutation_with_one_success_succeeds() {
    let sections = vec![succeeded(&[("/lights/1/state/on", json("true"))])];
    assert_eq!(interpret_mutation(&sections), Ok(()));
}

#[test]
fn mutation_success_outweighs_failures_around_it() {
    let sections = vec![
        failed(7, "/lights/1/state/bri", "invalid value"),
        succeeded(&[("/lights/1/state/on", json("true"))]),
        failed(201, "/lights/1/state/on", "device is off"),
    ];
    assert_eq!(interpret_mutation(&sections), Ok(()));
}

#[test]
fn mutation_success_with_empty_payload_succeeds() {
    let sections = vec![failed(1, "/", "unauthorized user"), succeeded(&[])];
    assert_eq!(interpret_mutation(&sections), Ok(()));
}

#[test]
fn mutation_with_only_failures_reports_them_in_order() {
    let sections = vec![
        failed(1, "/lights", "unauthorized user"),
        failed(3, "/lights/9", "resource not available"),
        failed(7, "/lights/1/state/bri", "invalid value"),
    ];
    assert_eq!(
        interpret_mutation(&sections),
        Err(vec![
            failure(1, "/lights", "unauthorized user"),
            failure(3, "/lights/9", "resource not available"),
            failure(7, "/lights/1/state/bri", "invalid value"),
        ])
    );
}

#[test]
fn mutation_with_one_failure_reports_it() {
    let sections = vec![failed(1, "/lights/1/state/on", "unauthorized user")];
    let outcome = interpret_mutation(&sections);
    let errors = outcome.unwrap_err();
    assert_eq!(errors.len(), 1);
    assert_eq!(errors[0].description, "unauthorized user");
    assert_eq!(errors[0].kind, 1);
    assert_eq!(errors[0].address, "/lights/1/state/on");
}

#[test]
fn mutation_without_sections_fails_with_no_errors() {
    let sections: Vec<ApiResponseSection> = Vec::new();
    assert_eq!(interpret_mutation(&sections), Err(Vec::new()));
}

#[test]
fn registration_returns_the_reported_user() {
    let sections = vec![succeeded(&[("username", text("abc123"))])];
    assert_eq!(interpret_registration(&sections), Ok("abc123".to_string()));
}

#[test]
fn registration_ignores_failures_before_the_user() {
    let sections = vec![
        failed(101, "/", "link button not pressed"),
        failed(7, "/devicetype", "invalid value"),
        succeeded(&[("username", text("abc123"))]),
    ];
    assert_eq!(interpret_registration(&sections), Ok("abc123".to_string()));
}

#[test]
fn registration_ignores_failures_after_the_user() {
    let sections = vec![
        succeeded(&[("username", text("abc123"))]),
        failed(101, "/", "link button not pressed"),
    ];
    assert_eq!(interpret_registration(&sections), Ok("abc123".to_string()));
}

#[test]
fn registration_takes_the_first_user_reported() {
    let sections = vec![
        succeeded(&[("clientkey", text("0123"))]),
        succeeded(&[("username", text("first"))]),
        succeeded(&[("username", text("second"))]),
    ];
    assert_eq!(interpret_registration(&sections), Ok("first".to_string()));
}

#[test]
fn registration_reads_the_user_beside_other_entries() {
    let sections =
        vec![succeeded(&[("clientkey", text("0123")), ("username", text("u1")), ("n", json("3"))])];
    assert_eq!(interpret_registration(&sections), Ok("u1".to_string()));
}

#[test]
fn registration_renders_a_user_that_is_no_string() {
    let sections = vec![succeeded(&[("username", json("42"))])];
    assert_eq!(interpret_registration(&sections), Ok("42".to_string()));
}

#[test]
fn registration_with_only_failures_reports_them_in_order() {
    let sections = vec![
        failed(101, "/", "link button not pressed"),
        failed(7, "/devicetype", "invalid value"),
    ];
    assert_eq!(
        interpret_registration(&sections),
        Err(vec![
            failure(101, "/", "link button not pressed"),
            failure(7, "/devicetype", "invalid value"),
        ])
    );
}

#[test]
fn registration_success_without_user_fails_with_the_failures_reported() {
    let sections = vec![
        failed(101, "/", "link button not pressed"),
        succeeded(&[("clientkey", text("0123"))]),
    ];
    assert_eq!(
        interpret_registration(&sections),
        Err(vec![failure(101, "/", "link button not pressed")])
    );
}

#[test]
fn registration_success_without_user_and_without_failures_fails_empty() {
    let sections = vec![succeeded(&[]), succeeded(&[("clientkey", text("0123"))])];
    assert_eq!(interpret_registration(&sections), Err(Vec::new()));
}

#[test]
fn registration_without_sections_fails_with_no_errors() {
    let sections: Vec<ApiResponseSection> = Vec::new();
    assert_eq!(interpret_registration(&sections), Err(Vec::new()));
}

#[test]
fn payload_keeps_the_last_value_put_under_a_key() {
    let mut payload = Payload::new();
    assert_eq!(payload.get("username"), None);
    payload.insert("username".to_string(), text("old"));
    payload.insert("username".to_string(), text("new"));
    assert_eq!(payload.get("username"), Some(&text("new")));
    assert_eq!(payload.get("Username"), None);
}

#[test]
fn payload_value_as_text() {
    assert_eq!(text("abc").to_text(), "abc");
    assert_eq!(text("").to_text(), "");
    assert_eq!(json("[1,2]").to_text(), "[1,2]");
    assert_eq!(json("null").to_text(), "null");
}

#[test]
fn api_error_clone_is_equal() {
    let error = failure(901, "/config", "internal error");
    assert_eq!(error.clone(), error);
}
