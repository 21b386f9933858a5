use hvac_design_app::callback::{
    classify_callback, find_value, parse_callback, redirect_uri_for_port, CallbackResult,
    MalformedReason, CALLBACK_PATH, CONFIRMATION_PAGE, CONFIRMATION_STATUS,
};
use hvac_design_app::parameter::Parameter;

fn pair(name: &str, value: &str) -> Parameter {
    Parameter { name: name.to_string(), value: value.to_string() }
}

#[test]
fn callback_with_code_is_success() {
    assert_eq!(
        parse_callback("/callback?code=abc123"),
        CallbackResult::Success { authorization_code: "abc123".to_string() }
    );
}

#[test]
fn callback_with_error_is_failure() {
    assert_eq!(
        parse_callback("/callback?error=access_denied"),
        CallbackResult::Failure { provider_error_code: "access_denied".to_string() }
    );
}

#[test]
fn callback_with_neither_is_malformed() {
    assert_eq!(
        parse_callback("/callback?state=xyz"),
        CallbackResult::Malformed { reason: MalformedReason::MissingCode }
    );
    assert_eq!(
        parse_callback("/callback"),
        CallbackResult::Malformed { reason: MalformedReason::MissingCode }
    );
    assert_eq!(
        parse_callback(""),
        CallbackResult::Malformed { reason: MalformedReason::MissingCode }
    );
}

#[test]
fn callback_with_code_and_error_is_failure() {
    assert_eq!(
        parse_callback("/callback?code=abc&error=server_error"),
        CallbackResult::Failure { provider_error_code: "server_error".to_string() }
    );
    assert_eq!(
        parse_callback("/callback?error=server_error&code=abc"),
        CallbackResult::Failure { provider_error_code: "server_error".to_string() }
    );
}

#[test]
fn callback_values_are_decoded() {
    assert_eq!(
        parse_callback("/callback?state=s&code=4%2F0Ab%2Bc+d&scope=email"),
        CallbackResult::Success { authorization_code: "4/0Ab+c d".to_string() }
    );
}

#[test]
fn callback_takes_the_first_of_repeated_parameters() {
    assert_eq!(
        parse_callback("/callback?code=first&code=second"),
        CallbackResult::Success { authorization_code: "first".to_string() }
    );
}

#[test]
fn callback_that_is_no_url_is_malformed() {
    assert_eq!(
        parse_callback(":99999999/callback?code=abc"),
        CallbackResult::Malformed { reason: MalformedReason::InvalidUrl }
    );
}

#[test]
fn callback_ignores_the_fragment() {
    assert_eq!(
        parse_callback("/callback?state=1#code=abc"),
        CallbackResult::Malformed { reason: MalformedReason::MissingCode }
    );
}

#[test]
fn classify_reads_pairs_in_order() {
    assert_eq!(
        classify_callback(&vec![pair("state", "1"), pair("code", "c1"), pair("code", "c2")]),
        CallbackResult::Success { authorization_code: "c1".to_string() }
    );
    assert_eq!(
        classify_callback(&vec![pair("code", "c1"), pair("error", "e1"), pair("error", "e2")]),
        CallbackResult::Failure { provider_error_code: "e1".to_string() }
    );
    assert_eq!(
        classify_callback(&Vec::new()),
        CallbackResult::Malformed { reason: MalformedReason::MissingCode }
    );
    assert_eq!(
        classify_callback(&vec![pair("Code", "c1"), pair("codes", "c2")]),
        CallbackResult::Malformed { reason: MalformedReason::MissingCode }
    );
    assert_eq!(
        classify_callback(&vec![pair("code", "")]),
        CallbackResult::Success { authorization_code: String::new() }
    );
}

#[test]
fn find_value_gives_the_first_match() {
    let pairs = vec![pair("a", "1"), pair("b", "2"), pair("a", "3")];
    assert_eq!(find_value(&pairs, "a"), Some("1".to_string()));
    assert_eq!(find_value(&pairs, "b"), Some("2".to_string()));
    assert_eq!(find_value(&pairs, "c"), None);
}

#[test]
fn redirect_uri_names_the_port_and_the_callback_path() {
    assert_eq!(redirect_uri_for_port(8080), "http://localhost:8080/callback");
    assert_eq!(redirect_uri_for_port(0), "http://localhost:0/callback");
    assert_eq!(redirect_uri_for_port(65535), "http://localhost:65535/callback");
    assert_eq!(redirect_uri_for_port(49152), format!("http://localhost:49152{}", CALLBACK_PATH));
}

#[test]
fn malformed_reasons_have_messages() {
    assert_eq!(MalformedReason::InvalidUrl.message(), "Invalid callback URL");
    assert_eq!(MalformedReason::MissingCode.message(), "No authorization code in callback");
}

#[test]
fn confirmation_page_is_fixed() {
    assert_eq!(CONFIRMATION_STATUS, 200);
    assert!(CONFIRMATION_PAGE.contains("<title>Authentication Successful</title>"));
    assert!(CONFIRMATION_PAGE.contains("<h1>\u{2713} Authentication Successful</h1>"));
    assert!(CONFIRMATION_PAGE.contains("You can close this window and return to the app."));
    assert!(CONFIRMATION_PAGE.contains("<script>window.close();</script>"));
}
