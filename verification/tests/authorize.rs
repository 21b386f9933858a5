use hvac_design_app::authorize::{
    build_authorization_url, google_authorization_url, ConsentFlags, GOOGLE_AUTH_ENDPOINT,
};
use hvac_design_app::text::{chars_of, decimal_string, same_text};

fn query_value(url: &str, key: &str) -> Option<String> {
    let parsed = url::Url::parse(url).expect("the built URL parses");
    let found = parsed.query_pairs().find(|(name, _)| name == key);
    found.map(|(_, value)| value.into_owned())
}

#[test]
fn google_url_has_the_expected_text() {
    let url = google_authorization_url("my-client.apps", "http://localhost:8080/callback");
    assert_eq!(
        url,
        "https://accounts.google.com/o/oauth2/v2/auth?client_id=my-client.apps&\
         redirect_uri=http%3A%2F%2Flocalhost%3A8080%2Fcallback&response_type=code&\
         scope=openid%20email%20profile&access_type=offline&prompt=consent"
    );
}

#[test]
fn client_id_is_percent_encoded() {
    let url = google_authorization_url("a b&c=d#e?f+g%h/\u{e9}~", "x");
    assert!(url.starts_with(
        "https://accounts.google.com/o/oauth2/v2/auth?client_id=\
         a%20b%26c%3Dd%23e%3Ff%2Bg%25h%2F%C3%A9~&redirect_uri=x&response_type=code"
    ));
}

#[test]
fn google_url_round_trips_client_id_and_redirect_uri() {
    let cases = [
        ("1234-abc.apps.googleusercontent.com", "http://localhost:49152/callback"),
        ("id with spaces & marks = ? # + % /", "http://localhost:1/callback?x=1&y=2#frag"),
        ("", ""),
        ("\u{1f47e} \u{e9}\u{4e2d}", "http://[::1]:80/\u{fc}"),
        ("%41%zz%", "a+b"),
    ];
    for (client_id, redirect_uri) in cases {
        let url = google_authorization_url(client_id, redirect_uri);
        assert_eq!(query_value(&url, "client_id").as_deref(), Some(client_id));
        assert_eq!(query_value(&url, "redirect_uri").as_deref(), Some(redirect_uri));
        assert_eq!(query_value(&url, "response_type").as_deref(), Some("code"));
        assert_eq!(query_value(&url, "scope").as_deref(), Some("openid email profile"));
        assert_eq!(query_value(&url, "access_type").as_deref(), Some("offline"));
        assert_eq!(query_value(&url, "prompt").as_deref(), Some("consent"));
    }
}

#[test]
fn builder_is_deterministic() {
    let first = google_authorization_url("client", "http://localhost:5000/callback");
    let second = google_authorization_url("client", "http://localhost:5000/callback");
    assert_eq!(first, second);
}

#[test]
fn builder_writes_scopes_and_flags_as_asked() {
    let none = ConsentFlags { offline_access: false, force_consent: false };
    let scopes = vec!["openid".to_string(), "https://example.org/auth/read write".to_string()];
    let url = build_authorization_url("https://id.example/authorize", "c", "r", &scopes, none);
    assert_eq!(
        url,
        "https://id.example/authorize?client_id=c&redirect_uri=r&response_type=code&\
         scope=openid%20https%3A%2F%2Fexample.org%2Fauth%2Fread%20write"
    );
    let offline = ConsentFlags { offline_access: true, force_consent: false };
    let endpoint = "https://id.example/authorize";
    let url = build_authorization_url(endpoint, "c", "r", &Vec::new(), offline);
    assert_eq!(
        url,
        "https://id.example/authorize?client_id=c&redirect_uri=r&response_type=code&\
         scope=&access_type=offline"
    );
    let consent = ConsentFlags { offline_access: false, force_consent: true };
    let one = vec!["email".to_string()];
    let url = build_authorization_url("https://id.example/authorize", "c", "r", &one, consent);
    assert_eq!(
        url,
        "https://id.example/authorize?client_id=c&redirect_uri=r&response_type=code&\
         scope=email&prompt=consent"
    );
}

#[test]
fn google_endpoint_is_the_documented_one() {
    assert_eq!(GOOGLE_AUTH_ENDPOINT, "https://accounts.google.com/o/oauth2/v2/auth");
}

#[test]
fn decimal_string_writes_numbers_without_leading_zeros() {
    assert_eq!(decimal_string(0), "0");
    assert_eq!(decimal_string(7), "7");
    assert_eq!(decimal_string(10), "10");
    assert_eq!(decimal_string(65535), "65535");
    assert_eq!(decimal_string(1000000007), "1000000007");
    assert_eq!(decimal_string(u64::MAX), "18446744073709551615");
}

#[test]
fn chars_of_lists_every_character() {
    assert_eq!(chars_of("a\u{e9}\u{1f47e}"), vec!['a', '\u{e9}', '\u{1f47e}']);
    assert_eq!(chars_of(""), Vec::<char>::new());
}

#[test]
fn same_text_compares_by_content() {
    assert!(same_text("code", "code"));
    assert!(!same_text("code", "Code"));
    assert!(!same_text("code", "codes"));
    assert!(same_text("", ""));
}
