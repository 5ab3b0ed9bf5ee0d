use registry_auth::error::AppError;
use registry_auth::login_url::{checked_login_url, login_url, reply_with_login_url, LoginUrlQuery};

fn query(callback_url: &str) -> LoginUrlQuery {
    LoginUrlQuery { callback_url: callback_url.to_string() }
}

fn address(next_auth_url: &str, callback_url: &str) -> String {
    let checked = checked_login_url(Some(next_auth_url), &query(callback_url)).unwrap().unwrap();
    assert_eq!(login_url(Some(next_auth_url), &query(callback_url)).unwrap(), checked);
    checked
}

#[test]
fn login_url_constructs_correct_url() {
    let result = address("https://auth.example.com", "http://127.0.0.1:12345/callback");
    assert!(result.starts_with("https://auth.example.com/auth/login?"));
    assert!(result.contains("callback_url="));
    assert!(result.contains("127.0.0.1"));
    assert_eq!(
        result,
        "https://auth.example.com/auth/login?callback_url=http%3A%2F%2F127.0.0.1%3A12345%2Fcallback"
    );
}

#[test]
fn login_url_trims_trailing_slash() {
    let result = address("https://auth.example.com/", "http://127.0.0.1:12345/callback");
    let url = reqwest::Url::parse(&result).unwrap();
    assert_eq!(url.path(), "/auth/login");
    assert_eq!(
        result,
        address("https://auth.example.com", "http://127.0.0.1:12345/callback")
    );
}

#[test]
fn distribution_constructs_next_login_url() {
    let callback_url = "http://127.0.0.1:12345/callback";
    let result = address("http://127.0.0.1:4000", callback_url);
    assert!(result.contains("/auth/login?"));
    assert!(result.contains("callback_url="));
    assert!(result.contains("127.0.0.1%3A12345"));
    let url = reqwest::Url::parse(&result).unwrap();
    let pairs: Vec<(String, String)> = url.query_pairs().into_owned().collect();
    assert_eq!(pairs, vec![("callback_url".to_string(), callback_url.to_string())]);
}

#[test]
fn every_callback_is_read_back() {
    for callback_url in ["", "a b+c", "x&y=z#f?%20", "https://h/ü/\u{1f600}", "*-._~!'()"] {
        let url = reqwest::Url::parse(&address("https://a", callback_url)).unwrap();
        let pairs: Vec<(String, String)> = url.query_pairs().into_owned().collect();
        assert_eq!(pairs, vec![("callback_url".to_string(), callback_url.to_string())]);
    }
}

#[test]
fn callbacks_are_form_encoded() {
    assert_eq!(
        address("https://a", "a b~ü*-._%"),
        "https://a/auth/login?callback_url=a+b%7E%C3%BC*-._%25"
    );
}

#[test]
fn the_pair_goes_behind_the_query_and_before_the_fragment() {
    assert_eq!(
        address("https://a/x?lang=fr", "c"),
        "https://a/x?lang=fr/auth/login&callback_url=c"
    );
    assert_eq!(
        address("https://a/x#nav", "c"),
        "https://a/x?callback_url=c#nav/auth/login"
    );
    assert_eq!(
        address("https://a/x?#nav", "c"),
        "https://a/x?callback_url=c#nav/auth/login"
    );
    assert_eq!(
        address("https://a/x?q#nav?d", "c"),
        "https://a/x?q&callback_url=c#nav?d/auth/login"
    );
}

#[test]
fn addresses_are_normalized() {
    assert_eq!(
        address("HTTPS://Auth.Example.COM:443//", "c"),
        "https://auth.example.com/auth/login?callback_url=c"
    );
}

#[test]
fn a_missing_configuration_is_a_bad_request() {
    let refused = || Err(AppError::BadRequest("Next auth is not configured".to_string()));
    assert_eq!(login_url(None, &query("c")), refused());
    assert_eq!(checked_login_url(None, &query("c")), Some(refused()));
}

#[test]
fn an_unusable_configuration_is_an_internal_error() {
    let broken = || {
        Err(AppError::Internal(
            "Failed to construct login URL from NEXT_AUTH_URL: relative URL without a base"
                .to_string(),
        ))
    };
    assert_eq!(login_url(Some("auth.example.com"), &query("c")), broken());
    assert_eq!(checked_login_url(Some("auth.example.com"), &query("c")), Some(broken()));
}

#[test]
fn the_reply_is_the_address_or_an_internal_error() {
    assert_eq!(reply_with_login_url(Ok("u".to_string())), Ok("u".to_string()));
    assert_eq!(
        reply_with_login_url(Err("e".to_string())),
        Err(AppError::Internal(
            "Failed to construct login URL from NEXT_AUTH_URL: e".to_string()
        ))
    );
}
