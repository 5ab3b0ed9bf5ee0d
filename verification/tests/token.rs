use registry_auth::clock::Timestamp;
use registry_auth::error::AppError;
use registry_auth::extract::{extract_claims, ClaimsExtraction, ExtractionEvent};
use registry_auth::header::AuthHeader;
use registry_auth::identity::{Claims, TokenOrder, TokenSettings, User};
use registry_auth::next::{NextAuthUserInfo, NextEvent, NextVerification};
use registry_auth::token::{auth, AuthResponse, PasswordCheck, TokenEvent, TokenExchange};

fn bearer(token: &str) -> Option<AuthHeader> {
    Some(AuthHeader::Bearer { token: token.to_string() })
}

fn basic() -> Option<AuthHeader> {
    Some(AuthHeader::Basic { username: "alice".to_string(), password: "pw".to_string() })
}

fn alice() -> User {
    User {
        github_id: 7,
        username: "Alice".to_string(),
        password: "hash".to_string(),
        salt: "salt".to_string(),
    }
}

fn check() -> PasswordCheck {
    PasswordCheck {
        salt: "salt".to_string(),
        hash: "hash".to_string(),
        password: "pw".to_string(),
    }
}

fn settings() -> TokenSettings {
    TokenSettings { lifetime_secs: 3600, secret: "test-secret".to_string() }
}

fn order(subject: &str) -> TokenOrder {
    TokenOrder {
        lifetime_secs: 3600,
        secret: "test-secret".to_string(),
        subject: subject.to_string(),
    }
}

fn start(header: Option<AuthHeader>, next_auth_url: Option<&str>) -> TokenExchange {
    auth(header, &settings(), next_auth_url)
}

fn step(exchange: TokenExchange, event: TokenEvent) -> TokenExchange {
    exchange.step(event, &settings())
}

fn issue(subject: &str) -> TokenExchange {
    TokenExchange::IssueToken { order: order(subject), then_check: None }
}

fn issued(token: &str) -> TokenEvent {
    TokenEvent::Issued(token.to_string())
}

fn done(token: &str) -> TokenExchange {
    TokenExchange::Done(Ok(token.to_string()))
}

fn error() -> AppError {
    AppError::Internal("broken".to_string())
}

#[test]
fn a_request_without_credentials_gets_an_anonymous_token() {
    assert_eq!(start(None, None), issue("anonymous"));
    assert_eq!(start(None, Some("http://next")), issue("anonymous"));
    assert_eq!(step(start(None, None), issued("t")), done("t"));
}

#[test]
fn a_bearer_token_is_verified_by_next_where_delegated() {
    let asking = start(bearer("tok"), Some("http://next/"));
    match &asking {
        TokenExchange::AskNext { verification: NextVerification::Send { request } } => {
            assert_eq!(request.url, "http://next/api/auth/verify");
            assert_eq!(request.headers[0].1, "Bearer tok");
        }
        other => panic!("expected a request, got {other:?}"),
    }
    let reading = step(asking, TokenEvent::Next(NextEvent::Responded(200)));
    let known = step(
        reading,
        TokenEvent::Next(NextEvent::Body(NextAuthUserInfo { username: "NextUser".to_string() })),
    );
    assert_eq!(known, issue("nextuser"));
    assert_eq!(step(known, issued("jwt")), done("jwt"));
}

#[test]
fn a_token_that_next_refuses_buys_nothing() {
    let asking = start(bearer("tok"), Some("http://next"));
    assert_eq!(
        step(asking, TokenEvent::Next(NextEvent::Responded(403))),
        TokenExchange::Done(Err(AppError::Unauthorized {
            msg: "Token verification failed".to_string(),
            auth_url: None
        }))
    );
}

#[test]
fn a_bearer_token_is_decoded_where_nothing_is_delegated() {
    let decoding = || start(bearer("tok"), None);
    assert_eq!(
        decoding(),
        TokenExchange::DecodeToken {
            secret: "test-secret".to_string(),
            token: "tok".to_string()
        }
    );
    let claims = Claims { sub: "Bob".to_string(), exp: 9 };
    assert_eq!(step(decoding(), TokenEvent::Decoded(Ok(claims))), issue("Bob"));
    assert_eq!(
        step(decoding(), TokenEvent::Decoded(Err(error()))),
        TokenExchange::Done(Err(error()))
    );
}

#[test]
fn a_password_buys_a_token_for_the_canonical_name() {
    for next in [None, Some("http://next")] {
        let found = step(start(basic(), next), TokenEvent::UserFound(Ok(alice())));
        assert_eq!(
            found,
            TokenExchange::IssueToken { order: order("alice"), then_check: Some(check()) }
        );
        let held = step(found, issued("jwt"));
        assert_eq!(
            held,
            TokenExchange::CheckPassword { check: check(), token: "jwt".to_string() }
        );
        assert_eq!(step(held, TokenEvent::PasswordChecked(Ok(()))), done("jwt"));
    }
}

#[test]
fn no_token_is_handed_out_before_the_password_is_checked() {
    let held = || {
        let found = step(start(basic(), None), TokenEvent::UserFound(Ok(alice())));
        step(found, issued("jwt"))
    };
    assert_eq!(step(held(), issued("other")), held());
    assert_eq!(
        step(held(), TokenEvent::PasswordChecked(Err(error()))),
        TokenExchange::Done(Err(error()))
    );
    assert_eq!(
        step(held(), TokenEvent::CheckAborted("task panicked".to_string())),
        TokenExchange::Done(Err(AppError::Internal("task panicked".to_string())))
    );
}

#[test]
fn an_unknown_user_gets_no_token() {
    assert_eq!(
        step(start(basic(), None), TokenEvent::UserFound(Err(error()))),
        TokenExchange::Done(Err(error()))
    );
}

#[test]
fn the_response_is_valid_as_long_as_the_token_that_was_ordered() {
    let ordered = match start(None, None) {
        TokenExchange::IssueToken { order, .. } => order,
        other => panic!("expected an order, got {other:?}"),
    };
    let response = AuthResponse::issued_now("jwt".to_string(), &settings());
    assert_eq!(response.expires_in, ordered.lifetime_secs);
}

/// A token that the registry issued is accepted by it, also where verification is
/// delegated.
#[test]
fn an_issued_token_identifies_its_subject() {
    let token = match step(start(None, Some("http://other")), issued("jwt-anonymous")) {
        TokenExchange::Done(Ok(token)) => token,
        other => panic!("expected a token, got {other:?}"),
    };
    let decoding = extract_claims(
        bearer(&token),
        &settings().secret,
        "http://registry",
        Some("http://next"),
    );
    let claims = || Claims { sub: "anonymous".to_string(), exp: 3600 };
    assert_eq!(
        decoding.step(ExtractionEvent::Decoded(Ok(claims()))),
        ClaimsExtraction::Done(Ok(claims()))
    );
}

#[test]
fn the_response_carries_the_token_twice() {
    let response = AuthResponse::new("jwt".to_string(), &settings(), "now".to_string());
    assert_eq!(response.token, "jwt");
    assert_eq!(response.access_token, "jwt");
    assert_eq!(response.expires_in, 3600);
    assert_eq!(response.issued_at, "now");
}

#[test]
fn the_response_is_dated_at_the_given_moment() {
    let moment = Timestamp { secs: 1431648061, nanos: 453_000_000 };
    assert_eq!(
        AuthResponse::issued_at("jwt".to_string(), &settings(), moment),
        Some(AuthResponse {
            token: "jwt".to_string(),
            access_token: "jwt".to_string(),
            expires_in: 3600,
            issued_at: "2015-05-15T00:01:01.453+00:00".to_string(),
        })
    );
    let before_the_epoch = Timestamp { secs: -1, nanos: 0 };
    assert_eq!(
        AuthResponse::issued_at("jwt".to_string(), &settings(), before_the_epoch).unwrap().issued_at,
        "1969-12-31T23:59:59+00:00"
    );
    let no_moment = Timestamp { secs: i64::MIN, nanos: 0 };
    assert_eq!(AuthResponse::issued_at("jwt".to_string(), &settings(), no_moment), None);
}

#[test]
fn the_response_is_dated_in_rfc_3339() {
    let settings = TokenSettings { lifetime_secs: -1, secret: "k".to_string() };
    let response = AuthResponse::issued_now("jwt".to_string(), &settings);
    assert_eq!(response.access_token, "jwt");
    assert_eq!(response.expires_in, -1);
    let issued_at = chrono::DateTime::parse_from_rfc3339(&response.issued_at).unwrap();
    let age = chrono::Utc::now().signed_duration_since(issued_at);
    assert!(age.num_seconds().abs() < 60);
    assert!(response.issued_at.ends_with("+00:00"));
}

#[test]
fn moments_are_written_in_utc() {
    let moment = Timestamp { secs: 1431648000, nanos: 0 };
    assert_eq!(moment.rfc3339().unwrap(), "2015-05-15T00:00:00+00:00");
    let later = Timestamp { secs: 1431648061, nanos: 453_000_000 };
    assert_eq!(later.rfc3339().unwrap(), "2015-05-15T00:01:01.453+00:00");
    assert_eq!(Timestamp { secs: i64::MAX, nanos: 0 }.rfc3339(), None);
    assert_eq!(Timestamp { secs: 0, nanos: 2_000_000_000 }.rfc3339(), None);
}

#[test]
fn the_current_moment_is_one_of_the_calendar() {
    let now = Timestamp::now();
    assert!(now.secs > 1_600_000_000);
    assert!(now.nanos < 1_000_000_000);
    assert!(now.rfc3339().is_some());
}
