use registry_auth::error::AppError;
use registry_auth::header::AuthHeader;
use registry_auth::http::{is_success, HttpRequest, Method};
use registry_auth::identity::Claims;
use registry_auth::next::{
    verify_token_with_next, NextAuthUserInfo, NextEvent, NextVerification,
};

fn sent(verification: NextVerification) -> HttpRequest {
    match verification {
        NextVerification::Send { request } => request,
        other => panic!("expected a request, got {other:?}"),
    }
}

fn verdict(verification: NextVerification) -> Result<Claims, AppError> {
    match verification {
        NextVerification::Done(verdict) => verdict,
        other => panic!("expected a verdict, got {other:?}"),
    }
}

fn unauthorized(msg: &str) -> Result<Claims, AppError> {
    Err(AppError::Unauthorized { msg: msg.to_string(), auth_url: None })
}

fn vouched(username: &str) -> NextEvent {
    NextEvent::Body(NextAuthUserInfo { username: username.to_string() })
}

/// A Next program that knows one token.
fn mock_verify(request: &HttpRequest) -> (u16, Option<&'static str>) {
    let auth = &request.headers[0];
    assert_eq!(auth.0, "Authorization");
    if auth.1.strip_prefix("Bearer ") == Some("valid-next-token") {
        (200, Some("nextuser"))
    } else {
        (401, None)
    }
}

#[test]
fn verify_token_with_next_success() {
    let result = verdict(
        verify_token_with_next("http://127.0.0.1:4000", "valid-token")
            .step(NextEvent::Responded(200))
            .step(vouched("testuser")),
    );
    let claims = result.unwrap();
    assert_eq!(claims.sub, "testuser");
}

#[test]
fn verify_token_with_next_unauthorized() {
    let result = verdict(
        verify_token_with_next("http://127.0.0.1:4000", "invalid-token")
            .step(NextEvent::Responded(401)),
    );
    assert!(result.is_err());
    assert_eq!(result, unauthorized("Token verification failed"));
}

#[test]
fn verify_token_with_next_trims_trailing_slash() {
    let start = verify_token_with_next("http://127.0.0.1:4000/", "token");
    assert_eq!(start, verify_token_with_next("http://127.0.0.1:4000", "token"));
    assert_eq!(start, verify_token_with_next("http://127.0.0.1:4000///", "token"));
    let claims = verdict(start.step(NextEvent::Responded(200)).step(vouched("slashuser"))).unwrap();
    assert_eq!(claims.sub, "slashuser");
}

#[test]
fn verify_token_with_next_canonicalizes_username() {
    let result = verdict(
        verify_token_with_next("http://127.0.0.1:4000", "valid-token")
            .step(NextEvent::Responded(200))
            .step(vouched("MixedCase")),
    );
    let claims = result.unwrap();
    assert_eq!(claims.sub, "mixedcase");
    assert_eq!(claims.exp, 0);
}

#[test]
fn distribution_delegates_token_to_next_program() {
    let start = verify_token_with_next("http://127.0.0.1:4000", "valid-next-token");
    let request = sent(verify_token_with_next("http://127.0.0.1:4000", "valid-next-token"));
    assert_eq!(request.method, Method::Get);
    assert_eq!(request.url, "http://127.0.0.1:4000/api/auth/verify");
    assert_eq!(
        request.headers,
        vec![("Authorization".to_string(), "Bearer valid-next-token".to_string())]
    );
    assert_eq!(request.form, vec![]);
    let (status, username) = mock_verify(&request);
    assert!(is_success(status));
    let claims =
        verdict(start.step(NextEvent::Responded(status)).step(vouched(username.unwrap()))).unwrap();
    assert_eq!(claims.sub, "nextuser");
}

#[test]
fn distribution_rejects_invalid_token_via_next() {
    let request = sent(verify_token_with_next("http://127.0.0.1:4000", "bad-token"));
    assert_eq!(request.headers[0].1, "Bearer bad-token");
    let (status, _) = mock_verify(&request);
    assert_eq!(status, 401);
    let refused = verify_token_with_next("http://127.0.0.1:4000", "bad-token")
        .step(NextEvent::Responded(status));
    assert_eq!(verdict(refused), unauthorized("Token verification failed"));
}

#[test]
fn an_unreachable_next_program_is_reported() {
    let failed = verify_token_with_next("http://next", "t")
        .step(NextEvent::SendFailed("connection refused".to_string()));
    assert_eq!(
        verdict(failed),
        unauthorized("Failed to verify token with auth service: connection refused")
    );
}

#[test]
fn an_unreadable_body_is_reported() {
    let failed = verify_token_with_next("http://next", "t")
        .step(NextEvent::Responded(204))
        .step(NextEvent::BodyUnreadable("missing field".to_string()));
    assert_eq!(
        verdict(failed),
        unauthorized("Invalid response from auth service: missing field")
    );
}

#[test]
fn events_that_are_not_awaited_change_nothing() {
    let start = || verify_token_with_next("http://next", "t");
    assert_eq!(start().step(vouched("mallory")), start());
    let reading = || start().step(NextEvent::Responded(200));
    assert_eq!(reading(), NextVerification::ReadBody);
    assert_eq!(reading().step(NextEvent::Responded(500)), NextVerification::ReadBody);
    let refused = || start().step(NextEvent::Responded(403));
    assert_eq!(refused().step(vouched("mallory")), refused());
}

#[test]
fn success_is_any_status_of_the_two_hundreds() {
    assert!(!is_success(199));
    assert!(is_success(200));
    assert!(is_success(299));
    assert!(!is_success(300));
    assert!(!is_success(401));
}

#[test]
fn a_token_is_forwarded_as_it_was_read() {
    let read = AuthHeader::from_header_values(&vec![b"bearer   tok en ".to_vec()]);
    let token = match read {
        Some(AuthHeader::Bearer { token }) => token,
        other => panic!("expected a token, got {other:?}"),
    };
    let request = sent(verify_token_with_next("http://next", &token));
    let forwarded = AuthHeader::from_header_values(&vec![request.headers[0].1.as_bytes().to_vec()]);
    assert_eq!(forwarded, Some(AuthHeader::Bearer { token }));
}
