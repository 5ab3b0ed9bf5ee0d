use registry_auth::error::AppError;
use registry_auth::extract::{extract_claims, ClaimsExtraction, ExtractionEvent};
use registry_auth::header::AuthHeader;
use registry_auth::identity::{Claims, User};
use registry_auth::next::{NextAuthUserInfo, NextEvent, NextVerification};

fn bearer(token: &str) -> Option<AuthHeader> {
    Some(AuthHeader::Bearer { token: token.to_string() })
}

fn basic() -> Option<AuthHeader> {
    Some(AuthHeader::Basic { username: "Alice".to_string(), password: "pw".to_string() })
}

fn alice() -> User {
    User {
        github_id: 7,
        username: "alice".to_string(),
        password: "hash".to_string(),
        salt: "salt".to_string(),
    }
}

fn invalid_token() -> AppError {
    AppError::Unauthorized { msg: "Invalid token".to_string(), auth_url: None }
}

fn claims(sub: &str, exp: i64) -> Claims {
    Claims { sub: sub.to_string(), exp }
}

const SECRET: &str = "test-secret";
const REGISTRY: &str = "http://registry";
const NEXT: &str = "http://next-that-does-not-exist:9999";

#[test]
fn extract_claims_prefers_local_jwt_in_delegated_mode() {
    let start = extract_claims(bearer("jwt"), SECRET, REGISTRY, Some(NEXT));
    assert_eq!(
        start,
        ClaimsExtraction::DecodeToken {
            secret: SECRET.to_string(),
            token: "jwt".to_string(),
            next_auth_url: Some(NEXT.to_string())
        }
    );
    let end = start.step(ExtractionEvent::Decoded(Ok(claims("localuser", 3600))));
    assert_eq!(end, ClaimsExtraction::Done(Ok(claims("localuser", 3600))));
}

#[test]
fn a_foreign_token_goes_to_next_where_delegated() {
    let asked = extract_claims(bearer("foreign"), SECRET, REGISTRY, Some("http://next/"))
        .step(ExtractionEvent::Decoded(Err(invalid_token())));
    let request = match &asked {
        ClaimsExtraction::AskNext { verification: NextVerification::Send { request } } => request,
        other => panic!("expected a request, got {other:?}"),
    };
    assert_eq!(request.url, "http://next/api/auth/verify");
    assert_eq!(request.headers[0].1, "Bearer foreign");
    let reading = asked.step(ExtractionEvent::Next(NextEvent::Responded(200)));
    assert_eq!(
        reading,
        ClaimsExtraction::AskNext { verification: NextVerification::ReadBody }
    );
    let end = reading.step(ExtractionEvent::Next(NextEvent::Body(NextAuthUserInfo {
        username: "NextUser".to_string(),
    })));
    assert_eq!(end, ClaimsExtraction::Done(Ok(claims("nextuser", 0))));
}

#[test]
fn a_foreign_token_is_refused_where_next_refuses_it() {
    let end = extract_claims(bearer("stolen"), SECRET, REGISTRY, Some(NEXT))
        .step(ExtractionEvent::Decoded(Err(invalid_token())))
        .step(ExtractionEvent::Next(NextEvent::Responded(401)));
    assert_eq!(
        end,
        ClaimsExtraction::Done(Err(AppError::Unauthorized {
            msg: "Token verification failed".to_string(),
            auth_url: None
        }))
    );
}

#[test]
fn a_foreign_token_is_refused_where_nothing_is_delegated() {
    let end = extract_claims(bearer("foreign"), SECRET, REGISTRY, None)
        .step(ExtractionEvent::Decoded(Err(invalid_token())));
    assert_eq!(end, ClaimsExtraction::Done(Err(invalid_token())));
}

#[test]
fn a_password_is_checked_against_the_record() {
    let found = extract_claims(basic(), SECRET, REGISTRY, None)
        .step(ExtractionEvent::UserFound(Ok(alice())));
    assert_eq!(
        found,
        ClaimsExtraction::CheckPassword {
            username: "Alice".to_string(),
            salt: "salt".to_string(),
            hash: "hash".to_string(),
            password: "pw".to_string()
        }
    );
    let end = found.step(ExtractionEvent::PasswordChecked(Ok(())));
    assert_eq!(end, ClaimsExtraction::Done(Ok(claims("Alice", 0))));
}

#[test]
fn a_wrong_password_is_refused() {
    let end = extract_claims(basic(), SECRET, REGISTRY, None)
        .step(ExtractionEvent::UserFound(Ok(alice())))
        .step(ExtractionEvent::PasswordChecked(Err(invalid_token())));
    assert_eq!(end, ClaimsExtraction::Done(Err(invalid_token())));
}

#[test]
fn an_unknown_user_is_refused() {
    let unknown = || AppError::BadRequest("no such user".to_string());
    let end = extract_claims(basic(), SECRET, REGISTRY, None)
        .step(ExtractionEvent::UserFound(Err(unknown())));
    assert_eq!(end, ClaimsExtraction::Done(Err(unknown())));
}

#[test]
fn a_password_is_not_supported_where_delegated() {
    assert_eq!(
        extract_claims(basic(), SECRET, REGISTRY, Some(NEXT)),
        ClaimsExtraction::Done(Err(AppError::Unauthorized {
            msg: "Basic auth is not supported with delegated authentication".to_string(),
            auth_url: Some(REGISTRY.to_string())
        }))
    );
}

#[test]
fn missing_credentials_are_refused() {
    let refused = || {
        ClaimsExtraction::Done(Err(AppError::Unauthorized {
            msg: "Missing `authorization` header or invalid `authorization` header".to_string(),
            auth_url: Some(REGISTRY.to_string()),
        }))
    };
    assert_eq!(extract_claims(None, SECRET, REGISTRY, None), refused());
    assert_eq!(extract_claims(None, SECRET, REGISTRY, Some(NEXT)), refused());
    assert_eq!(
        refused().step(ExtractionEvent::Decoded(Ok(claims("mallory", 1)))),
        refused()
    );
}
