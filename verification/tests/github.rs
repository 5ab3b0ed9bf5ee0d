use registry_auth::error::AppError;
use registry_auth::github::{
    client_id, oauth_callback, request_access_token, request_user_info, OAuthCallbackRequest,
    RequestAccessTokenResponse, SignIn, SignInEvent, SignedIn, UserInfo,
};
use registry_auth::http::Method;
use registry_auth::identity::{TokenOrder, TokenSettings, User};

fn request() -> OAuthCallbackRequest {
    OAuthCallbackRequest {
        access_token: "gho_x".to_string(),
        token_type: "bearer".to_string(),
        scope: "read:user".to_string(),
    }
}

fn info() -> UserInfo {
    UserInfo { login: "LingBou".to_string(), id: 42 }
}

fn pair(name: &str, value: &str) -> (String, String) {
    (name.to_string(), value.to_string())
}

fn error() -> AppError {
    AppError::Internal("broken".to_string())
}

fn only_github() -> AppError {
    AppError::BadRequest("Only support github provider".to_string())
}

fn settings() -> TokenSettings {
    TokenSettings { lifetime_secs: 3600, secret: "test-secret".to_string() }
}

fn order(subject: &str) -> TokenOrder {
    TokenOrder {
        lifetime_secs: 3600,
        secret: "test-secret".to_string(),
        subject: subject.to_string(),
    }
}

fn step(sign_in: SignIn, event: SignInEvent) -> SignIn {
    sign_in.step(event, &settings())
}

fn issued() -> SignInEvent {
    SignInEvent::Issued("jwt".to_string())
}

fn signing_in() -> SignIn {
    step(oauth_callback("github", request()), SignInEvent::Account(Ok(info())))
}

fn new_user() -> SignIn {
    let generating = step(signing_in(), SignInEvent::UserFound(Err(error())));
    step(
        generating,
        SignInEvent::Secrets { salt: "s".to_string(), password: "p".to_string() },
    )
}

fn hashed() -> SignIn {
    step(new_user(), SignInEvent::Hashed(Ok("h".to_string())))
}

fn record() -> User {
    User {
        github_id: 42,
        username: "lingbou".to_string(),
        password: "h".to_string(),
        salt: "s".to_string(),
    }
}

#[test]
fn github_is_asked_with_the_access_token() {
    let asked = request_user_info("gho_x");
    assert_eq!(asked.method, Method::Get);
    assert_eq!(asked.url, "https://api.github.com/user");
    assert_eq!(
        asked.headers,
        vec![pair("User-Agent", "distribution"), pair("Authorization", "token gho_x")]
    );
    assert_eq!(oauth_callback("github", request()), SignIn::AskGithub { request: asked });
}

#[test]
fn an_access_token_is_requested_with_a_form() {
    let asked = request_access_token("c", "id", "secret");
    assert_eq!(asked.method, Method::Post);
    assert_eq!(asked.url, "https://github.com/login/oauth/access_token");
    assert_eq!(asked.headers, vec![pair("Accept", "application/json")]);
    assert_eq!(
        asked.form,
        vec![pair("code", "c"), pair("client_id", "id"), pair("client_secret", "secret")]
    );
    let answer = RequestAccessTokenResponse {
        access_token: "gho_x".to_string(),
        token_type: "bearer".to_string(),
        scope: String::new(),
    };
    assert_eq!(request_user_info(&answer.access_token).headers[1].1, "token gho_x");
}

#[test]
fn other_providers_are_refused() {
    assert_eq!(oauth_callback("gitlab", request()), SignIn::Done(Err(only_github())));
    assert_eq!(oauth_callback("GitHub", request()), SignIn::Done(Err(only_github())));
    assert_eq!(client_id("gitlab", "id"), Err(only_github()));
    assert_eq!(client_id("", "id"), Err(only_github()));
}

#[test]
fn the_client_id_is_handed_out_for_github() {
    assert_eq!(client_id("github", "Iv1.abc"), Ok("Iv1.abc".to_string()));
}

#[test]
fn a_known_user_gets_a_token_for_the_canonical_name() {
    let known = User { username: "Old-Name".to_string(), ..record() };
    let issuing = step(signing_in(), SignInEvent::UserFound(Ok(known)));
    assert_eq!(issuing, SignIn::IssueToken { order: order("old-name") });
    assert_eq!(
        step(issuing, issued()),
        SignIn::Done(Ok(SignedIn { status: 200, pat: "jwt".to_string() }))
    );
}

#[test]
fn a_new_user_is_put_on_record_and_gets_a_token() {
    assert_eq!(
        new_user(),
        SignIn::HashPassword {
            info: info(),
            salt: "s".to_string(),
            password: "p".to_string()
        }
    );
    assert_eq!(
        hashed(),
        SignIn::IssueFirstToken { order: order("lingbou"), user: record() }
    );
    let creating = step(hashed(), issued());
    assert_eq!(creating, SignIn::CreateUser { user: record(), pat: "jwt".to_string() });
    assert_eq!(
        step(creating, SignInEvent::UserCreated(Ok(()))),
        SignIn::Done(Ok(SignedIn { status: 201, pat: "jwt".to_string() }))
    );
}

#[test]
fn failures_end_the_sign_in() {
    let asking = oauth_callback("github", request());
    assert_eq!(
        step(asking, SignInEvent::Account(Err("no route".to_string()))),
        SignIn::Done(Err(AppError::Internal("no route".to_string())))
    );
    assert_eq!(
        step(new_user(), SignInEvent::Hashed(Err(error()))),
        SignIn::Done(Err(error()))
    );
    assert_eq!(
        step(step(hashed(), issued()), SignInEvent::UserCreated(Err(error()))),
        SignIn::Done(Err(error()))
    );
}

#[test]
fn events_out_of_turn_do_not_sign_in() {
    assert_eq!(step(signing_in(), issued()), signing_in());
    assert_eq!(step(new_user(), issued()), new_user());
    let refused = || oauth_callback("gitlab", request());
    assert_eq!(step(refused(), issued()), refused());
}
