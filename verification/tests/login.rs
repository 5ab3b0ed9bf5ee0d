use registry_auth::github::OAuthCallbackRequest;
use registry_auth::login::{
    callback_page, client, login, login_notice, try_next_login, try_open_browser, BrowserCommand,
    HostSystem, Login, LoginArgs, LoginEvent, NextLogin, NextLoginEvent,
};
use registry_auth::login_url::{checked_login_url, LoginUrlQuery};
use registry_auth::next::{verify_token_with_next, NextAuthUserInfo, NextEvent, NextVerification};

fn text(s: &str) -> String {
    s.to_string()
}

fn waiting() -> NextLogin {
    try_next_login()
        .step(NextLoginEvent::Bound(Ok(19999)))
        .step(NextLoginEvent::LoginUrl(Ok(text("https://next/auth/login"))))
}

fn connected() -> Login {
    login(LoginArgs { url: Some(text("reg:5000")), skip_tls_verify: true })
        .step(LoginEvent::ConfigLoaded(Ok(())))
        .step(LoginEvent::TlsDecided(true))
        .step(LoginEvent::Connected(Ok(())))
}

fn authorization() -> OAuthCallbackRequest {
    OAuthCallbackRequest {
        access_token: text("gho"),
        token_type: text("bearer"),
        scope: text("read:user"),
    }
}

#[test]
fn rkforge_callback_receives_token() {
    let end = waiting().step(NextLoginEvent::Waited {
        timed_out: false,
        received: Some(text("my-next-jwt-token")),
    });
    assert_eq!(end, NextLogin::Done(Ok(text("my-next-jwt-token"))));
}

#[test]
fn end_to_end_auth_flow_simulation() {
    let next_url = "http://127.0.0.1:4000";
    let asking = try_next_login().step(NextLoginEvent::Bound(Ok(19999)));
    let callback_url = match &asking {
        NextLogin::RequestLoginUrl { callback_url, .. } => callback_url.clone(),
        other => panic!("expected a request, got {other:?}"),
    };
    assert_eq!(callback_url, "http://127.0.0.1:19999/callback");
    let login_url = checked_login_url(Some(next_url), &LoginUrlQuery { callback_url })
        .unwrap()
        .unwrap();
    let end = asking
        .step(NextLoginEvent::LoginUrl(Ok(login_url)))
        .step(NextLoginEvent::Waited { timed_out: false, received: Some(text("valid-next-token")) });
    let token = match end {
        NextLogin::Done(Ok(token)) => token,
        other => panic!("expected a token, got {other:?}"),
    };
    let asked = verify_token_with_next(next_url, &token);
    match &asked {
        NextVerification::Send { request } => {
            assert_eq!(request.url, "http://127.0.0.1:4000/api/auth/verify");
            assert_eq!(request.headers[0].1, "Bearer valid-next-token");
        }
        other => panic!("expected a request, got {other:?}"),
    }
    let verdict = asked
        .step(NextEvent::Responded(200))
        .step(NextEvent::Body(NextAuthUserInfo { username: text("nextuser") }));
    match verdict {
        NextVerification::Done(Ok(claims)) => assert_eq!(claims.sub, "nextuser"),
        other => panic!("expected claims, got {other:?}"),
    }
    let stolen = verify_token_with_next(next_url, "stolen-token").step(NextEvent::Responded(401));
    assert!(matches!(stolen, NextVerification::Done(Err(_))));
}

#[test]
fn the_callback_is_awaited_on_the_bound_port() {
    assert_eq!(try_next_login(), NextLogin::Bind { address: text("127.0.0.1:0") });
    assert_eq!(
        try_next_login().step(NextLoginEvent::Bound(Ok(8080))),
        NextLogin::RequestLoginUrl {
            path: text("api/v1/auth/next/login_url"),
            callback_url: text("http://127.0.0.1:8080/callback")
        }
    );
    assert_eq!(
        waiting(),
        NextLogin::AwaitCallback {
            login_url: text("https://next/auth/login"),
            timeout_secs: 300
        }
    );
}

#[test]
fn a_login_through_next_can_fail_at_each_step() {
    assert_eq!(
        try_next_login().step(NextLoginEvent::Bound(Err(text("in use")))),
        NextLogin::Done(Err(text("in use")))
    );
    assert_eq!(
        try_next_login()
            .step(NextLoginEvent::Bound(Ok(1)))
            .step(NextLoginEvent::LoginUrl(Err(text("404")))),
        NextLogin::Done(Err(text("404")))
    );
    assert_eq!(
        waiting().step(NextLoginEvent::Waited { timed_out: true, received: Some(text("late")) }),
        NextLogin::Done(Err(text("Login timed out after 5 minutes")))
    );
    assert_eq!(
        waiting().step(NextLoginEvent::Waited { timed_out: false, received: None }),
        NextLogin::Done(Err(text("No token received")))
    );
    assert_eq!(waiting().step(NextLoginEvent::Bound(Ok(2))), waiting());
}

#[test]
fn the_registry_is_the_one_named_or_the_only_one() {
    assert_eq!(
        login(LoginArgs { url: Some(text("reg:5000")), skip_tls_verify: true })
            .step(LoginEvent::ConfigLoaded(Ok(()))),
        Login::DecideTls { registry: text("reg:5000"), skip_tls_verify: true }
    );
    let picking = login(LoginArgs { url: None, skip_tls_verify: false })
        .step(LoginEvent::ConfigLoaded(Ok(())));
    assert_eq!(picking, Login::PickSingleEntry { skip_tls_verify: false });
    assert_eq!(
        picking.step(LoginEvent::SingleEntry(Ok(text("only")))),
        Login::DecideTls { registry: text("only"), skip_tls_verify: false }
    );
}

#[test]
fn the_client_follows_the_decision_on_tls() {
    for (asked, decided) in [(false, false), (false, true), (true, false), (true, true)] {
        let connecting = login(LoginArgs { url: Some(text("r")), skip_tls_verify: asked })
            .step(LoginEvent::ConfigLoaded(Ok(())))
            .step(LoginEvent::TlsDecided(decided));
        assert_eq!(
            connecting,
            Login::Connect { registry: text("r"), settings: client(decided) }
        );
    }
}

#[test]
fn a_token_from_next_is_saved() {
    assert_eq!(connected(), Login::TryNext { registry: text("reg:5000") });
    let saving = connected().step(LoginEvent::NextToken(Ok(text("tok"))));
    assert_eq!(saving, Login::Save { registry: text("reg:5000"), token: text("tok") });
    assert_eq!(
        saving.step(LoginEvent::Saved(Ok(()))),
        Login::Done(Ok(text("Logged in successfully!")))
    );
}

#[test]
fn github_is_the_fallback() {
    let asking = connected().step(LoginEvent::NextToken(Err(text("not configured"))));
    assert_eq!(
        asking,
        Login::RequestClientId {
            registry: text("reg:5000"),
            path: text("api/v1/auth/github/client_id")
        }
    );
    let authorizing = asking.step(LoginEvent::ClientId(Ok(text("Iv1"))));
    assert_eq!(
        authorizing,
        Login::Authorize { registry: text("reg:5000"), client_id: text("Iv1") }
    );
    let posting = authorizing.step(LoginEvent::Authorized(Ok(authorization())));
    assert_eq!(
        posting,
        Login::PostCallback {
            registry: text("reg:5000"),
            path: text("api/v1/auth/github/callback"),
            body: authorization()
        }
    );
    assert_eq!(
        posting.step(LoginEvent::Pat(Ok(text("pat")))),
        Login::Save { registry: text("reg:5000"), token: text("pat") }
    );
}

#[test]
fn a_login_can_fail_at_each_step() {
    let failed = || Login::Done(Err(text("no")));
    let no = || text("no");
    let start = || login(LoginArgs { url: None, skip_tls_verify: false });
    assert_eq!(start().step(LoginEvent::ConfigLoaded(Err(no()))), failed());
    let picking = || start().step(LoginEvent::ConfigLoaded(Ok(())));
    assert_eq!(picking().step(LoginEvent::SingleEntry(Err(no()))), failed());
    let connecting = || {
        picking()
            .step(LoginEvent::SingleEntry(Ok(text("r"))))
            .step(LoginEvent::TlsDecided(false))
    };
    assert_eq!(connecting().step(LoginEvent::Connected(Err(no()))), failed());
    let asking = || connected().step(LoginEvent::NextToken(Err(no())));
    assert_eq!(asking().step(LoginEvent::ClientId(Err(no()))), failed());
    let authorizing = || asking().step(LoginEvent::ClientId(Ok(text("id"))));
    assert_eq!(authorizing().step(LoginEvent::Authorized(Err(no()))), failed());
    let posting = || authorizing().step(LoginEvent::Authorized(Ok(authorization())));
    assert_eq!(posting().step(LoginEvent::Pat(Err(no()))), failed());
    let saving = || posting().step(LoginEvent::Pat(Ok(text("pat"))));
    assert_eq!(saving().step(LoginEvent::Saved(Err(no()))), failed());
    assert_eq!(failed().step(LoginEvent::Saved(Ok(()))), failed());
}

#[test]
fn the_client_asks_for_json() {
    let settings = client(true);
    assert_eq!(settings.headers, vec![(text("Accept"), text("application/json"))]);
    assert!(settings.accept_invalid_certs);
    assert!(!client(false).accept_invalid_certs);
}

#[test]
fn each_system_has_its_way_to_open_a_browser() {
    let command = |program: &str, args: Vec<String>| {
        Some(BrowserCommand { program: program.to_string(), args })
    };
    assert_eq!(
        try_open_browser(HostSystem::Linux, "u"),
        command("xdg-open", vec![text("u")])
    );
    assert_eq!(try_open_browser(HostSystem::MacOs, "u"), command("open", vec![text("u")]));
    assert_eq!(
        try_open_browser(HostSystem::Windows, "u"),
        command("cmd", vec![text("/C"), text("start"), text("u")])
    );
    assert_eq!(try_open_browser(HostSystem::Other, "u"), None);
}

#[test]
fn the_user_is_told_where_to_go_and_that_it_worked() {
    assert_eq!(
        login_notice("https://n"),
        "Open the following URL in your browser to log in:\n  https://n"
    );
    assert!(callback_page().contains("<h1>Login successful!</h1>"));
    assert_eq!(
        callback_page(),
        "<html><body><h1>Login successful!</h1>\
         <p>You can close this window and return to the terminal.</p>\
         </body></html>"
    );
}
