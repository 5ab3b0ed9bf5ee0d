//! The client's login: through the browser and the Next program, or else through
//! GitHub.
use vstd::prelude::*;

use crate::error::result_view;
use crate::github::{OAuthCallbackRequest, OAuthCallbackView};
use crate::text::{
    decimal, join, law_numerals_read_back, numeral_value, port_numeral,
};

verus! {

/// Where the registry answers with the address of the Next program's login page.
pub open spec fn login_url_path() -> Seq<char> {
    "api/v1/auth/next/login_url"@
}

/// Where the registry answers with its client id at GitHub.
pub open spec fn client_id_path() -> Seq<char> {
    "api/v1/auth/github/client_id"@
}

/// Where the registry takes an access token of GitHub.
pub open spec fn github_callback_path() -> Seq<char> {
    "api/v1/auth/github/callback"@
}

/// What the HTTP client is set up with.
#[derive(Debug, PartialEq, Eq)]
pub struct ClientSettings {
    /// The headers that every request carries.
    pub headers: Vec<(String, String)>,
    pub accept_invalid_certs: bool,
}

/// The model of [`ClientSettings`].
#[verifier::ext_equal]
pub struct ClientSettingsView {
    pub headers: Seq<(Seq<char>, Seq<char>)>,
    pub accept_invalid_certs: bool,
}

impl View for ClientSettings {
    type V = ClientSettingsView;

    open spec fn view(&self) -> ClientSettingsView {
        ClientSettingsView {
            headers: self.headers.deep_view(),
            accept_invalid_certs: self.accept_invalid_certs,
        }
    }
}

/// What the HTTP client is set up with: it asks for JSON, and takes certificates on
/// trust where TLS verification is to be skipped.
pub open spec fn client_settings(skip_tls_verify: bool) -> ClientSettingsView {
    ClientSettingsView {
        headers: seq![("Accept"@, "application/json"@)],
        accept_invalid_certs: skip_tls_verify,
    }
}

/// Sets up what the HTTP client is to be built with.
pub fn client(skip_tls_verify: bool) -> (r: ClientSettings)
    ensures
        r@ == client_settings(skip_tls_verify),
        r.accept_invalid_certs == skip_tls_verify,
{
    let mut headers: Vec<(String, String)> = Vec::new();
    headers.push(("Accept".to_owned(), "application/json".to_owned()));
    let settings = ClientSettings { headers, accept_invalid_certs: skip_tls_verify };
    assert(settings@ =~= client_settings(skip_tls_verify));
    settings
}

/// The systems on which the client knows how to open a browser, and all others.
#[derive(Clone, Copy, Debug, PartialEq, Eq, Structural)]
pub enum HostSystem {
    Linux,
    MacOs,
    Windows,
    Other,
}

/// A program to start, with its arguments.
#[derive(Debug, PartialEq, Eq)]
pub struct BrowserCommand {
    pub program: String,
    pub args: Vec<String>,
}

/// The program that opens a URL in the browser of a system, with its arguments.
pub open spec fn browser_command(system: HostSystem, url: Seq<char>) -> Option<
    (Seq<char>, Seq<Seq<char>>),
> {
    match system {
        HostSystem::Linux => Some(("xdg-open"@, seq![url])),
        HostSystem::MacOs => Some(("open"@, seq![url])),
        HostSystem::Windows => Some(("cmd"@, seq!["/C"@, "start"@, url])),
        HostSystem::Other => None,
    }
}

/// Which program opens a URL in the browser; `None` where the client knows of none.
pub fn try_open_browser(system: HostSystem, url: &str) -> (r: Option<BrowserCommand>)
    ensures
        (match r {
            Some(command) => Some((command.program@, command.args.deep_view())),
            None => None,
        }) == browser_command(system, url@),
{
    let mut args: Vec<String> = Vec::new();
    let program = match system {
        HostSystem::Linux => "xdg-open".to_owned(),
        HostSystem::MacOs => "open".to_owned(),
        HostSystem::Windows => {
            args.push("/C".to_owned());
            args.push("start".to_owned());
            "cmd".to_owned()
        },
        HostSystem::Other => {
            return None;
        },
    };
    args.push(url.to_owned());
    assert(browser_command(system, url@) matches Some(command) && args.deep_view() =~= command.1);
    Some(BrowserCommand { program, args })
}

/// The callback that a client on this port waits for.
pub open spec fn callback_url(port: u16) -> Seq<char> {
    "http://127.0.0.1:"@ + decimal(port as nat) + "/callback"@
}

/// What the user is told before the browser opens.
pub fn login_notice(login_url: &str) -> (r: String)
    ensures
        r@ == "Open the following URL in your browser to log in:\n  "@ + login_url@,
{
    join("Open the following URL in your browser to log in:\n  ", login_url)
}

/// The page that the browser shows once the token has arrived.
pub fn callback_page() -> (r: String)
    ensures
        r@
            == "<html><body><h1>Login successful!</h1><p>You can close this window and return to the terminal.</p></body></html>"@,
{
    "<html><body><h1>Login successful!</h1><p>You can close this window and return to the terminal.</p></body></html>".to_owned()
}

/// How far a login through the Next program has come.
#[derive(Debug, PartialEq, Eq)]
pub enum NextLogin {
    /// A server for the callback is to be bound to this address.
    Bind { address: String },
    /// The registry is to be asked at this path for the login page, with the callback as
    /// the parameter `callback_url`.
    RequestLoginUrl { path: String, callback_url: String },
    /// The user is to be sent to the login page, and the callback is awaited for so many
    /// seconds at most.
    AwaitCallback { login_url: String, timeout_secs: u64 },
    /// The token, or why there is none.
    Done(Result<String, String>),
}

/// What became of the step that a [`NextLogin`] was waiting for.
#[derive(Debug, PartialEq, Eq)]
pub enum NextLoginEvent {
    /// The port of the bound server.
    Bound(Result<u16, String>),
    /// The address of the login page.
    LoginUrl(Result<String, String>),
    /// The wait is over: whether the time ran out, and the token of the last callback.
    Waited { timed_out: bool, received: Option<String> },
}

/// The model of a [`NextLogin`].
pub enum NextLoginView {
    Bind { address: Seq<char> },
    RequestLoginUrl { path: Seq<char>, callback_url: Seq<char> },
    AwaitCallback { login_url: Seq<char>, timeout_secs: u64 },
    Done(Result<Seq<char>, Seq<char>>),
}

/// The model of a [`NextLoginEvent`].
pub enum NextLoginEventView {
    Bound(Result<u16, Seq<char>>),
    LoginUrl(Result<Seq<char>, Seq<char>>),
    Waited { timed_out: bool, received: Option<Seq<char>> },
}

impl View for NextLogin {
    type V = NextLoginView;

    open spec fn view(&self) -> NextLoginView {
        match self {
            NextLogin::Bind { address } => NextLoginView::Bind { address: address@ },
            NextLogin::RequestLoginUrl { path, callback_url } => NextLoginView::RequestLoginUrl {
                path: path@,
                callback_url: callback_url@,
            },
            NextLogin::AwaitCallback { login_url, timeout_secs } => NextLoginView::AwaitCallback {
                login_url: login_url@,
                timeout_secs: *timeout_secs,
            },
            NextLogin::Done(outcome) => NextLoginView::Done(result_view(*outcome)),
        }
    }
}

impl View for NextLoginEvent {
    type V = NextLoginEventView;

    open spec fn view(&self) -> NextLoginEventView {
        match self {
            NextLoginEvent::Bound(r) => NextLoginEventView::Bound(result_view(*r)),
            NextLoginEvent::LoginUrl(r) => NextLoginEventView::LoginUrl(result_view(*r)),
            NextLoginEvent::Waited { timed_out, received } => NextLoginEventView::Waited {
                timed_out: *timed_out,
                received: received.deep_view(),
            },
        }
    }
}

/// The first state of a login through the Next program.
pub open spec fn next_login_start() -> NextLoginView {
    NextLoginView::Bind { address: "127.0.0.1:0"@ }
}

/// What the end of the wait for the callback means.
pub open spec fn wait_outcome(timed_out: bool, received: Option<Seq<char>>) -> Result<
    Seq<char>,
    Seq<char>,
> {
    if timed_out {
        Err("Login timed out after 5 minutes"@)
    } else {
        match received {
            Some(token) => Ok(token),
            None => Err("No token received"@),
        }
    }
}

/// The next state of a login through the Next program. An event that is not awaited
/// changes nothing.
pub open spec fn next_login_step(state: NextLoginView, event: NextLoginEventView) -> NextLoginView {
    match (state, event) {
        (NextLoginView::Bind { .. }, NextLoginEventView::Bound(bound)) => match bound {
            Ok(port) => NextLoginView::RequestLoginUrl {
                path: login_url_path(),
                callback_url: callback_url(port),
            },
            Err(reason) => NextLoginView::Done(Err(reason)),
        },
        (NextLoginView::RequestLoginUrl { .. }, NextLoginEventView::LoginUrl(replied)) =>
            match replied {
                Ok(login_url) => NextLoginView::AwaitCallback { login_url, timeout_secs: 300 },
                Err(reason) => NextLoginView::Done(Err(reason)),
            },
        (
            NextLoginView::AwaitCallback { .. },
            NextLoginEventView::Waited { timed_out, received },
        ) => NextLoginView::Done(wait_outcome(timed_out, received)),
        _ => state,
    }
}

/// Starts a login through the browser and the Next program.
pub fn try_next_login() -> (r: NextLogin)
    ensures
        r@ == next_login_start(),
{
    NextLogin::Bind { address: "127.0.0.1:0".to_owned() }
}

impl NextLogin {
    /// Takes the login one step further.
    pub fn step(self, event: NextLoginEvent) -> (r: NextLogin)
        ensures
            r@ == next_login_step(self@, event@),
    {
        match (self, event) {
            (NextLogin::Bind { .. }, NextLoginEvent::Bound(bound)) => match bound {
                Ok(port) => NextLogin::RequestLoginUrl {
                    path: "api/v1/auth/next/login_url".to_owned(),
                    callback_url: join(
                        join("http://127.0.0.1:", port_numeral(port).as_str()).as_str(),
                        "/callback",
                    ),
                },
                Err(reason) => NextLogin::Done(Err(reason)),
            },
            (NextLogin::RequestLoginUrl { .. }, NextLoginEvent::LoginUrl(replied)) => {
                match replied {
                    Ok(login_url) => NextLogin::AwaitCallback { login_url, timeout_secs: 300 },
                    Err(reason) => NextLogin::Done(Err(reason)),
                }
            },
            (
                NextLogin::AwaitCallback { .. },
                NextLoginEvent::Waited { timed_out, received },
            ) => {
                if timed_out {
                    NextLogin::Done(Err("Login timed out after 5 minutes".to_owned()))
                } else {
                    match received {
                        Some(token) => NextLogin::Done(Ok(token)),
                        None => NextLogin::Done(Err("No token received".to_owned())),
                    }
                }
            },
            (state, _) => state,
        }
    }
}

/// Everything outside a login through the Next program that it can ask. `login_url`
/// takes a path and a callback; `wait` takes the address of the login page.
pub struct NextLoginWorld {
    pub bind: spec_fn(Seq<char>) -> Result<u16, Seq<char>>,
    pub login_url: spec_fn(Seq<char>, Seq<char>) -> Result<Seq<char>, Seq<char>>,
    pub wait: spec_fn(Seq<char>, u64) -> (bool, Option<Seq<char>>),
}

/// The event with which the world answers the state.
pub open spec fn next_login_answer(
    state: NextLoginView,
    world: NextLoginWorld,
) -> NextLoginEventView {
    match state {
        NextLoginView::Bind { address } => NextLoginEventView::Bound((world.bind)(address)),
        NextLoginView::RequestLoginUrl { path, callback_url } => NextLoginEventView::LoginUrl(
            (world.login_url)(path, callback_url),
        ),
        NextLoginView::AwaitCallback { login_url, timeout_secs } => {
            let (timed_out, received) = (world.wait)(login_url, timeout_secs);
            NextLoginEventView::Waited { timed_out, received }
        },
        NextLoginView::Done(_) => NextLoginEventView::Waited { timed_out: true, received: None },
    }
}

/// The state after `n` answers of the world.
pub open spec fn next_login_run(
    state: NextLoginView,
    world: NextLoginWorld,
    n: nat,
) -> NextLoginView
    decreases n,
{
    if n == 0 {
        state
    } else {
        next_login_run(
            next_login_step(state, next_login_answer(state, world)),
            world,
            (n - 1) as nat,
        )
    }
}

/// How a login through the Next program ends.
pub open spec fn next_login_outcome(world: NextLoginWorld) -> Result<Seq<char>, Seq<char>> {
    match (world.bind)("127.0.0.1:0"@) {
        Err(reason) => Err(reason),
        Ok(port) => match (world.login_url)(login_url_path(), callback_url(port)) {
            Err(reason) => Err(reason),
            Ok(login_url) => {
                let (timed_out, received) = (world.wait)(login_url, 300);
                wait_outcome(timed_out, received)
            },
        },
    }
}

/// Whatever the world answers, a login through the Next program ends within three
/// answers, and it ends as it is to end.
pub proof fn law_next_login_ends_with_the_outcome(world: NextLoginWorld)
    ensures
        next_login_run(next_login_start(), world, 3) == NextLoginView::Done(
            next_login_outcome(world),
        ),
{
    reveal_with_fuel(next_login_run, 4);
}

/// The end of a login through the Next program is final: no event changes it.
pub proof fn law_next_login_outcome_is_final(
    outcome: Result<Seq<char>, Seq<char>>,
    event: NextLoginEventView,
)
    ensures
        next_login_step(NextLoginView::Done(outcome), event) == NextLoginView::Done(outcome),
{
}

/// The token of a login through the Next program is the one that the callback brought,
/// in time.
pub proof fn law_next_login_token_came_by_callback(world: NextLoginWorld)
    ensures
        next_login_outcome(world) matches Ok(token) ==> {
            &&& (world.bind)("127.0.0.1:0"@) matches Ok(port)
            &&& (world.login_url)(login_url_path(), callback_url(port)) matches Ok(login_url)
            &&& (world.wait)(login_url, 300) == (false, Some(token))
        },
{
}

/// What the user asks for.
#[derive(Debug, PartialEq, Eq)]
pub struct LoginArgs {
    /// The registry, as `host[:port]`; not needed where only one is configured.
    pub url: Option<String>,
    /// Whether TLS certificates of the registry are taken on trust.
    pub skip_tls_verify: bool,
}

/// How far a login has come.
#[derive(Debug, PartialEq, Eq)]
pub enum Login {
    /// The configuration is to be loaded.
    LoadConfig { url: Option<String>, skip_tls_verify: bool },
    /// The only registry that is configured is to be found.
    PickSingleEntry { skip_tls_verify: bool },
    /// It is to be decided whether TLS verification is skipped for this registry, given
    /// whether the user asked for it.
    DecideTls { registry: String, skip_tls_verify: bool },
    /// A client for the registry is to be built with these settings.
    Connect { registry: String, settings: ClientSettings },
    /// A login through the Next program is to be tried.
    TryNext { registry: String },
    /// The registry is to be asked at this path for its client id at GitHub.
    RequestClientId { registry: String, path: String },
    /// The user is to authorize this client at GitHub.
    Authorize { registry: String, client_id: String },
    /// The authorization is to be handed to the registry at this path.
    PostCallback { registry: String, path: String, body: OAuthCallbackRequest },
    /// The token is to be stored for the registry.
    Save { registry: String, token: String },
    /// What the user is told, or what went wrong.
    Done(Result<String, String>),
}

/// What became of the step that a [`Login`] was waiting for.
#[derive(Debug, PartialEq, Eq)]
pub enum LoginEvent {
    ConfigLoaded(Result<(), String>),
    SingleEntry(Result<String, String>),
    /// Whether TLS verification is skipped.
    TlsDecided(bool),
    Connected(Result<(), String>),
    NextToken(Result<String, String>),
    ClientId(Result<String, String>),
    Authorized(Result<OAuthCallbackRequest, String>),
    Pat(Result<String, String>),
    Saved(Result<(), String>),
}

/// The model of a [`Login`].
pub enum LoginView {
    LoadConfig { url: Option<Seq<char>>, skip_tls_verify: bool },
    PickSingleEntry { skip_tls_verify: bool },
    DecideTls { registry: Seq<char>, skip_tls_verify: bool },
    Connect { registry: Seq<char>, settings: ClientSettingsView },
    TryNext { registry: Seq<char> },
    RequestClientId { registry: Seq<char>, path: Seq<char> },
    Authorize { registry: Seq<char>, client_id: Seq<char> },
    PostCallback { registry: Seq<char>, path: Seq<char>, body: OAuthCallbackView },
    Save { registry: Seq<char>, token: Seq<char> },
    Done(Result<Seq<char>, Seq<char>>),
}

/// The model of a [`LoginEvent`].
pub enum LoginEventView {
    ConfigLoaded(Result<(), Seq<char>>),
    SingleEntry(Result<Seq<char>, Seq<char>>),
    TlsDecided(bool),
    Connected(Result<(), Seq<char>>),
    NextToken(Result<Seq<char>, Seq<char>>),
    ClientId(Result<Seq<char>, Seq<char>>),
    Authorized(Result<OAuthCallbackView, Seq<char>>),
    Pat(Result<Seq<char>, Seq<char>>),
    Saved(Result<(), Seq<char>>),
}

impl View for Login {
    type V = LoginView;

    open spec fn view(&self) -> LoginView {
        match self {
            Login::LoadConfig { url, skip_tls_verify } => LoginView::LoadConfig {
                url: url.deep_view(),
                skip_tls_verify: *skip_tls_verify,
            },
            Login::PickSingleEntry { skip_tls_verify } => LoginView::PickSingleEntry {
                skip_tls_verify: *skip_tls_verify,
            },
            Login::DecideTls { registry, skip_tls_verify } => LoginView::DecideTls {
                registry: registry@,
                skip_tls_verify: *skip_tls_verify,
            },
            Login::Connect { registry, settings } => LoginView::Connect {
                registry: registry@,
                settings: settings@,
            },
            Login::TryNext { registry } => LoginView::TryNext { registry: registry@ },
            Login::RequestClientId { registry, path } => LoginView::RequestClientId {
                registry: registry@,
                path: path@,
            },
            Login::Authorize { registry, client_id } => LoginView::Authorize {
                registry: registry@,
                client_id: client_id@,
            },
            Login::PostCallback { registry, path, body } => LoginView::PostCallback {
                registry: registry@,
                path: path@,
                body: body@,
            },
            Login::Save { registry, token } => LoginView::Save {
                registry: registry@,
                token: token@,
            },
            Login::Done(outcome) => LoginView::Done(result_view(*outcome)),
        }
    }
}

impl View for LoginEvent {
    type V = LoginEventView;

    open spec fn view(&self) -> LoginEventView {
        match self {
            LoginEvent::ConfigLoaded(r) => LoginEventView::ConfigLoaded(result_view(*r)),
            LoginEvent::SingleEntry(r) => LoginEventView::SingleEntry(result_view(*r)),
            LoginEvent::TlsDecided(skip) => LoginEventView::TlsDecided(*skip),
            LoginEvent::Connected(r) => LoginEventView::Connected(result_view(*r)),
            LoginEvent::NextToken(r) => LoginEventView::NextToken(result_view(*r)),
            LoginEvent::ClientId(r) => LoginEventView::ClientId(result_view(*r)),
            LoginEvent::Authorized(r) => LoginEventView::Authorized(result_view(*r)),
            LoginEvent::Pat(r) => LoginEventView::Pat(result_view(*r)),
            LoginEvent::Saved(r) => LoginEventView::Saved(result_view(*r)),
        }
    }
}

/// The first state of a login.
pub open spec fn login_start(url: Option<Seq<char>>, skip_tls_verify: bool) -> LoginView {
    LoginView::LoadConfig { url, skip_tls_verify }
}

/// The next state of a login. An event that is not awaited changes nothing.
pub open spec fn login_step(state: LoginView, event: LoginEventView) -> LoginView {
    match (state, event) {
        (LoginView::LoadConfig { url, skip_tls_verify }, LoginEventView::ConfigLoaded(loaded)) =>
            match (loaded, url) {
                (Err(reason), _) => LoginView::Done(Err(reason)),
                (Ok(_), Some(registry)) => LoginView::DecideTls { registry, skip_tls_verify },
                (Ok(_), None) => LoginView::PickSingleEntry { skip_tls_verify },
            },
        (LoginView::PickSingleEntry { skip_tls_verify }, LoginEventView::SingleEntry(picked)) =>
            match picked {
                Ok(registry) => LoginView::DecideTls { registry, skip_tls_verify },
                Err(reason) => LoginView::Done(Err(reason)),
            },
        (LoginView::DecideTls { registry, .. }, LoginEventView::TlsDecided(skip)) =>
            LoginView::Connect { registry, settings: client_settings(skip) },
        (LoginView::Connect { registry, .. }, LoginEventView::Connected(connected)) =>
            match connected {
                Ok(_) => LoginView::TryNext { registry },
                Err(reason) => LoginView::Done(Err(reason)),
            },
        (LoginView::TryNext { registry }, LoginEventView::NextToken(tried)) => match tried {
            Ok(token) => LoginView::Save { registry, token },
            Err(_) => LoginView::RequestClientId { registry, path: client_id_path() },
        },
        (LoginView::RequestClientId { registry, .. }, LoginEventView::ClientId(replied)) =>
            match replied {
                Ok(client_id) => LoginView::Authorize { registry, client_id },
                Err(reason) => LoginView::Done(Err(reason)),
            },
        (LoginView::Authorize { registry, .. }, LoginEventView::Authorized(authorized)) =>
            match authorized {
                Ok(body) => LoginView::PostCallback { registry, path: github_callback_path(), body },
                Err(reason) => LoginView::Done(Err(reason)),
            },
        (LoginView::PostCallback { registry, .. }, LoginEventView::Pat(replied)) =>
            match replied {
                Ok(token) => LoginView::Save { registry, token },
                Err(reason) => LoginView::Done(Err(reason)),
            },
        (LoginView::Save { .. }, LoginEventView::Saved(saved)) => match saved {
            Ok(_) => LoginView::Done(Ok("Logged in successfully!"@)),
            Err(reason) => LoginView::Done(Err(reason)),
        },
        _ => state,
    }
}

/// Starts a login.
pub fn login(args: LoginArgs) -> (r: Login)
    ensures
        r@ == login_start(args.url.deep_view(), args.skip_tls_verify),
        r == (Login::LoadConfig { url: args.url, skip_tls_verify: args.skip_tls_verify }),
{
    Login::LoadConfig { url: args.url, skip_tls_verify: args.skip_tls_verify }
}

impl Login {
    /// Takes the login one step further.
    pub fn step(self, event: LoginEvent) -> (r: Login)
        ensures
            r@ == login_step(self@, event@),
    {
        match (self, event) {
            (Login::LoadConfig { url, skip_tls_verify }, LoginEvent::ConfigLoaded(loaded)) => {
                match (loaded, url) {
                    (Err(reason), _) => Login::Done(Err(reason)),
                    (Ok(_), Some(registry)) => Login::DecideTls { registry, skip_tls_verify },
                    (Ok(_), None) => Login::PickSingleEntry { skip_tls_verify },
                }
            },
            (Login::PickSingleEntry { skip_tls_verify }, LoginEvent::SingleEntry(picked)) => {
                match picked {
                    Ok(registry) => Login::DecideTls { registry, skip_tls_verify },
                    Err(reason) => Login::Done(Err(reason)),
                }
            },
            (Login::DecideTls { registry, .. }, LoginEvent::TlsDecided(skip)) => Login::Connect {
                registry,
                settings: client(skip),
            },
            (Login::Connect { registry, .. }, LoginEvent::Connected(connected)) => {
                match connected {
                    Ok(_) => Login::TryNext { registry },
                    Err(reason) => Login::Done(Err(reason)),
                }
            },
            (Login::TryNext { registry }, LoginEvent::NextToken(tried)) => match tried {
                Ok(token) => Login::Save { registry, token },
                Err(_) => Login::RequestClientId {
                    registry,
                    path: "api/v1/auth/github/client_id".to_owned(),
                },
            },
            (Login::RequestClientId { registry, .. }, LoginEvent::ClientId(replied)) => {
                match replied {
                    Ok(client_id) => Login::Authorize { registry, client_id },
                    Err(reason) => Login::Done(Err(reason)),
                }
            },
            (Login::Authorize { registry, .. }, LoginEvent::Authorized(authorized)) => {
                match authorized {
                    Ok(body) => Login::PostCallback {
                        registry,
                        path: "api/v1/auth/github/callback".to_owned(),
                        body,
                    },
                    Err(reason) => Login::Done(Err(reason)),
                }
            },
            (Login::PostCallback { registry, .. }, LoginEvent::Pat(replied)) => match replied {
                Ok(token) => Login::Save { registry, token },
                Err(reason) => Login::Done(Err(reason)),
            },
            (Login::Save { .. }, LoginEvent::Saved(saved)) => match saved {
                Ok(_) => Login::Done(Ok("Logged in successfully!".to_owned())),
                Err(reason) => Login::Done(Err(reason)),
            },
            (state, _) => state,
        }
    }
}

/// Everything outside a login that it can ask. `skip_tls` says whether TLS verification
/// is skipped for a registry, given whether the user asked for it; `client_id` and `callback` take the
/// registry and the path, `callback` also what is handed over.
pub struct LoginWorld {
    pub load_config: Result<(), Seq<char>>,
    pub single_entry: Result<Seq<char>, Seq<char>>,
    pub skip_tls: spec_fn(bool, Seq<char>) -> bool,
    pub connect: spec_fn(Seq<char>, ClientSettingsView) -> Result<(), Seq<char>>,
    pub try_next: spec_fn(Seq<char>) -> Result<Seq<char>, Seq<char>>,
    pub client_id: spec_fn(Seq<char>, Seq<char>) -> Result<Seq<char>, Seq<char>>,
    pub authorize: spec_fn(Seq<char>) -> Result<OAuthCallbackView, Seq<char>>,
    pub callback: spec_fn(Seq<char>, Seq<char>, OAuthCallbackView) -> Result<Seq<char>, Seq<char>>,
    pub save: spec_fn(Seq<char>, Seq<char>) -> Result<(), Seq<char>>,
}

/// The event with which the world answers the state.
pub open spec fn login_answer(state: LoginView, world: LoginWorld) -> LoginEventView {
    match state {
        LoginView::LoadConfig { .. } => LoginEventView::ConfigLoaded(world.load_config),
        LoginView::PickSingleEntry { .. } => LoginEventView::SingleEntry(world.single_entry),
        LoginView::DecideTls { registry, skip_tls_verify } => LoginEventView::TlsDecided(
            (world.skip_tls)(skip_tls_verify, registry),
        ),
        LoginView::Connect { registry, settings } => LoginEventView::Connected(
            (world.connect)(registry, settings),
        ),
        LoginView::TryNext { registry } => LoginEventView::NextToken((world.try_next)(registry)),
        LoginView::RequestClientId { registry, path } => LoginEventView::ClientId(
            (world.client_id)(registry, path),
        ),
        LoginView::Authorize { client_id, .. } => LoginEventView::Authorized(
            (world.authorize)(client_id),
        ),
        LoginView::PostCallback { registry, path, body } => LoginEventView::Pat(
            (world.callback)(registry, path, body),
        ),
        LoginView::Save { registry, token } => LoginEventView::Saved(
            (world.save)(registry, token),
        ),
        LoginView::Done(_) => LoginEventView::Saved(Ok(())),
    }
}

/// The state after `n` answers of the world.
pub open spec fn login_run(state: LoginView, world: LoginWorld, n: nat) -> LoginView
    decreases n,
{
    if n == 0 {
        state
    } else {
        login_run(login_step(state, login_answer(state, world)), world, (n - 1) as nat)
    }
}

/// The registry that a login is for: the one the user named, or else the only one that
/// is configured.
pub open spec fn login_registry(url: Option<Seq<char>>, world: LoginWorld) -> Result<
    Seq<char>,
    Seq<char>,
> {
    match (world.load_config, url) {
        (Err(reason), _) => Err(reason),
        (Ok(_), Some(registry)) => Ok(registry),
        (Ok(_), None) => world.single_entry,
    }
}

/// The token that a login at this registry gets through GitHub.
pub open spec fn github_token(registry: Seq<char>, world: LoginWorld) -> Result<
    Seq<char>,
    Seq<char>,
> {
    match (world.client_id)(registry, client_id_path()) {
        Err(reason) => Err(reason),
        Ok(client_id) => match (world.authorize)(client_id) {
            Err(reason) => Err(reason),
            Ok(body) => (world.callback)(registry, github_callback_path(), body),
        },
    }
}

/// The token that a login at this registry gets: through the Next program, and through
/// GitHub where that fails.
pub open spec fn login_token(registry: Seq<char>, world: LoginWorld) -> Result<
    Seq<char>,
    Seq<char>,
> {
    match (world.try_next)(registry) {
        Ok(token) => Ok(token),
        Err(_) => github_token(registry, world),
    }
}

/// How a login ends.
pub open spec fn login_outcome(
    url: Option<Seq<char>>,
    skip_tls_verify: bool,
    world: LoginWorld,
) -> Result<Seq<char>, Seq<char>> {
    match login_registry(url, world) {
        Err(reason) => Err(reason),
        Ok(registry) => match (world.connect)(
            registry,
            client_settings((world.skip_tls)(skip_tls_verify, registry)),
        ) {
            Err(reason) => Err(reason),
            Ok(_) => match login_token(registry, world) {
                Err(reason) => Err(reason),
                Ok(token) => match (world.save)(registry, token) {
                    Err(reason) => Err(reason),
                    Ok(_) => Ok("Logged in successfully!"@),
                },
            },
        },
    }
}

/// Whatever the world answers, a login ends within nine answers, and it ends as it is
/// to end.
pub proof fn law_login_ends_with_the_outcome(
    url: Option<Seq<char>>,
    skip_tls_verify: bool,
    world: LoginWorld,
)
    ensures
        login_run(login_start(url, skip_tls_verify), world, 9) == LoginView::Done(
            login_outcome(url, skip_tls_verify, world),
        ),
{
    reveal_with_fuel(login_run, 10);
}

/// The end of a login is final: no event changes it.
pub proof fn law_login_outcome_is_final(
    outcome: Result<Seq<char>, Seq<char>>,
    event: LoginEventView,
)
    ensures
        login_step(LoginView::Done(outcome), event) == LoginView::Done(outcome),
{
}

proof fn lemma_done_stays(outcome: Result<Seq<char>, Seq<char>>, world: LoginWorld, n: nat)
    ensures
        login_run(LoginView::Done(outcome), world, n) == LoginView::Done(outcome),
    decreases n,
{
    if n > 0 {
        lemma_done_stays(outcome, world, (n - 1) as nat);
    }
}

proof fn lemma_run_adds_up(state: LoginView, world: LoginWorld, m: nat, n: nat)
    ensures
        login_run(state, world, m + n) == login_run(login_run(state, world, m), world, n),
    decreases m,
{
    if m > 0 {
        lemma_run_adds_up(login_step(state, login_answer(state, world)), world, (m - 1) as nat, n);
    }
}

proof fn lemma_login_is_over(
    url: Option<Seq<char>>,
    skip_tls_verify: bool,
    world: LoginWorld,
    n: nat,
)
    requires
        n >= 9,
    ensures
        login_run(login_start(url, skip_tls_verify), world, n) is Done,
{
    let rest = (n - 9) as nat;
    lemma_run_adds_up(login_start(url, skip_tls_verify), world, 9, rest);
    law_login_ends_with_the_outcome(url, skip_tls_verify, world);
    lemma_done_stays(login_outcome(url, skip_tls_verify, world), world, rest);
}

/// The client is built for the registry that the login is for, and with the decision on
/// TLS verification that was made for this registry and the user's wish.
pub proof fn law_client_follows_the_tls_decision(
    url: Option<Seq<char>>,
    skip_tls_verify: bool,
    world: LoginWorld,
    n: nat,
)
    ensures
        login_run(login_start(url, skip_tls_verify), world, n) matches LoginView::Connect {
            registry,
            settings,
        } ==> {
            &&& login_registry(url, world) == Ok::<Seq<char>, Seq<char>>(registry)
            &&& settings == client_settings((world.skip_tls)(skip_tls_verify, registry))
        },
{
    reveal_with_fuel(login_run, 10);
    if n >= 9 {
        lemma_login_is_over(url, skip_tls_verify, world, n);
    }
}

/// The Next program comes first: GitHub is turned to only where the login through the
/// Next program failed.
pub proof fn law_github_is_the_fallback(
    url: Option<Seq<char>>,
    skip_tls_verify: bool,
    world: LoginWorld,
    n: nat,
)
    ensures
        ({
            let state = login_run(login_start(url, skip_tls_verify), world, n);
            state is RequestClientId || state is Authorize || state is PostCallback ==> {
                &&& login_registry(url, world) matches Ok(registry)
                &&& (world.try_next)(registry) is Err
            }
        }),
{
    reveal_with_fuel(login_run, 10);
    if n >= 9 {
        lemma_login_is_over(url, skip_tls_verify, world, n);
    }
}

/// What is stored is the token that the login got, under the registry it was for.
pub proof fn law_the_token_is_saved_for_its_registry(
    url: Option<Seq<char>>,
    skip_tls_verify: bool,
    world: LoginWorld,
    n: nat,
)
    ensures
        login_run(login_start(url, skip_tls_verify), world, n) matches LoginView::Save {
            registry,
            token,
        } ==> {
            &&& login_registry(url, world) == Ok::<Seq<char>, Seq<char>>(registry)
            &&& login_token(registry, world) == Ok::<Seq<char>, Seq<char>>(token)
        },
{
    reveal_with_fuel(login_run, 10);
    if n >= 9 {
        lemma_login_is_over(url, skip_tls_verify, world, n);
    }
}

/// The callback is at `/callback` on the loopback address, and what stands between the
/// colon and the path are digits that, read as a number, give the port.
pub proof fn law_callback_url_names_the_port(port: u16)
    ensures
        ({
            let url = callback_url(port);
            let end = url.len() - 9;
            &&& end > 17
            &&& url.take(17) == "http://127.0.0.1:"@
            &&& url.skip(end) == "/callback"@
            &&& numeral_value(url.subrange(17, end)) == port
            &&& forall|i: int| 17 <= i < end ==> '0' <= #[trigger] url[i] <= '9'
        }),
{
    reveal_strlit("http://127.0.0.1:");
    reveal_strlit("/callback");
    law_numerals_read_back(port as nat);
    let digits = decimal(port as nat);
    let url = callback_url(port);
    let end = url.len() - 9;
    assert(url.take(17) == "http://127.0.0.1:"@);
    assert(url.skip(end) == "/callback"@);
    assert(url.subrange(17, end) == digits);
    assert forall|i: int| 17 <= i < end implies '0' <= #[trigger] url[i] <= '9' by {
        assert(url[i] == digits[i - 17]);
    }
}

/// Two ports never share a callback.
pub proof fn law_callback_urls_tell_ports_apart(a: u16, b: u16)
    requires
        callback_url(a) == callback_url(b),
    ensures
        a == b,
{
    law_callback_url_names_the_port(a);
    law_callback_url_names_the_port(b);
}

/// Once the server for the callback is bound to a port, the registry is asked for the login
/// page with a callback that names this very port.
pub proof fn law_login_url_is_requested_for_the_bound_port(address: Seq<char>, port: u16)
    ensures
        next_login_step(
            NextLoginView::Bind { address },
            NextLoginEventView::Bound(Ok(port)),
        ) matches NextLoginView::RequestLoginUrl { path, callback_url } && {
            &&& path == "api/v1/auth/next/login_url"@
            &&& callback_url.len() > 26
            &&& callback_url.take(17) == "http://127.0.0.1:"@
            &&& callback_url.skip(callback_url.len() - 9) == "/callback"@
            &&& numeral_value(callback_url.subrange(17, callback_url.len() - 9)) == port
        },
{
    law_callback_url_names_the_port(port);
}

/// The client takes certificates on trust exactly where it is told to, and every request
/// asks for JSON and carries no other header.
pub proof fn law_client_settings_follow_the_flag(skip_tls_verify: bool)
    ensures
        client_settings(skip_tls_verify).accept_invalid_certs == skip_tls_verify,
        client_settings(skip_tls_verify).headers.len() == 1,
        client_settings(skip_tls_verify).headers[0] == ("Accept"@, "application/json"@),
{
}

/// Where the client knows how to open a browser, the URL is the last argument, unchanged,
/// and only on Windows do others stand before it.
pub proof fn law_browser_gets_the_url(system: HostSystem, url: Seq<char>)
    ensures
        browser_command(system, url) is None <==> system == HostSystem::Other,
        browser_command(system, url) matches Some(command) ==> {
            let (program, args) = command;
            &&& args.len() > 0
            &&& args.last() == url
            &&& system == HostSystem::Linux ==> program == "xdg-open"@ && args.len() == 1
            &&& system == HostSystem::MacOs ==> program == "open"@ && args.len() == 1
            &&& system == HostSystem::Windows ==> {
                &&& program == "cmd"@
                &&& args.len() == 3
                &&& args[0] == "/C"@
                &&& args[1] == "start"@
            }
        },
{
}

/// What becomes of a login through the Next program, case by case. A free port of the
/// loopback address is bound, the registry is asked for the login page with the callback on
/// that port, and the callback is awaited for five minutes at the page that the registry
/// named. The token is the one that came, as it came; each failure is passed on as it is.
pub proof fn law_next_login_by_cases(world: NextLoginWorld)
    ensures
        next_login_run(next_login_start(), world, 3) matches NextLoginView::Done(outcome) && match (
        world.bind)("127.0.0.1:0"@) {
            Err(reason) => outcome == Err::<Seq<char>, Seq<char>>(reason),
            Ok(port) => match (world.login_url)("api/v1/auth/next/login_url"@, callback_url(port)) {
                Err(reason) => outcome == Err::<Seq<char>, Seq<char>>(reason),
                Ok(login_url) => match (world.wait)(login_url, 300) {
                    (true, _) => outcome == Err::<Seq<char>, Seq<char>>(
                        "Login timed out after 5 minutes"@,
                    ),
                    (false, Some(token)) => outcome == Ok::<Seq<char>, Seq<char>>(token),
                    (false, None) => outcome == Err::<Seq<char>, Seq<char>>("No token received"@),
                },
            },
        },
{
    reveal_with_fuel(next_login_run, 4);
}

/// A login through the Next program moves only on what it awaits.
pub proof fn law_next_login_moves_only_on_what_it_awaits(
    state: NextLoginView,
    event: NextLoginEventView,
)
    requires
        next_login_step(state, event) != state,
    ensures
        state is Bind ==> event is Bound,
        state is RequestLoginUrl ==> event is LoginUrl,
        state is AwaitCallback ==> event is Waited,
        !(state is Done),
{
}

/// What becomes of a login, case by case. The registry is the one that the user named, or
/// the only one configured. The client is built for it with the decision on TLS that was
/// made for it. The token comes from the Next program or, where that fails, from the
/// registry for the authorization that GitHub gave to the registry's client id. It is saved
/// as it came, for that registry; each failure is passed on as it is.
pub proof fn law_login_by_cases(url: Option<Seq<char>>, skip_tls_verify: bool, world: LoginWorld)
    ensures
        ({
            let failed = |reason: Seq<char>| Err::<Seq<char>, Seq<char>>(reason);
            let registry = match url {
                Some(named) => Ok(named),
                None => world.single_entry,
            };
            &&& login_run(
                login_start(url, skip_tls_verify),
                world,
                9,
            ) matches LoginView::Done(outcome)
            &&& match (world.load_config, registry) {
                (Err(reason), _) => outcome == failed(reason),
                (Ok(_), Err(reason)) => outcome == failed(reason),
                (Ok(_), Ok(registry)) => match (world.connect)(
                    registry,
                    client_settings((world.skip_tls)(skip_tls_verify, registry)),
                ) {
                    Err(reason) => outcome == failed(reason),
                    Ok(_) => {
                        let token = match (world.try_next)(registry) {
                            Ok(token) => Ok(token),
                            Err(_) => match (world.client_id)(
                                registry,
                                "api/v1/auth/github/client_id"@,
                            ) {
                                Err(reason) => failed(reason),
                                Ok(client_id) => match (world.authorize)(client_id) {
                                    Err(reason) => failed(reason),
                                    Ok(body) => (world.callback)(
                                        registry,
                                        "api/v1/auth/github/callback"@,
                                        body,
                                    ),
                                },
                            },
                        };
                        match token {
                            Err(reason) => outcome == failed(reason),
                            Ok(token) => match (world.save)(registry, token) {
                                Err(reason) => outcome == failed(reason),
                                Ok(_) => outcome == Ok::<Seq<char>, Seq<char>>(
                                    "Logged in successfully!"@,
                                ),
                            },
                        }
                    },
                },
            }
        }),
{
    reveal_with_fuel(login_run, 10);
}

/// A login moves only on what it awaits. In particular nobody is told of a success but
/// after the token was saved.
pub proof fn law_login_moves_only_on_what_it_awaits(state: LoginView, event: LoginEventView)
    requires
        login_step(state, event) != state,
    ensures
        state is LoadConfig ==> event is ConfigLoaded,
        state is PickSingleEntry ==> event is SingleEntry,
        state is DecideTls ==> event is TlsDecided,
        state is Connect ==> event is Connected,
        state is TryNext ==> event is NextToken,
        state is RequestClientId ==> event is ClientId,
        state is Authorize ==> event is Authorized,
        state is PostCallback ==> event is Pat,
        state is Save ==> event is Saved,
        !(state is Done),
{
}

/// The model of client settings shows each part of them as it is.
pub proof fn law_client_settings_view_is_faithful(settings: ClientSettings)
    ensures
        settings@.accept_invalid_certs == settings.accept_invalid_certs,
        settings@.headers.len() == settings.headers@.len(),
        forall|i: int|
            0 <= i < settings.headers@.len() ==> #[trigger] settings@.headers[i] == (
                settings.headers@[i].0@,
                settings.headers@[i].1@,
            ),
{
}

/// The models of a login through the Next program and of its events show each part as it
/// is.
pub proof fn law_next_login_views_are_faithful(state: NextLogin, event: NextLoginEvent)
    ensures
        match state {
            NextLogin::Bind { address } => state@ == (NextLoginView::Bind { address: address@ }),
            NextLogin::RequestLoginUrl { path, callback_url } => state@ == (
            NextLoginView::RequestLoginUrl { path: path@, callback_url: callback_url@ }),
            NextLogin::AwaitCallback { login_url, timeout_secs } => state@ == (
            NextLoginView::AwaitCallback { login_url: login_url@, timeout_secs }),
            NextLogin::Done(Ok(token)) => state@ == NextLoginView::Done(Ok(token@)),
            NextLogin::Done(Err(reason)) => state@ == NextLoginView::Done(Err(reason@)),
        },
        match event {
            NextLoginEvent::Bound(Ok(port)) => event@ == NextLoginEventView::Bound(Ok(port)),
            NextLoginEvent::Bound(Err(reason)) => event@ == NextLoginEventView::Bound(Err(reason@)),
            NextLoginEvent::LoginUrl(Ok(url)) => event@ == NextLoginEventView::LoginUrl(Ok(url@)),
            NextLoginEvent::LoginUrl(Err(reason)) => event@ == NextLoginEventView::LoginUrl(
                Err(reason@),
            ),
            NextLoginEvent::Waited { timed_out, received } => event@ matches
                NextLoginEventView::Waited { timed_out: shown_timed_out, received: shown }
                && shown_timed_out == timed_out && match received {
                Some(token) => shown == Some(token@),
                None => shown is None,
            },
        },
{
}

/// The model of a login shows each part of it as it is.
pub proof fn law_login_view_is_faithful(state: Login)
    ensures
        match state {
            Login::LoadConfig { url, skip_tls_verify } => state@ matches LoginView::LoadConfig {
                url: shown,
                skip_tls_verify: shown_skip,
            } && shown_skip == skip_tls_verify && match url {
                Some(url) => shown == Some(url@),
                None => shown is None,
            },
            Login::PickSingleEntry { skip_tls_verify } => state@ == (LoginView::PickSingleEntry {
                skip_tls_verify,
            }),
            Login::DecideTls { registry, skip_tls_verify } => state@ == (LoginView::DecideTls {
                registry: registry@,
                skip_tls_verify,
            }),
            Login::Connect { registry, settings } => state@ == (LoginView::Connect {
                registry: registry@,
                settings: settings@,
            }),
            Login::TryNext { registry } => state@ == (LoginView::TryNext { registry: registry@ }),
            Login::RequestClientId { registry, path } => state@ == (LoginView::RequestClientId {
                registry: registry@,
                path: path@,
            }),
            Login::Authorize { registry, client_id } => state@ == (LoginView::Authorize {
                registry: registry@,
                client_id: client_id@,
            }),
            Login::PostCallback { registry, path, body } => state@ == (LoginView::PostCallback {
                registry: registry@,
                path: path@,
                body: body@,
            }),
            Login::Save { registry, token } => state@ == (LoginView::Save {
                registry: registry@,
                token: token@,
            }),
            Login::Done(Ok(notice)) => state@ == LoginView::Done(Ok(notice@)),
            Login::Done(Err(reason)) => state@ == LoginView::Done(Err(reason@)),
        },
{
}

/// The model of an event of a login shows each part of it as it is.
pub proof fn law_login_event_view_is_faithful(event: LoginEvent)
    ensures
        match event {
            LoginEvent::ConfigLoaded(Ok(_)) => event@ matches LoginEventView::ConfigLoaded(shown)
                && shown is Ok,
            LoginEvent::ConfigLoaded(Err(reason)) => event@ == LoginEventView::ConfigLoaded(
                Err(reason@),
            ),
            LoginEvent::SingleEntry(Ok(registry)) => event@ == LoginEventView::SingleEntry(
                Ok(registry@),
            ),
            LoginEvent::SingleEntry(Err(reason)) => event@ == LoginEventView::SingleEntry(
                Err(reason@),
            ),
            LoginEvent::TlsDecided(skip) => event@ == LoginEventView::TlsDecided(skip),
            LoginEvent::Connected(Ok(_)) => event@ matches LoginEventView::Connected(shown)
                && shown is Ok,
            LoginEvent::Connected(Err(reason)) => event@ == LoginEventView::Connected(Err(reason@)),
            LoginEvent::NextToken(Ok(token)) => event@ == LoginEventView::NextToken(Ok(token@)),
            LoginEvent::NextToken(Err(reason)) => event@ == LoginEventView::NextToken(Err(reason@)),
            LoginEvent::ClientId(Ok(id)) => event@ == LoginEventView::ClientId(Ok(id@)),
            LoginEvent::ClientId(Err(reason)) => event@ == LoginEventView::ClientId(Err(reason@)),
            LoginEvent::Authorized(Ok(body)) => event@ == LoginEventView::Authorized(Ok(body@)),
            LoginEvent::Authorized(Err(reason)) => event@ == LoginEventView::Authorized(
                Err(reason@),
            ),
            LoginEvent::Pat(Ok(token)) => event@ == LoginEventView::Pat(Ok(token@)),
            LoginEvent::Pat(Err(reason)) => event@ == LoginEventView::Pat(Err(reason@)),
            LoginEvent::Saved(Ok(_)) => event@ matches LoginEventView::Saved(shown) && shown is Ok,
            LoginEvent::Saved(Err(reason)) => event@ == LoginEventView::Saved(Err(reason@)),
        },
{
}

} // verus!
