//! Signing in with GitHub.
use vstd::prelude::*;

use crate::error::{result_view, AppError, AppErrorView};
use crate::http::{HttpRequest, HttpRequestView, Method};
use crate::identity::{
    token_for, TokenOrder, TokenOrderView, TokenSettings, TokenSettingsView, User, UserView,
};
use crate::text::{canonical_namespace, join, lowercase};

verus! {

/// What a client hands over after the user has authorized it at GitHub.
#[derive(Debug, PartialEq, Eq)]
pub struct OAuthCallbackRequest {
    pub access_token: String,
    pub token_type: String,
    pub scope: String,
}

/// The model of an [`OAuthCallbackRequest`].
pub struct OAuthCallbackView {
    pub access_token: Seq<char>,
    pub token_type: Seq<char>,
    pub scope: Seq<char>,
}

impl View for OAuthCallbackRequest {
    type V = OAuthCallbackView;

    open spec fn view(&self) -> OAuthCallbackView {
        OAuthCallbackView {
            access_token: self.access_token@,
            token_type: self.token_type@,
            scope: self.scope@,
        }
    }
}

/// What GitHub answers to the request for an access token.
#[derive(Debug, PartialEq, Eq)]
pub struct RequestAccessTokenResponse {
    pub access_token: String,
    pub token_type: String,
    pub scope: String,
}

/// A GitHub account.
#[derive(Debug, PartialEq, Eq)]
pub struct UserInfo {
    pub login: String,
    pub id: i64,
}

/// The model of a [`UserInfo`].
pub struct UserInfoView {
    pub login: Seq<char>,
    pub id: i64,
}

impl View for UserInfo {
    type V = UserInfoView;

    open spec fn view(&self) -> UserInfoView {
        UserInfoView { login: self.login@, id: self.id }
    }
}

/// The request that exchanges the code of a GitHub authorization for an access token.
pub open spec fn access_token_request(
    code: Seq<char>,
    client_id: Seq<char>,
    client_secret: Seq<char>,
) -> HttpRequestView {
    HttpRequestView {
        method: Method::Post,
        url: "https://github.com/login/oauth/access_token"@,
        headers: seq![("Accept"@, "application/json"@)],
        form: seq![
            ("code"@, code),
            ("client_id"@, client_id),
            ("client_secret"@, client_secret),
        ],
    }
}

/// The request that asks GitHub whose access token this is.
pub open spec fn user_info_request(access_token: Seq<char>) -> HttpRequestView {
    HttpRequestView {
        method: Method::Get,
        url: "https://api.github.com/user"@,
        headers: seq![
            ("User-Agent"@, "distribution"@),
            ("Authorization"@, "token "@ + access_token),
        ],
        form: seq![],
    }
}

/// Builds the request that exchanges the code of a GitHub authorization for an access
/// token.
pub fn request_access_token(code: &str, client_id: &str, client_secret: &str) -> (r: HttpRequest)
    ensures
        r@ == access_token_request(code@, client_id@, client_secret@),
        r.url@ == "https://github.com/login/oauth/access_token"@,
        r.form@.len() == 3,
        r.form@[0].0@ == "code"@ && r.form@[0].1@ == code@,
        r.form@[1].0@ == "client_id"@ && r.form@[1].1@ == client_id@,
        r.form@[2].0@ == "client_secret"@ && r.form@[2].1@ == client_secret@,
{
    let mut headers: Vec<(String, String)> = Vec::new();
    headers.push(("Accept".to_owned(), "application/json".to_owned()));
    let mut form: Vec<(String, String)> = Vec::new();
    form.push(("code".to_owned(), code.to_owned()));
    form.push(("client_id".to_owned(), client_id.to_owned()));
    form.push(("client_secret".to_owned(), client_secret.to_owned()));
    let request = HttpRequest {
        method: Method::Post,
        url: "https://github.com/login/oauth/access_token".to_owned(),
        headers,
        form,
    };
    assert(request@ =~= access_token_request(code@, client_id@, client_secret@));
    request
}

/// Builds the request that asks GitHub whose access token this is.
pub fn request_user_info(access_token: &str) -> (r: HttpRequest)
    ensures
        r@ == user_info_request(access_token@),
        r.url@ == "https://api.github.com/user"@,
        r.headers@.len() == 2,
        r.headers@[0].0@ == "User-Agent"@ && r.headers@[0].1@ == "distribution"@,
        r.headers@[1].0@ == "Authorization"@ && r.headers@[1].1@ == "token "@ + access_token@,
{
    let mut headers: Vec<(String, String)> = Vec::new();
    headers.push(("User-Agent".to_owned(), "distribution".to_owned()));
    headers.push(("Authorization".to_owned(), join("token ", access_token)));
    let request = HttpRequest {
        method: Method::Get,
        url: "https://api.github.com/user".to_owned(),
        headers,
        form: Vec::new(),
    };
    assert(request@ =~= user_info_request(access_token@));
    request
}

/// The refusal of a provider other than GitHub.
pub open spec fn only_github() -> AppErrorView {
    AppErrorView::BadRequest("Only support github provider"@)
}

fn is_github(provider: &str) -> (r: bool)
    ensures
        r == (provider@ == "github"@),
{
    provider.to_owned() == "github".to_owned()
}

fn only_github_error() -> (r: AppError)
    ensures
        r@ == only_github(),
{
    AppError::BadRequest("Only support github provider".to_owned())
}

/// The client id under which the registry is known to the provider.
pub fn client_id(provider: &str, github_client_id: &str) -> (r: Result<String, AppError>)
    ensures
        result_view(r) == (if provider@ == "github"@ {
            Ok(github_client_id@)
        } else {
            Err(only_github())
        }),
        provider@ == "github"@ ==> (r matches Ok(id) && id@ == github_client_id@),
        provider@ != "github"@ ==> (r matches Err(AppError::BadRequest(msg)) && msg@
            == "Only support github provider"@),
{
    if is_github(provider) {
        Ok(github_client_id.to_owned())
    } else {
        Err(only_github_error())
    }
}

/// What a client gets at the end of a sign-in: a token, under the name of a personal
/// access token, with the status code that says whether the user is new.
#[derive(Debug, PartialEq, Eq)]
pub struct SignedIn {
    pub status: u16,
    pub pat: String,
}

/// The model of a [`SignedIn`].
pub struct SignedInView {
    pub status: u16,
    pub pat: Seq<char>,
}

impl View for SignedIn {
    type V = SignedInView;

    open spec fn view(&self) -> SignedInView {
        SignedInView { status: self.status, pat: self.pat@ }
    }
}

/// How far a sign-in has come.
#[derive(Debug, PartialEq, Eq)]
pub enum SignIn {
    /// GitHub is to be asked whose access token this is.
    AskGithub { request: HttpRequest },
    /// The user is to be looked up by the id of the GitHub account.
    FindUser { info: UserInfo },
    /// The user is new: a salt and a password are to be generated.
    GenerateSecrets { info: UserInfo },
    /// The generated password is to be hashed with the salt.
    HashPassword { info: UserInfo, salt: String, password: String },
    /// A token is to be issued.
    IssueToken { order: TokenOrder },
    /// A token is to be issued for this user, who is to be put on record.
    IssueFirstToken { order: TokenOrder, user: User },
    /// The user is to be put on record before the token is handed out.
    CreateUser { user: User, pat: String },
    /// The answer to the client.
    Done(Result<SignedIn, AppError>),
}

/// What became of the step that a [`SignIn`] was waiting for.
#[derive(Debug, PartialEq, Eq)]
pub enum SignInEvent {
    /// The account, or why GitHub did not name one.
    Account(Result<UserInfo, String>),
    UserFound(Result<User, AppError>),
    Secrets { salt: String, password: String },
    Hashed(Result<String, AppError>),
    Issued(String),
    UserCreated(Result<(), AppError>),
}

/// The model of a [`SignIn`].
#[verifier::ext_equal]
pub enum SignInView {
    AskGithub { request: HttpRequestView },
    FindUser { info: UserInfoView },
    GenerateSecrets { info: UserInfoView },
    HashPassword { info: UserInfoView, salt: Seq<char>, password: Seq<char> },
    IssueToken { order: TokenOrderView },
    IssueFirstToken { order: TokenOrderView, user: UserView },
    CreateUser { user: UserView, pat: Seq<char> },
    Done(Result<SignedInView, AppErrorView>),
}

/// The model of a [`SignInEvent`].
pub enum SignInEventView {
    Account(Result<UserInfoView, Seq<char>>),
    UserFound(Result<UserView, AppErrorView>),
    Secrets { salt: Seq<char>, password: Seq<char> },
    Hashed(Result<Seq<char>, AppErrorView>),
    Issued(Seq<char>),
    UserCreated(Result<(), AppErrorView>),
}

impl View for SignIn {
    type V = SignInView;

    open spec fn view(&self) -> SignInView {
        match self {
            SignIn::AskGithub { request } => SignInView::AskGithub { request: request@ },
            SignIn::FindUser { info } => SignInView::FindUser { info: info@ },
            SignIn::GenerateSecrets { info } => SignInView::GenerateSecrets { info: info@ },
            SignIn::HashPassword { info, salt, password } => SignInView::HashPassword {
                info: info@,
                salt: salt@,
                password: password@,
            },
            SignIn::IssueToken { order } => SignInView::IssueToken { order: order@ },
            SignIn::IssueFirstToken { order, user } => SignInView::IssueFirstToken {
                order: order@,
                user: user@,
            },
            SignIn::CreateUser { user, pat } => SignInView::CreateUser { user: user@, pat: pat@ },
            SignIn::Done(outcome) => SignInView::Done(result_view(*outcome)),
        }
    }
}

impl View for SignInEvent {
    type V = SignInEventView;

    open spec fn view(&self) -> SignInEventView {
        match self {
            SignInEvent::Account(r) => SignInEventView::Account(result_view(*r)),
            SignInEvent::UserFound(r) => SignInEventView::UserFound(result_view(*r)),
            SignInEvent::Secrets { salt, password } => SignInEventView::Secrets {
                salt: salt@,
                password: password@,
            },
            SignInEvent::Hashed(r) => SignInEventView::Hashed(result_view(*r)),
            SignInEvent::Issued(token) => SignInEventView::Issued(token@),
            SignInEvent::UserCreated(r) => SignInEventView::UserCreated(result_view(*r)),
        }
    }
}

/// The first state of a sign-in.
pub open spec fn sign_in_start(provider: Seq<char>, access_token: Seq<char>) -> SignInView {
    if provider == "github"@ {
        SignInView::AskGithub { request: user_info_request(access_token) }
    } else {
        SignInView::Done(Err(only_github()))
    }
}

/// The record of a user who signs in for the first time.
pub open spec fn first_record(info: UserInfoView, hash: Seq<char>, salt: Seq<char>) -> UserView {
    UserView { github_id: info.id, username: lowercase(info.login), password: hash, salt }
}

/// The next state of a sign-in. An event that is not awaited changes nothing.
pub open spec fn sign_in_step(
    state: SignInView,
    event: SignInEventView,
    settings: TokenSettingsView,
) -> SignInView {
    match (state, event) {
        (SignInView::AskGithub { .. }, SignInEventView::Account(account)) => match account {
            Ok(info) => SignInView::FindUser { info },
            Err(reason) => SignInView::Done(Err(AppErrorView::Internal(reason))),
        },
        (SignInView::FindUser { info }, SignInEventView::UserFound(found)) => match found {
            Ok(user) => SignInView::IssueToken {
                order: token_for(settings, lowercase(user.username)),
            },
            Err(_) => SignInView::GenerateSecrets { info },
        },
        (SignInView::GenerateSecrets { info }, SignInEventView::Secrets { salt, password }) =>
            SignInView::HashPassword { info, salt, password },
        (SignInView::HashPassword { info, salt, .. }, SignInEventView::Hashed(hashed)) =>
            match hashed {
                Ok(hash) => SignInView::IssueFirstToken {
                    order: token_for(settings, lowercase(info.login)),
                    user: first_record(info, hash, salt),
                },
                Err(error) => SignInView::Done(Err(error)),
            },
        (SignInView::IssueToken { .. }, SignInEventView::Issued(pat)) => SignInView::Done(
            Ok(SignedInView { status: 200, pat }),
        ),
        (SignInView::IssueFirstToken { user, .. }, SignInEventView::Issued(pat)) =>
            SignInView::CreateUser { user, pat },
        (SignInView::CreateUser { pat, .. }, SignInEventView::UserCreated(created)) =>
            match created {
                Ok(_) => SignInView::Done(Ok(SignedInView { status: 201, pat })),
                Err(error) => SignInView::Done(Err(error)),
            },
        _ => state,
    }
}

/// Starts a sign-in with an access token of the provider.
pub fn oauth_callback(provider: &str, req: OAuthCallbackRequest) -> (r: SignIn)
    ensures
        r@ == sign_in_start(provider@, req.access_token@),
{
    if is_github(provider) {
        SignIn::AskGithub { request: request_user_info(req.access_token.as_str()) }
    } else {
        SignIn::Done(Err(only_github_error()))
    }
}

impl SignIn {
    /// Takes the sign-in one step further.
    pub fn step(self, event: SignInEvent, settings: &TokenSettings) -> (r: SignIn)
        ensures
            r@ == sign_in_step(self@, event@, settings@),
    {
        match (self, event) {
            (SignIn::AskGithub { .. }, SignInEvent::Account(account)) => match account {
                Ok(info) => SignIn::FindUser { info },
                Err(reason) => SignIn::Done(Err(AppError::Internal(reason))),
            },
            (SignIn::FindUser { info }, SignInEvent::UserFound(found)) => match found {
                Ok(user) => SignIn::IssueToken {
                    order: settings.order(canonical_namespace(user.username.as_str())),
                },
                Err(_) => SignIn::GenerateSecrets { info },
            },
            (SignIn::GenerateSecrets { info }, SignInEvent::Secrets { salt, password }) =>
                SignIn::HashPassword { info, salt, password },
            (SignIn::HashPassword { info, salt, .. }, SignInEvent::Hashed(hashed)) => match hashed {
                Ok(hash) => {
                    let username = canonical_namespace(info.login.as_str());
                    SignIn::IssueFirstToken {
                        order: settings.order(username.clone()),
                        user: User::new(info.id, username, hash, salt),
                    }
                },
                Err(error) => SignIn::Done(Err(error)),
            },
            (SignIn::IssueToken { .. }, SignInEvent::Issued(pat)) => SignIn::Done(
                Ok(SignedIn { status: 200, pat }),
            ),
            (SignIn::IssueFirstToken { user, .. }, SignInEvent::Issued(pat)) => SignIn::CreateUser {
                user,
                pat,
            },
            (SignIn::CreateUser { pat, .. }, SignInEvent::UserCreated(created)) => match created {
                Ok(_) => SignIn::Done(Ok(SignedIn { status: 201, pat })),
                Err(error) => SignIn::Done(Err(error)),
            },
            (state, _) => state,
        }
    }
}

/// Everything outside a sign-in that it can ask. `generated` is the salt and the
/// password that are generated for a new user; `hash` takes a salt and a password.
pub struct SignInWorld {
    pub github: spec_fn(HttpRequestView) -> Result<UserInfoView, Seq<char>>,
    pub find_user: spec_fn(i64) -> Result<UserView, AppErrorView>,
    pub generated: (Seq<char>, Seq<char>),
    pub hash: spec_fn(Seq<char>, Seq<char>) -> Result<Seq<char>, AppErrorView>,
    pub issue: spec_fn(TokenOrderView) -> Seq<char>,
    pub create_user: spec_fn(UserView) -> Result<(), AppErrorView>,
}

/// The event with which the world answers the state.
pub open spec fn sign_in_answer(state: SignInView, world: SignInWorld) -> SignInEventView {
    match state {
        SignInView::AskGithub { request } => SignInEventView::Account((world.github)(request)),
        SignInView::FindUser { info } => SignInEventView::UserFound((world.find_user)(info.id)),
        SignInView::GenerateSecrets { .. } => SignInEventView::Secrets {
            salt: world.generated.0,
            password: world.generated.1,
        },
        SignInView::HashPassword { salt, password, .. } => SignInEventView::Hashed(
            (world.hash)(salt, password),
        ),
        SignInView::IssueToken { order } => SignInEventView::Issued((world.issue)(order)),
        SignInView::IssueFirstToken { order, .. } => SignInEventView::Issued((world.issue)(order)),
        SignInView::CreateUser { user, .. } => SignInEventView::UserCreated(
            (world.create_user)(user),
        ),
        SignInView::Done(_) => SignInEventView::UserCreated(Ok(())),
    }
}

/// The state after `n` answers of the world.
pub open spec fn sign_in_run(
    state: SignInView,
    settings: TokenSettingsView,
    world: SignInWorld,
    n: nat,
) -> SignInView
    decreases n,
{
    if n == 0 {
        state
    } else {
        sign_in_run(
            sign_in_step(state, sign_in_answer(state, world), settings),
            settings,
            world,
            (n - 1) as nat,
        )
    }
}

/// How a sign-in is answered.
pub open spec fn sign_in_outcome(
    provider: Seq<char>,
    access_token: Seq<char>,
    settings: TokenSettingsView,
    world: SignInWorld,
) -> Result<SignedInView, AppErrorView> {
    if provider != "github"@ {
        Err(only_github())
    } else {
        match (world.github)(user_info_request(access_token)) {
            Err(reason) => Err(AppErrorView::Internal(reason)),
            Ok(info) => match (world.find_user)(info.id) {
                Ok(user) => Ok(
                    SignedInView {
                        status: 200,
                        pat: (world.issue)(token_for(settings, lowercase(user.username))),
                    },
                ),
                Err(_) => match (world.hash)(world.generated.0, world.generated.1) {
                    Err(error) => Err(error),
                    Ok(hash) => match (world.create_user)(
                        first_record(info, hash, world.generated.0),
                    ) {
                        Err(error) => Err(error),
                        Ok(_) => Ok(
                            SignedInView {
                                status: 201,
                                pat: (world.issue)(token_for(settings, lowercase(info.login))),
                            },
                        ),
                    },
                },
            },
        }
    }
}

/// Whatever the world answers, a sign-in ends within six answers, and it ends as it is
/// to be answered.
pub proof fn law_sign_in_ends_with_the_outcome(
    provider: Seq<char>,
    access_token: Seq<char>,
    settings: TokenSettingsView,
    world: SignInWorld,
)
    ensures
        sign_in_run(sign_in_start(provider, access_token), settings, world, 6) == SignInView::Done(
            sign_in_outcome(provider, access_token, settings, world),
        ),
{
    reveal_with_fuel(sign_in_run, 7);
}

/// The answer to a sign-in is final: no event changes it.
pub proof fn law_sign_in_outcome_is_final(
    outcome: Result<SignedInView, AppErrorView>,
    event: SignInEventView,
    settings: TokenSettingsView,
)
    ensures
        sign_in_step(SignInView::Done(outcome), event, settings) == SignInView::Done(outcome),
{
}

proof fn lemma_done_stays(
    outcome: Result<SignedInView, AppErrorView>,
    settings: TokenSettingsView,
    world: SignInWorld,
    n: nat,
)
    ensures
        sign_in_run(SignInView::Done(outcome), settings, world, n) == SignInView::Done(outcome),
    decreases n,
{
    if n > 0 {
        lemma_done_stays(outcome, settings, world, (n - 1) as nat);
    }
}

proof fn lemma_run_adds_up(
    state: SignInView,
    settings: TokenSettingsView,
    world: SignInWorld,
    m: nat,
    n: nat,
)
    ensures
        sign_in_run(state, settings, world, m + n) == sign_in_run(
            sign_in_run(state, settings, world, m),
            settings,
            world,
            n,
        ),
    decreases m,
{
    if m > 0 {
        lemma_run_adds_up(
            sign_in_step(state, sign_in_answer(state, world), settings),
            settings,
            world,
            (m - 1) as nat,
            n,
        );
    }
}

/// A user is put on record only where the lookup by account id failed, under the id of
/// that account and its login in lower case, and the token handed out with it is for
/// that very name.
pub proof fn law_new_user_and_token_agree(
    provider: Seq<char>,
    access_token: Seq<char>,
    settings: TokenSettingsView,
    world: SignInWorld,
    n: nat,
)
    ensures
        sign_in_run(sign_in_start(provider, access_token), settings, world, n) matches
            SignInView::CreateUser { user, pat } ==> {
            &&& provider == "github"@
            &&& (world.github)(user_info_request(access_token)) matches Ok(info)
            &&& (world.find_user)(info.id) is Err
            &&& user.github_id == info.id
            &&& user.username == lowercase(info.login)
            &&& pat == (world.issue)(token_for(settings, user.username))
            &&& (world.hash)(user.salt, world.generated.1) == Ok::<Seq<char>, AppErrorView>(
                user.password,
            )
        },
{
    reveal_with_fuel(sign_in_run, 7);
    if n >= 6 {
        let rest = (n - 6) as nat;
        lemma_run_adds_up(sign_in_start(provider, access_token), settings, world, 6, rest);
        law_sign_in_ends_with_the_outcome(provider, access_token, settings, world);
        lemma_done_stays(
            sign_in_outcome(provider, access_token, settings, world),
            settings,
            world,
            rest,
        );
    }
}

/// GitHub is asked whose access token this is at its user endpoint, with the access token
/// unchanged behind `token ` in the `Authorization` header, under the registry's user agent
/// and with nothing else.
pub proof fn law_user_info_request_carries_the_token(access_token: Seq<char>)
    ensures
        ({
            let request = user_info_request(access_token);
            &&& request.method == Method::Get
            &&& request.url == "https://api.github.com/user"@
            &&& request.headers.len() == 2
            &&& request.headers[0] == ("User-Agent"@, "distribution"@)
            &&& request.headers[1].0 == "Authorization"@
            &&& request.headers[1].1.take(6) == "token "@
            &&& request.headers[1].1.skip(6) == access_token
            &&& request.form.len() == 0
        }),
{
    reveal_strlit("token ");
    let value = user_info_request(access_token).headers[1].1;
    assert(value.take(6) == "token "@);
    assert(value.skip(6) == access_token);
}

/// Two different access tokens never give the same request.
pub proof fn law_user_info_requests_tell_tokens_apart(a: Seq<char>, b: Seq<char>)
    requires
        user_info_request(a) == user_info_request(b),
    ensures
        a == b,
{
    law_user_info_request_carries_the_token(a);
    law_user_info_request_carries_the_token(b);
}

/// The request for an access token posts the code, the client id and the client secret as
/// they are, each under its own name, to GitHub's token endpoint, and asks for JSON.
pub proof fn law_access_token_request_carries_the_code(
    code: Seq<char>,
    client_id: Seq<char>,
    client_secret: Seq<char>,
)
    ensures
        ({
            let request = access_token_request(code, client_id, client_secret);
            &&& request.method == Method::Post
            &&& request.url == "https://github.com/login/oauth/access_token"@
            &&& request.headers.len() == 1
            &&& request.headers[0] == ("Accept"@, "application/json"@)
            &&& request.form.len() == 3
            &&& request.form[0] == ("code"@, code)
            &&& request.form[1] == ("client_id"@, client_id)
            &&& request.form[2] == ("client_secret"@, client_secret)
        }),
{
}

/// What becomes of a sign-in, case by case. Only the provider `github` is known. A user who
/// is found by the account's id is answered with 200 and a token for the lower-case name on
/// record. A user who is not gets a record under the account's id and its login in lower
/// case, with the generated salt and the hash of the generated password, and is answered
/// with 201 and a token for that name. Both tokens are ordered with the secret and the
/// lifetime of the settings, and handed out as they were issued.
pub proof fn law_sign_in_by_cases(
    provider: Seq<char>,
    access_token: Seq<char>,
    settings: TokenSettingsView,
    world: SignInWorld,
)
    ensures
        ({
            let issued = |subject: Seq<char>|
                (world.issue)(
                    TokenOrderView {
                        lifetime_secs: settings.lifetime_secs,
                        secret: settings.secret,
                        subject,
                    },
                );
            let refused = |error: AppErrorView| Err::<SignedInView, AppErrorView>(error);
            &&& sign_in_run(
                sign_in_start(provider, access_token),
                settings,
                world,
                6,
            ) matches SignInView::Done(outcome)
            &&& if provider != "github"@ {
                outcome == refused(AppErrorView::BadRequest("Only support github provider"@))
            } else {
                match (world.github)(user_info_request(access_token)) {
                    Err(reason) => outcome == refused(AppErrorView::Internal(reason)),
                    Ok(info) => match (world.find_user)(info.id) {
                        Ok(user) => outcome matches Ok(answer) && answer.status == 200 && answer.pat
                            == issued(lowercase(user.username)),
                        Err(_) => match (world.hash)(world.generated.0, world.generated.1) {
                            Err(error) => outcome == refused(error),
                            Ok(hash) => match (world.create_user)(
                                UserView {
                                    github_id: info.id,
                                    username: lowercase(info.login),
                                    password: hash,
                                    salt: world.generated.0,
                                },
                            ) {
                                Err(error) => outcome == refused(error),
                                Ok(_) => outcome matches Ok(answer) && answer.status == 201
                                    && answer.pat == issued(lowercase(info.login)),
                            },
                        },
                    },
                }
            }
        }),
{
    reveal_with_fuel(sign_in_run, 7);
}

/// A sign-in moves only on what it awaits. In particular nobody is looked up but on
/// GitHub's word, and a new user's token is handed out on nothing but the record's creation.
pub proof fn law_sign_in_moves_only_on_what_it_awaits(
    state: SignInView,
    event: SignInEventView,
    settings: TokenSettingsView,
)
    requires
        sign_in_step(state, event, settings) != state,
    ensures
        state is AskGithub ==> event is Account,
        state is FindUser ==> event is UserFound,
        state is GenerateSecrets ==> event is Secrets,
        state is HashPassword ==> event is Hashed,
        state is IssueToken || state is IssueFirstToken ==> event is Issued,
        state is CreateUser ==> event is UserCreated,
        !(state is Done),
{
}

/// The models of callback requests, accounts and answers show each part as it is.
pub proof fn law_sign_in_part_views_are_faithful(
    req: OAuthCallbackRequest,
    info: UserInfo,
    answer: SignedIn,
)
    ensures
        req@.access_token == req.access_token@,
        req@.token_type == req.token_type@,
        req@.scope == req.scope@,
        info@.login == info.login@,
        info@.id == info.id,
        answer@.status == answer.status,
        answer@.pat == answer.pat@,
{
}

/// The models of a sign-in and of its events show each part as it is.
pub proof fn law_sign_in_views_are_faithful(state: SignIn, event: SignInEvent)
    ensures
        match state {
            SignIn::AskGithub { request } => state@ == (SignInView::AskGithub {
                request: request@,
            }),
            SignIn::FindUser { info } => state@ == (SignInView::FindUser { info: info@ }),
            SignIn::GenerateSecrets { info } => state@ == (SignInView::GenerateSecrets {
                info: info@,
            }),
            SignIn::HashPassword { info, salt, password } => state@ == (SignInView::HashPassword {
                info: info@,
                salt: salt@,
                password: password@,
            }),
            SignIn::IssueToken { order } => state@ == (SignInView::IssueToken { order: order@ }),
            SignIn::IssueFirstToken { order, user } => state@ == (SignInView::IssueFirstToken {
                order: order@,
                user: user@,
            }),
            SignIn::CreateUser { user, pat } => state@ == (SignInView::CreateUser {
                user: user@,
                pat: pat@,
            }),
            SignIn::Done(Ok(answer)) => state@ == SignInView::Done(Ok(answer@)),
            SignIn::Done(Err(error)) => state@ == SignInView::Done(Err(error@)),
        },
        match event {
            SignInEvent::Account(Ok(info)) => event@ == SignInEventView::Account(Ok(info@)),
            SignInEvent::Account(Err(reason)) => event@ == SignInEventView::Account(Err(reason@)),
            SignInEvent::UserFound(Ok(user)) => event@ == SignInEventView::UserFound(Ok(user@)),
            SignInEvent::UserFound(Err(error)) => event@ == SignInEventView::UserFound(Err(error@)),
            SignInEvent::Secrets { salt, password } => event@ == (SignInEventView::Secrets {
                salt: salt@,
                password: password@,
            }),
            SignInEvent::Hashed(Ok(hash)) => event@ == SignInEventView::Hashed(Ok(hash@)),
            SignInEvent::Hashed(Err(error)) => event@ == SignInEventView::Hashed(Err(error@)),
            SignInEvent::Issued(token) => event@ == SignInEventView::Issued(token@),
            SignInEvent::UserCreated(Ok(_)) => event@ matches SignInEventView::UserCreated(shown)
                && shown is Ok,
            SignInEvent::UserCreated(Err(error)) => event@ == SignInEventView::UserCreated(
                Err(error@),
            ),
        },
{
}

} // verus!
