//! The token endpoint: exchanging credentials for a token of the registry.
use vstd::prelude::*;

use crate::clock::{rfc3339_text, Timestamp};
use crate::error::{result_view, AppError, AppErrorView};
use crate::extract::{
    extraction_outcome, extraction_start, ClaimsExtractionView, ExtractionWorld,
};
use crate::header::{AuthHeader, AuthHeaderView};
use crate::identity::{
    token_for, Claims, ClaimsView, TokenOrder, TokenOrderView, TokenSettings, TokenSettingsView, User,
    UserView,
};
use crate::next::{
    next_answer, next_step, next_verdict, verify_request, verify_token_with_next, NextEvent,
    NextEventView, NextReply, NextVerification, NextVerificationView,
};
use crate::text::{canonical_namespace, lowercase};

verus! {

/// The answer of the token endpoint.
#[derive(Debug, PartialEq, Eq)]
pub struct AuthResponse {
    pub token: String,
    /// The token again, under the name that other clients look for.
    pub access_token: String,
    /// For how many seconds the token is valid.
    pub expires_in: i64,
    /// When the token was issued.
    pub issued_at: String,
}

/// The model of an [`AuthResponse`].
pub struct AuthResponseView {
    pub token: Seq<char>,
    pub access_token: Seq<char>,
    pub expires_in: i64,
    pub issued_at: Seq<char>,
}

impl View for AuthResponse {
    type V = AuthResponseView;

    open spec fn view(&self) -> AuthResponseView {
        AuthResponseView {
            token: self.token@,
            access_token: self.access_token@,
            expires_in: self.expires_in,
            issued_at: self.issued_at@,
        }
    }
}

/// The response that hands out a token, valid for `lifetime` seconds.
pub open spec fn token_response(
    token: Seq<char>,
    lifetime: i64,
    issued_at: Seq<char>,
) -> AuthResponseView {
    AuthResponseView { token, access_token: token, expires_in: lifetime, issued_at }
}

impl AuthResponse {
    /// The response that hands out a token which was issued under these settings: it is
    /// valid for as long as they say.
    pub fn new(token: String, settings: &TokenSettings, issued_at: String) -> (r: AuthResponse)
        ensures
            r@ == token_response(token@, settings@.lifetime_secs, issued_at@),
            r.token@ == token@,
            r.access_token@ == token@,
            r.expires_in == settings.lifetime_secs,
            r.issued_at@ == issued_at@,
    {
        AuthResponse {
            token: token.clone(),
            access_token: token,
            expires_in: settings.lifetime_secs,
            issued_at,
        }
    }

    /// The response that hands out a token of these settings at this moment; `None` where
    /// the numbers make no moment of the calendar.
    pub fn issued_at(token: String, settings: &TokenSettings, moment: Timestamp) -> (r: Option<
        AuthResponse,
    >)
        ensures
            match rfc3339_text(moment.secs, moment.nanos) {
                Some(issued_at) => r matches Some(response) && response@ == token_response(
                    token@,
                    settings@.lifetime_secs,
                    issued_at,
                ) && response.token@ == token@ && response.access_token@ == token@
                    && response.expires_in == settings.lifetime_secs && response.issued_at@
                    == issued_at,
                None => r is None,
            },
    {
        match moment.rfc3339() {
            Some(issued_at) => Some(AuthResponse::new(token, settings, issued_at)),
            None => None,
        }
    }

    /// The response that hands out a token of these settings now:
    /// [`AuthResponse::issued_at`] the moment that the clock gives.
    pub fn issued_now(token: String, settings: &TokenSettings) -> (r: AuthResponse)
        ensures
            r@ == token_response(token@, settings@.lifetime_secs, r@.issued_at),
            r.token@ == token@,
            r.access_token@ == token@,
            r.expires_in == settings.lifetime_secs,
            exists|secs: i64, nanos: u32|
                #[trigger] rfc3339_text(secs, nanos) == Some(r@.issued_at),
    {
        AuthResponse::issued_at(token, settings, Timestamp::now()).unwrap()
    }
}

/// A password that is to be held against the salted hash on record.
#[derive(Debug, PartialEq, Eq)]
pub struct PasswordCheck {
    pub salt: String,
    pub hash: String,
    pub password: String,
}

/// The model of a [`PasswordCheck`].
pub struct PasswordCheckView {
    pub salt: Seq<char>,
    pub hash: Seq<char>,
    pub password: Seq<char>,
}

impl View for PasswordCheck {
    type V = PasswordCheckView;

    open spec fn view(&self) -> PasswordCheckView {
        PasswordCheckView { salt: self.salt@, hash: self.hash@, password: self.password@ }
    }
}

impl DeepView for PasswordCheck {
    type V = PasswordCheckView;

    open spec fn deep_view(&self) -> PasswordCheckView {
        self@
    }
}

/// How far the exchange of credentials for a token has come.
#[derive(Debug, PartialEq, Eq)]
pub enum TokenExchange {
    /// The Next program is being asked about a bearer token.
    AskNext { verification: NextVerification },
    /// A bearer token is to be decoded as one that the registry signed with its secret.
    DecodeToken { secret: String, token: String },
    /// The user is to be looked up by name.
    FindUser { username: String, password: String },
    /// A token is to be issued. It is handed out once the password, if there is one to
    /// check, has been checked.
    IssueToken { order: TokenOrder, then_check: Option<PasswordCheck> },
    /// The password is to be checked before the token is handed out.
    CheckPassword { check: PasswordCheck, token: String },
    /// The token, or why there is none.
    Done(Result<String, AppError>),
}

/// What became of the step that a [`TokenExchange`] was waiting for.
#[derive(Debug, PartialEq, Eq)]
pub enum TokenEvent {
    Next(NextEvent),
    Decoded(Result<Claims, AppError>),
    UserFound(Result<User, AppError>),
    Issued(String),
    PasswordChecked(Result<(), AppError>),
    /// The check did not run to its end, for this reason.
    CheckAborted(String),
}

/// The model of a [`TokenExchange`].
#[verifier::ext_equal]
pub enum TokenExchangeView {
    AskNext { verification: NextVerificationView },
    DecodeToken { secret: Seq<char>, token: Seq<char> },
    FindUser { username: Seq<char>, password: Seq<char> },
    IssueToken { order: TokenOrderView, then_check: Option<PasswordCheckView> },
    CheckPassword { check: PasswordCheckView, token: Seq<char> },
    Done(Result<Seq<char>, AppErrorView>),
}

/// The model of a [`TokenEvent`].
pub enum TokenEventView {
    Next(NextEventView),
    Decoded(Result<ClaimsView, AppErrorView>),
    UserFound(Result<UserView, AppErrorView>),
    Issued(Seq<char>),
    PasswordChecked(Result<(), AppErrorView>),
    CheckAborted(Seq<char>),
}

impl View for TokenExchange {
    type V = TokenExchangeView;

    open spec fn view(&self) -> TokenExchangeView {
        match self {
            TokenExchange::AskNext { verification } => TokenExchangeView::AskNext {
                verification: verification@,
            },
            TokenExchange::DecodeToken { secret, token } => TokenExchangeView::DecodeToken {
                secret: secret@,
                token: token@,
            },
            TokenExchange::FindUser { username, password } => TokenExchangeView::FindUser {
                username: username@,
                password: password@,
            },
            TokenExchange::IssueToken { order, then_check } => TokenExchangeView::IssueToken {
                order: order@,
                then_check: then_check.deep_view(),
            },
            TokenExchange::CheckPassword { check, token } => TokenExchangeView::CheckPassword {
                check: check@,
                token: token@,
            },
            TokenExchange::Done(outcome) => TokenExchangeView::Done(result_view(*outcome)),
        }
    }
}

impl View for TokenEvent {
    type V = TokenEventView;

    open spec fn view(&self) -> TokenEventView {
        match self {
            TokenEvent::Next(event) => TokenEventView::Next(event@),
            TokenEvent::Decoded(r) => TokenEventView::Decoded(result_view(*r)),
            TokenEvent::UserFound(r) => TokenEventView::UserFound(result_view(*r)),
            TokenEvent::Issued(token) => TokenEventView::Issued(token@),
            TokenEvent::PasswordChecked(r) => TokenEventView::PasswordChecked(result_view(*r)),
            TokenEvent::CheckAborted(reason) => TokenEventView::CheckAborted(reason@),
        }
    }
}

/// The first state of the exchange.
pub open spec fn exchange_start(
    auth: Option<AuthHeaderView>,
    settings: TokenSettingsView,
    next_auth_url: Option<Seq<char>>,
) -> TokenExchangeView {
    match auth {
        Some(AuthHeaderView::Bearer { token }) => match next_auth_url {
            Some(url) => TokenExchangeView::AskNext {
                verification: NextVerificationView::Send { request: verify_request(url, token) },
            },
            None => TokenExchangeView::DecodeToken { secret: settings.secret, token },
        },
        Some(AuthHeaderView::Basic { username, password }) => TokenExchangeView::FindUser {
            username,
            password,
        },
        None => TokenExchangeView::IssueToken {
            order: token_for(settings, "anonymous"@),
            then_check: None,
        },
    }
}

/// The state once the bearer of a token is known, or known not to be.
pub open spec fn exchange_identified(
    claims: Result<ClaimsView, AppErrorView>,
    settings: TokenSettingsView,
) -> TokenExchangeView {
    match claims {
        Ok(claims) => TokenExchangeView::IssueToken {
            order: token_for(settings, claims.sub),
            then_check: None,
        },
        Err(error) => TokenExchangeView::Done(Err(error)),
    }
}

/// The next state of the exchange. An event that is not awaited changes nothing.
pub open spec fn exchange_step(
    state: TokenExchangeView,
    event: TokenEventView,
    settings: TokenSettingsView,
) -> TokenExchangeView {
    match (state, event) {
        (TokenExchangeView::AskNext { verification }, TokenEventView::Next(event)) =>
            match next_step(verification, event) {
                NextVerificationView::Done(verdict) => exchange_identified(verdict, settings),
                verification => TokenExchangeView::AskNext { verification },
            },
        (TokenExchangeView::DecodeToken { .. }, TokenEventView::Decoded(decoded)) =>
            exchange_identified(decoded, settings),
        (TokenExchangeView::FindUser { password, .. }, TokenEventView::UserFound(found)) =>
            match found {
                Ok(user) => TokenExchangeView::IssueToken {
                    order: token_for(settings, lowercase(user.username)),
                    then_check: Some(
                        PasswordCheckView { salt: user.salt, hash: user.password, password },
                    ),
                },
                Err(error) => TokenExchangeView::Done(Err(error)),
            },
        (TokenExchangeView::IssueToken { then_check, .. }, TokenEventView::Issued(token)) =>
            match then_check {
                Some(check) => TokenExchangeView::CheckPassword { check, token },
                None => TokenExchangeView::Done(Ok(token)),
            },
        (TokenExchangeView::CheckPassword { token, .. }, TokenEventView::PasswordChecked(checked)) =>
            match checked {
                Ok(_) => TokenExchangeView::Done(Ok(token)),
                Err(error) => TokenExchangeView::Done(Err(error)),
            },
        (TokenExchangeView::CheckPassword { .. }, TokenEventView::CheckAborted(reason)) =>
            TokenExchangeView::Done(Err(AppErrorView::Internal(reason))),
        _ => state,
    }
}

/// Starts the exchange of the credentials of a request for a token of the registry.
/// `next_auth_url` is the Next program's address, where verification is delegated to
/// it.
pub fn auth(
    header: Option<AuthHeader>,
    settings: &TokenSettings,
    next_auth_url: Option<&str>,
) -> (r: TokenExchange)
    ensures
        r@ == exchange_start(header.deep_view(), settings@, next_auth_url.deep_view()),
{
    match header {
        Some(AuthHeader::Bearer { token }) => match next_auth_url {
            Some(url) => TokenExchange::AskNext {
                verification: verify_token_with_next(url, token.as_str()),
            },
            None => TokenExchange::DecodeToken { secret: settings.secret.clone(), token },
        },
        Some(AuthHeader::Basic { username, password }) => TokenExchange::FindUser {
            username,
            password,
        },
        None => TokenExchange::IssueToken {
            order: settings.order("anonymous".to_owned()),
            then_check: None,
        },
    }
}

fn identified(claims: Result<Claims, AppError>, settings: &TokenSettings) -> (r: TokenExchange)
    ensures
        r@ == exchange_identified(result_view(claims), settings@),
{
    match claims {
        Ok(claims) => TokenExchange::IssueToken {
            order: settings.order(claims.sub),
            then_check: None,
        },
        Err(error) => TokenExchange::Done(Err(error)),
    }
}

impl TokenExchange {
    /// Takes the exchange one step further, under the settings it was started with.
    pub fn step(self, event: TokenEvent, settings: &TokenSettings) -> (r: TokenExchange)
        ensures
            r@ == exchange_step(self@, event@, settings@),
    {
        match (self, event) {
            (TokenExchange::AskNext { verification }, TokenEvent::Next(event)) => {
                match verification.step(event) {
                    NextVerification::Done(verdict) => identified(verdict, settings),
                    verification => TokenExchange::AskNext { verification },
                }
            },
            (TokenExchange::DecodeToken { .. }, TokenEvent::Decoded(decoded)) => identified(
                decoded,
                settings,
            ),
            (TokenExchange::FindUser { password, .. }, TokenEvent::UserFound(found)) => match found {
                Ok(user) => TokenExchange::IssueToken {
                    order: settings.order(canonical_namespace(user.username.as_str())),
                    then_check: Some(PasswordCheck { salt: user.salt, hash: user.password, password }),
                },
                Err(error) => TokenExchange::Done(Err(error)),
            },
            (TokenExchange::IssueToken { then_check, .. }, TokenEvent::Issued(token)) => match then_check {
                Some(check) => TokenExchange::CheckPassword { check, token },
                None => TokenExchange::Done(Ok(token)),
            },
            (TokenExchange::CheckPassword { token, .. }, TokenEvent::PasswordChecked(checked)) => {
                match checked {
                    Ok(_) => TokenExchange::Done(Ok(token)),
                    Err(error) => TokenExchange::Done(Err(error)),
                }
            },
            (TokenExchange::CheckPassword { .. }, TokenEvent::CheckAborted(reason)) =>
                TokenExchange::Done(Err(AppError::Internal(reason))),
            (state, _) => state,
        }
    }
}

/// Everything outside the exchange that it can ask. Decoding takes a secret and a
/// token. A password check gives its verdict
/// or, where it does not run to its end, the reason.
pub struct ExchangeWorld {
    pub decode: spec_fn(Seq<char>, Seq<char>) -> Result<ClaimsView, AppErrorView>,
    pub next: NextReply,
    pub find_user: spec_fn(Seq<char>) -> Result<UserView, AppErrorView>,
    pub check_password: spec_fn(PasswordCheckView) -> Result<Result<(), AppErrorView>, Seq<char>>,
    pub issue: spec_fn(TokenOrderView) -> Seq<char>,
}

/// The event with which the world answers the state.
pub open spec fn exchange_answer(state: TokenExchangeView, world: ExchangeWorld) -> TokenEventView {
    match state {
        TokenExchangeView::AskNext { verification } => TokenEventView::Next(
            next_answer(verification, world.next),
        ),
        TokenExchangeView::DecodeToken { secret, token } => TokenEventView::Decoded(
            (world.decode)(secret, token),
        ),
        TokenExchangeView::FindUser { username, .. } => TokenEventView::UserFound(
            (world.find_user)(username),
        ),
        TokenExchangeView::IssueToken { order, .. } => TokenEventView::Issued(
            (world.issue)(order),
        ),
        TokenExchangeView::CheckPassword { check, .. } => match (world.check_password)(check) {
            Ok(checked) => TokenEventView::PasswordChecked(checked),
            Err(reason) => TokenEventView::CheckAborted(reason),
        },
        TokenExchangeView::Done(_) => TokenEventView::PasswordChecked(Ok(())),
    }
}

/// The state after `n` answers of the world.
pub open spec fn exchange_run(
    state: TokenExchangeView,
    settings: TokenSettingsView,
    world: ExchangeWorld,
    n: nat,
) -> TokenExchangeView
    decreases n,
{
    if n == 0 {
        state
    } else {
        exchange_run(
            exchange_step(state, exchange_answer(state, world), settings),
            settings,
            world,
            (n - 1) as nat,
        )
    }
}

/// For whom the token endpoint issues a token, or why it refuses.
pub open spec fn token_subject(
    auth: Option<AuthHeaderView>,
    secret: Seq<char>,
    next_auth_url: Option<Seq<char>>,
    world: ExchangeWorld,
) -> Result<Seq<char>, AppErrorView> {
    match auth {
        None => Ok("anonymous"@),
        Some(AuthHeaderView::Bearer { token }) => {
            let claims = if next_auth_url is Some {
                next_verdict(world.next)
            } else {
                (world.decode)(secret, token)
            };
            match claims {
                Ok(claims) => Ok(claims.sub),
                Err(error) => Err(error),
            }
        },
        Some(AuthHeaderView::Basic { username, password }) => match (world.find_user)(username) {
            Err(error) => Err(error),
            Ok(user) => match (world.check_password)(
                PasswordCheckView { salt: user.salt, hash: user.password, password },
            ) {
                Err(reason) => Err(AppErrorView::Internal(reason)),
                Ok(Err(error)) => Err(error),
                Ok(Ok(_)) => Ok(lowercase(user.username)),
            },
        },
    }
}

/// Whatever the world answers, the exchange ends within three answers, with a token
/// for the subject, issued under the settings, or with the refusal.
pub proof fn law_exchange_ends_with_a_token_for_the_subject(
    auth: Option<AuthHeaderView>,
    settings: TokenSettingsView,
    next_auth_url: Option<Seq<char>>,
    world: ExchangeWorld,
)
    ensures
        exchange_run(exchange_start(auth, settings, next_auth_url), settings, world, 3)
            == TokenExchangeView::Done(
            match token_subject(auth, settings.secret, next_auth_url, world) {
                Ok(subject) => Ok((world.issue)(token_for(settings, subject))),
                Err(error) => Err(error),
            },
        ),
{
    reveal_with_fuel(exchange_run, 4);
}

/// A refusal is final, and so is a token that was handed out: no event changes either.
pub proof fn law_exchange_outcome_is_final(
    outcome: Result<Seq<char>, AppErrorView>,
    event: TokenEventView,
    settings: TokenSettingsView,
)
    ensures
        exchange_step(TokenExchangeView::Done(outcome), event, settings) == TokenExchangeView::Done(
            outcome,
        ),
{
}

/// A user name and password buy a token only where the check of that password against
/// the record of that user succeeded, and the token is for the user's canonical name.
pub proof fn law_password_token_rests_on_the_check(
    username: Seq<char>,
    password: Seq<char>,
    secret: Seq<char>,
    next_auth_url: Option<Seq<char>>,
    world: ExchangeWorld,
)
    ensures
        token_subject(
            Some(AuthHeaderView::Basic { username, password }),
            secret,
            next_auth_url,
            world,
        ) matches Ok(subject) ==> {
            &&& (world.find_user)(username) matches Ok(user)
            &&& subject == lowercase(user.username)
            &&& (world.check_password)(
                PasswordCheckView { salt: user.salt, hash: user.password, password },
            ) matches Ok(checked)
            &&& checked is Ok
        },
{
}

proof fn lemma_done_stays(
    outcome: Result<Seq<char>, AppErrorView>,
    settings: TokenSettingsView,
    world: ExchangeWorld,
    n: nat,
)
    ensures
        exchange_run(TokenExchangeView::Done(outcome), settings, world, n)
            == TokenExchangeView::Done(outcome),
    decreases n,
{
    if n > 0 {
        lemma_done_stays(outcome, settings, world, (n - 1) as nat);
    }
}

proof fn lemma_run_adds_up(
    state: TokenExchangeView,
    settings: TokenSettingsView,
    world: ExchangeWorld,
    m: nat,
    n: nat,
)
    ensures
        exchange_run(state, settings, world, m + n) == exchange_run(
            exchange_run(state, settings, world, m),
            settings,
            world,
            n,
        ),
    decreases m,
{
    if m > 0 {
        lemma_run_adds_up(
            exchange_step(state, exchange_answer(state, world), settings),
            settings,
            world,
            (m - 1) as nat,
            n,
        );
    }
}

proof fn lemma_exchange_is_over(
    auth: Option<AuthHeaderView>,
    settings: TokenSettingsView,
    next_auth_url: Option<Seq<char>>,
    world: ExchangeWorld,
    n: nat,
)
    requires
        n >= 3,
    ensures
        exchange_run(exchange_start(auth, settings, next_auth_url), settings, world, n) is Done,
{
    let start = exchange_start(auth, settings, next_auth_url);
    let rest = (n - 3) as nat;
    lemma_run_adds_up(start, settings, world, 3, rest);
    law_exchange_ends_with_a_token_for_the_subject(auth, settings, next_auth_url, world);
    let end = exchange_run(start, settings, world, 3);
    lemma_done_stays(end->Done_0, settings, world, rest);
}

/// The Next program is asked about the very token that the request carried, at the
/// configured address, and only where verification is delegated.
pub proof fn law_next_is_asked_about_the_token(
    auth: Option<AuthHeaderView>,
    settings: TokenSettingsView,
    next_auth_url: Option<Seq<char>>,
    world: ExchangeWorld,
    n: nat,
)
    ensures
        exchange_run(exchange_start(auth, settings, next_auth_url), settings, world, n) matches
            TokenExchangeView::AskNext { verification } ==> {
            &&& next_auth_url is Some
            &&& auth matches Some(AuthHeaderView::Bearer { token })
            &&& verification matches NextVerificationView::Send { request } ==> request
                == verify_request(next_auth_url->0, token)
        },
{
    reveal_with_fuel(exchange_run, 4);
    if n >= 3 {
        lemma_exchange_is_over(auth, settings, next_auth_url, world, n);
    }
}

/// A token is only ever ordered under the settings and, where the exchange ends with a
/// token, for its subject. A token that no password check stands before is ordered only
/// where the exchange does end with it.
pub proof fn law_tokens_are_ordered_under_the_settings(
    auth: Option<AuthHeaderView>,
    settings: TokenSettingsView,
    next_auth_url: Option<Seq<char>>,
    world: ExchangeWorld,
    n: nat,
)
    ensures
        exchange_run(exchange_start(auth, settings, next_auth_url), settings, world, n) matches
            TokenExchangeView::IssueToken { order, then_check } ==> {
            &&& order == token_for(settings, order.subject)
            &&& token_subject(auth, settings.secret, next_auth_url, world) matches Ok(subject)
                ==> order.subject == subject
            &&& then_check is None ==> token_subject(
                auth,
                settings.secret,
                next_auth_url,
                world,
            ) is Ok
        },
{
    reveal_with_fuel(exchange_run, 4);
    if n >= 3 {
        lemma_exchange_is_over(auth, settings, next_auth_url, world, n);
    }
}

/// The token exchange holds together: where the token that the token endpoint issues for
/// a subject decodes to claims on that subject, it identifies its bearer as that subject,
/// whether or not verification is delegated, and to whichever Next program, when the
/// token is issued (`issued_with`) and when it is used (`used_with`).
pub proof fn law_issued_token_identifies_its_subject(
    auth: Option<AuthHeaderView>,
    settings: TokenSettingsView,
    subject: Seq<char>,
    exchange: ExchangeWorld,
    extraction: ExtractionWorld,
    auth_url: Seq<char>,
    issued_with: Option<Seq<char>>,
    used_with: Option<Seq<char>>,
)
    requires
        token_subject(auth, settings.secret, issued_with, exchange) == Ok::<
            Seq<char>,
            AppErrorView,
        >(subject),
        (extraction.decode)(
            settings.secret,
            (exchange.issue)(token_for(settings, subject)),
        ) matches Ok(claims) && claims.sub == subject,
    ensures
        extraction_outcome(
            Some(AuthHeaderView::Bearer { token: (exchange.issue)(token_for(settings, subject)) }),
            settings.secret,
            auth_url,
            used_with,
            extraction,
        ) matches Ok(claims) && claims.sub == subject,
{
}

/// The response carries the token unchanged under both of its names, the lifetime and the
/// moment as they were given.
pub proof fn law_response_carries_the_token(token: Seq<char>, lifetime: i64, issued_at: Seq<char>)
    ensures
        token_response(token, lifetime, issued_at).token == token,
        token_response(token, lifetime, issued_at).access_token == token,
        token_response(token, lifetime, issued_at).expires_in == lifetime,
        token_response(token, lifetime, issued_at).issued_at == issued_at,
{
}

/// The secret with which a token is ordered is the very secret with which the identification
/// of a later request, and the exchange of a token for another, decode it.
pub proof fn law_tokens_are_decoded_with_the_secret_they_were_ordered_with(
    settings: TokenSettingsView,
    subject: Seq<char>,
    token: Seq<char>,
    auth_url: Seq<char>,
    next_auth_url: Option<Seq<char>>,
)
    ensures
        extraction_start(
            Some(AuthHeaderView::Bearer { token }),
            settings.secret,
            auth_url,
            next_auth_url,
        ) matches ClaimsExtractionView::DecodeToken { secret, token: decoded, .. } && secret
            == token_for(settings, subject).secret && decoded == token,
        exchange_start(
            Some(AuthHeaderView::Bearer { token }),
            settings,
            None,
        ) matches TokenExchangeView::DecodeToken { secret, token: decoded } && secret == token_for(
            settings,
            subject,
        ).secret && decoded == token,
{
}

/// What becomes of an exchange, case by case. Without credentials the token is for
/// `anonymous`. A bearer's token is for the subject of the claims, which the Next program
/// gives where there is one and the registry's own decoding where there is none. A name and
/// password give a token for the lower-case name on record once the password was held
/// against the salt and hash on record. The token is ordered with the secret and the
/// lifetime of the settings, and handed out as it was issued.
pub proof fn law_exchange_by_cases(
    auth: Option<AuthHeaderView>,
    settings: TokenSettingsView,
    next_auth_url: Option<Seq<char>>,
    world: ExchangeWorld,
)
    ensures
        ({
            let issued = |subject: Seq<char>|
                Ok::<Seq<char>, AppErrorView>(
                    (world.issue)(
                        TokenOrderView {
                            lifetime_secs: settings.lifetime_secs,
                            secret: settings.secret,
                            subject,
                        },
                    ),
                );
            let refused = |error: AppErrorView| Err::<Seq<char>, AppErrorView>(error);
            &&& exchange_run(
                exchange_start(auth, settings, next_auth_url),
                settings,
                world,
                3,
            ) matches TokenExchangeView::Done(outcome)
            &&& match auth {
                None => outcome == issued("anonymous"@),
                Some(AuthHeaderView::Bearer { token }) => if next_auth_url is Some {
                    match next_verdict(world.next) {
                        Ok(claims) => outcome == issued(claims.sub),
                        Err(error) => outcome == refused(error),
                    }
                } else {
                    match (world.decode)(settings.secret, token) {
                        Ok(claims) => outcome == issued(claims.sub),
                        Err(error) => outcome == refused(error),
                    }
                },
                Some(AuthHeaderView::Basic { username, password }) => match (world.find_user)(
                    username,
                ) {
                    Err(error) => outcome == refused(error),
                    Ok(user) => match (world.check_password)(
                        PasswordCheckView { salt: user.salt, hash: user.password, password },
                    ) {
                        Err(reason) => outcome == refused(AppErrorView::Internal(reason)),
                        Ok(Err(error)) => outcome == refused(error),
                        Ok(Ok(_)) => outcome == issued(lowercase(user.username)),
                    },
                },
            }
        }),
{
    reveal_with_fuel(exchange_run, 4);
}

/// The exchange moves only on what it awaits. In particular a token that waits for a
/// password check is handed out on nothing else.
pub proof fn law_exchange_moves_only_on_what_it_awaits(
    state: TokenExchangeView,
    event: TokenEventView,
    settings: TokenSettingsView,
)
    requires
        exchange_step(state, event, settings) != state,
    ensures
        state is AskNext ==> event is Next,
        state is DecodeToken ==> event is Decoded,
        state is FindUser ==> event is UserFound,
        state is IssueToken ==> event is Issued,
        state is CheckPassword ==> event is PasswordChecked || event is CheckAborted,
        !(state is Done),
{
}

/// The models of responses and password checks show each part as it is.
pub proof fn law_response_views_are_faithful(response: AuthResponse, check: PasswordCheck)
    ensures
        response@.token == response.token@,
        response@.access_token == response.access_token@,
        response@.expires_in == response.expires_in,
        response@.issued_at == response.issued_at@,
        check@.salt == check.salt@,
        check@.hash == check.hash@,
        check@.password == check.password@,
        check.deep_view() == check@,
{
}

/// The models of an exchange and of its events show each part as it is.
pub proof fn law_exchange_views_are_faithful(state: TokenExchange, event: TokenEvent)
    ensures
        match state {
            TokenExchange::AskNext { verification } => state@ == (TokenExchangeView::AskNext {
                verification: verification@,
            }),
            TokenExchange::DecodeToken { secret, token } => state@ == (
            TokenExchangeView::DecodeToken { secret: secret@, token: token@ }),
            TokenExchange::FindUser { username, password } => state@ == (
            TokenExchangeView::FindUser { username: username@, password: password@ }),
            TokenExchange::IssueToken { order, then_check } => state@ matches
                TokenExchangeView::IssueToken { order: shown_order, then_check: shown_check }
                && shown_order == order@ && match then_check {
                Some(check) => shown_check == Some(check@),
                None => shown_check is None,
            },
            TokenExchange::CheckPassword { check, token } => state@ == (
            TokenExchangeView::CheckPassword { check: check@, token: token@ }),
            TokenExchange::Done(Ok(token)) => state@ == TokenExchangeView::Done(Ok(token@)),
            TokenExchange::Done(Err(error)) => state@ == TokenExchangeView::Done(Err(error@)),
        },
        match event {
            TokenEvent::Next(inner) => event@ == TokenEventView::Next(inner@),
            TokenEvent::Decoded(Ok(claims)) => event@ == TokenEventView::Decoded(Ok(claims@)),
            TokenEvent::Decoded(Err(error)) => event@ == TokenEventView::Decoded(Err(error@)),
            TokenEvent::UserFound(Ok(user)) => event@ == TokenEventView::UserFound(Ok(user@)),
            TokenEvent::UserFound(Err(error)) => event@ == TokenEventView::UserFound(Err(error@)),
            TokenEvent::Issued(token) => event@ == TokenEventView::Issued(token@),
            TokenEvent::PasswordChecked(Ok(_)) => event@ matches TokenEventView::PasswordChecked(
                shown,
            ) && shown is Ok,
            TokenEvent::PasswordChecked(Err(error)) => event@ == TokenEventView::PasswordChecked(
                Err(error@),
            ),
            TokenEvent::CheckAborted(reason) => event@ == TokenEventView::CheckAborted(reason@),
        },
{
}

} // verus!
