//! Whom a request to the registry comes from.
use vstd::prelude::*;

use crate::error::{result_view, AppError, AppErrorView};
use crate::header::{AuthHeader, AuthHeaderView};
use crate::identity::{Claims, ClaimsView, User, UserView};
use crate::next::{
    next_answer, next_step, next_verdict, verify_request, verify_token_with_next, NextEvent,
    NextEventView, NextReply, NextVerification, NextVerificationView,
};

verus! {

/// How far the identification of a requester has come.
#[derive(Debug, PartialEq, Eq)]
pub enum ClaimsExtraction {
    /// The token is to be decoded as one that the registry signed with its secret. If
    /// that fails, the Next program at `next_auth_url` is asked, where there is one.
    DecodeToken { secret: String, token: String, next_auth_url: Option<String> },
    /// The Next program is being asked.
    AskNext { verification: NextVerification },
    /// The user is to be looked up by name.
    FindUser { username: String, password: String },
    /// The password is to be held against the salted hash on record.
    CheckPassword { username: String, salt: String, hash: String, password: String },
    /// The claims, or why there are none.
    Done(Result<Claims, AppError>),
}

/// What became of the step that a [`ClaimsExtraction`] was waiting for.
#[derive(Debug, PartialEq, Eq)]
pub enum ExtractionEvent {
    Decoded(Result<Claims, AppError>),
    Next(NextEvent),
    UserFound(Result<User, AppError>),
    PasswordChecked(Result<(), AppError>),
}

/// The model of a [`ClaimsExtraction`].
#[verifier::ext_equal]
pub enum ClaimsExtractionView {
    DecodeToken { secret: Seq<char>, token: Seq<char>, next_auth_url: Option<Seq<char>> },
    AskNext { verification: NextVerificationView },
    FindUser { username: Seq<char>, password: Seq<char> },
    CheckPassword { username: Seq<char>, salt: Seq<char>, hash: Seq<char>, password: Seq<char> },
    Done(Result<ClaimsView, AppErrorView>),
}

/// The model of an [`ExtractionEvent`].
pub enum ExtractionEventView {
    Decoded(Result<ClaimsView, AppErrorView>),
    Next(NextEventView),
    UserFound(Result<UserView, AppErrorView>),
    PasswordChecked(Result<(), AppErrorView>),
}

impl View for ClaimsExtraction {
    type V = ClaimsExtractionView;

    open spec fn view(&self) -> ClaimsExtractionView {
        match self {
            ClaimsExtraction::DecodeToken { secret, token, next_auth_url } =>
                ClaimsExtractionView::DecodeToken {
                secret: secret@,
                token: token@,
                next_auth_url: next_auth_url.deep_view(),
            },
            ClaimsExtraction::AskNext { verification } => ClaimsExtractionView::AskNext {
                verification: verification@,
            },
            ClaimsExtraction::FindUser { username, password } => ClaimsExtractionView::FindUser {
                username: username@,
                password: password@,
            },
            ClaimsExtraction::CheckPassword { username, salt, hash, password } =>
                ClaimsExtractionView::CheckPassword {
                username: username@,
                salt: salt@,
                hash: hash@,
                password: password@,
            },
            ClaimsExtraction::Done(outcome) => ClaimsExtractionView::Done(result_view(*outcome)),
        }
    }
}

impl View for ExtractionEvent {
    type V = ExtractionEventView;

    open spec fn view(&self) -> ExtractionEventView {
        match self {
            ExtractionEvent::Decoded(r) => ExtractionEventView::Decoded(result_view(*r)),
            ExtractionEvent::Next(event) => ExtractionEventView::Next(event@),
            ExtractionEvent::UserFound(r) => ExtractionEventView::UserFound(result_view(*r)),
            ExtractionEvent::PasswordChecked(r) => ExtractionEventView::PasswordChecked(
                result_view(*r),
            ),
        }
    }
}

/// The refusal of a user name and password where tokens are verified elsewhere.
pub open spec fn basic_not_supported(auth_url: Seq<char>) -> AppErrorView {
    AppErrorView::Unauthorized {
        msg: "Basic auth is not supported with delegated authentication"@,
        auth_url: Some(auth_url),
    }
}

/// The refusal of a request without usable credentials.
pub open spec fn header_missing(auth_url: Seq<char>) -> AppErrorView {
    AppErrorView::Unauthorized {
        msg: "Missing `authorization` header or invalid `authorization` header"@,
        auth_url: Some(auth_url),
    }
}

/// The first state of the identification.
pub open spec fn extraction_start(
    auth: Option<AuthHeaderView>,
    secret: Seq<char>,
    auth_url: Seq<char>,
    next_auth_url: Option<Seq<char>>,
) -> ClaimsExtractionView {
    match auth {
        Some(AuthHeaderView::Bearer { token }) => ClaimsExtractionView::DecodeToken {
            secret,
            token,
            next_auth_url,
        },
        Some(AuthHeaderView::Basic { username, password }) => if next_auth_url is Some {
            ClaimsExtractionView::Done(Err(basic_not_supported(auth_url)))
        } else {
            ClaimsExtractionView::FindUser { username, password }
        },
        None => ClaimsExtractionView::Done(Err(header_missing(auth_url))),
    }
}

/// A verification by the Next program as a state: it is over when the verdict is in.
pub open spec fn extraction_asking(verification: NextVerificationView) -> ClaimsExtractionView {
    match verification {
        NextVerificationView::Done(verdict) => ClaimsExtractionView::Done(verdict),
        _ => ClaimsExtractionView::AskNext { verification },
    }
}

/// The next state of the identification. An event that is not awaited changes nothing.
pub open spec fn extraction_step(
    state: ClaimsExtractionView,
    event: ExtractionEventView,
) -> ClaimsExtractionView {
    match (state, event) {
        (
            ClaimsExtractionView::DecodeToken { token, next_auth_url, .. },
            ExtractionEventView::Decoded(decoded),
        ) => match (decoded, next_auth_url) {
            (Err(_), Some(url)) => ClaimsExtractionView::AskNext {
                verification: NextVerificationView::Send { request: verify_request(url, token) },
            },
            _ => ClaimsExtractionView::Done(decoded),
        },
        (ClaimsExtractionView::AskNext { verification }, ExtractionEventView::Next(event)) =>
            extraction_asking(next_step(verification, event)),
        (
            ClaimsExtractionView::FindUser { username, password },
            ExtractionEventView::UserFound(found),
        ) => match found {
            Ok(user) => ClaimsExtractionView::CheckPassword {
                username,
                salt: user.salt,
                hash: user.password,
                password,
            },
            Err(error) => ClaimsExtractionView::Done(Err(error)),
        },
        (
            ClaimsExtractionView::CheckPassword { username, .. },
            ExtractionEventView::PasswordChecked(checked),
        ) => match checked {
            Ok(_) => ClaimsExtractionView::Done(Ok(ClaimsView { sub: username, exp: 0 })),
            Err(error) => ClaimsExtractionView::Done(Err(error)),
        },
        _ => state,
    }
}

/// Starts to find out whom a request comes from. `jwt_secret` is the secret with which
/// the registry signs its tokens; `auth_url` is where a refused client
/// is told to get a token; `next_auth_url` is the Next program's address, where
/// verification is delegated to it.
pub fn extract_claims(
    auth: Option<AuthHeader>,
    jwt_secret: &str,
    auth_url: &str,
    next_auth_url: Option<&str>,
) -> (r: ClaimsExtraction)
    ensures
        r@ == extraction_start(
            auth.deep_view(),
            jwt_secret@,
            auth_url@,
            next_auth_url.deep_view(),
        ),
{
    match auth {
        Some(AuthHeader::Bearer { token }) => {
            // A token of the registry's own keeps working where verification is
            // delegated, so it is tried first in either case.
            let next_auth_url = match next_auth_url {
                Some(url) => Some(url.to_owned()),
                None => None,
            };
            ClaimsExtraction::DecodeToken { secret: jwt_secret.to_owned(), token, next_auth_url }
        },
        Some(AuthHeader::Basic { username, password }) => {
            if next_auth_url.is_some() {
                ClaimsExtraction::Done(
                    Err(
                        AppError::Unauthorized {
                            msg: "Basic auth is not supported with delegated authentication".to_owned(),
                            auth_url: Some(auth_url.to_owned()),
                        },
                    ),
                )
            } else {
                ClaimsExtraction::FindUser { username, password }
            }
        },
        None => ClaimsExtraction::Done(
            Err(
                AppError::Unauthorized {
                    msg: "Missing `authorization` header or invalid `authorization` header".to_owned(),
                    auth_url: Some(auth_url.to_owned()),
                },
            ),
        ),
    }
}

impl ClaimsExtraction {
    /// Takes the identification one step further.
    pub fn step(self, event: ExtractionEvent) -> (r: ClaimsExtraction)
        ensures
            r@ == extraction_step(self@, event@),
    {
        match (self, event) {
            (
                ClaimsExtraction::DecodeToken { token, next_auth_url, .. },
                ExtractionEvent::Decoded(decoded),
            ) => match (decoded, next_auth_url) {
                (Err(_), Some(url)) => ClaimsExtraction::AskNext {
                    verification: verify_token_with_next(url.as_str(), token.as_str()),
                },
                (decoded, _) => ClaimsExtraction::Done(decoded),
            },
            (ClaimsExtraction::AskNext { verification }, ExtractionEvent::Next(event)) => {
                match verification.step(event) {
                    NextVerification::Done(verdict) => ClaimsExtraction::Done(verdict),
                    verification => ClaimsExtraction::AskNext { verification },
                }
            },
            (
                ClaimsExtraction::FindUser { username, password },
                ExtractionEvent::UserFound(found),
            ) => match found {
                Ok(user) => ClaimsExtraction::CheckPassword {
                    username,
                    salt: user.salt,
                    hash: user.password,
                    password,
                },
                Err(error) => ClaimsExtraction::Done(Err(error)),
            },
            (
                ClaimsExtraction::CheckPassword { username, .. },
                ExtractionEvent::PasswordChecked(checked),
            ) => match checked {
                Ok(_) => ClaimsExtraction::Done(Ok(Claims { sub: username, exp: 0 })),
                Err(error) => ClaimsExtraction::Done(Err(error)),
            },
            (state, _) => state,
        }
    }
}

/// Everything outside the identification that it can ask: what decoding a token with a
/// secret gives, what the Next program replies, which user a name finds, and what holding a
/// password against a salted hash says.
pub struct ExtractionWorld {
    pub decode: spec_fn(Seq<char>, Seq<char>) -> Result<ClaimsView, AppErrorView>,
    pub next: NextReply,
    pub find_user: spec_fn(Seq<char>) -> Result<UserView, AppErrorView>,
    pub check_password: spec_fn(Seq<char>, Seq<char>, Seq<char>) -> Result<(), AppErrorView>,
}

/// The event with which the world answers the state.
pub open spec fn extraction_answer(
    state: ClaimsExtractionView,
    world: ExtractionWorld,
) -> ExtractionEventView {
    match state {
        ClaimsExtractionView::DecodeToken { secret, token, .. } => ExtractionEventView::Decoded(
            (world.decode)(secret, token),
        ),
        ClaimsExtractionView::AskNext { verification } => ExtractionEventView::Next(
            next_answer(verification, world.next),
        ),
        ClaimsExtractionView::FindUser { username, .. } => ExtractionEventView::UserFound(
            (world.find_user)(username),
        ),
        ClaimsExtractionView::CheckPassword { salt, hash, password, .. } =>
            ExtractionEventView::PasswordChecked((world.check_password)(salt, hash, password)),
        ClaimsExtractionView::Done(_) => ExtractionEventView::PasswordChecked(Ok(())),
    }
}

/// The state after `n` answers of the world.
pub open spec fn extraction_run(
    state: ClaimsExtractionView,
    world: ExtractionWorld,
    n: nat,
) -> ClaimsExtractionView
    decreases n,
{
    if n == 0 {
        state
    } else {
        extraction_run(
            extraction_step(state, extraction_answer(state, world)),
            world,
            (n - 1) as nat,
        )
    }
}

/// What the registry makes of the credentials of a request.
pub open spec fn extraction_outcome(
    auth: Option<AuthHeaderView>,
    secret: Seq<char>,
    auth_url: Seq<char>,
    next_auth_url: Option<Seq<char>>,
    world: ExtractionWorld,
) -> Result<ClaimsView, AppErrorView> {
    match auth {
        None => Err(header_missing(auth_url)),
        Some(AuthHeaderView::Bearer { token }) => if (world.decode)(secret, token) is Err
            && next_auth_url is Some {
            next_verdict(world.next)
        } else {
            (world.decode)(secret, token)
        },
        Some(AuthHeaderView::Basic { username, password }) => if next_auth_url is Some {
            Err(basic_not_supported(auth_url))
        } else {
            match (world.find_user)(username) {
                Err(error) => Err(error),
                Ok(user) => match (world.check_password)(user.salt, user.password, password) {
                    Err(error) => Err(error),
                    Ok(_) => Ok(ClaimsView { sub: username, exp: 0 }),
                },
            }
        },
    }
}

/// Whatever the world answers, the identification ends within three answers, and it
/// ends with what the registry makes of the credentials.
pub proof fn law_extraction_ends_with_the_outcome(
    auth: Option<AuthHeaderView>,
    secret: Seq<char>,
    auth_url: Seq<char>,
    next_auth_url: Option<Seq<char>>,
    world: ExtractionWorld,
)
    ensures
        extraction_run(extraction_start(auth, secret, auth_url, next_auth_url), world, 3)
            == ClaimsExtractionView::Done(
            extraction_outcome(auth, secret, auth_url, next_auth_url, world),
        ),
{
    reveal_with_fuel(extraction_run, 4);
}

/// A token that the registry itself can decode is settled by that alone, also where
/// verification is delegated: its claims are the outcome, and the Next program is
/// never asked.
pub proof fn law_own_tokens_are_decoded_locally(
    token: Seq<char>,
    secret: Seq<char>,
    auth_url: Seq<char>,
    next_auth_url: Option<Seq<char>>,
    world: ExtractionWorld,
    n: nat,
)
    requires
        (world.decode)(secret, token) is Ok,
    ensures
        ({
            let start = extraction_start(
                Some(AuthHeaderView::Bearer { token }),
                secret,
                auth_url,
                next_auth_url,
            );
            &&& !(extraction_run(start, world, n) is AskNext)
            &&& n > 0 ==> extraction_run(start, world, n) == ClaimsExtractionView::Done(
                (world.decode)(secret, token),
            )
        }),
{
    if n > 0 {
        lemma_done_stays((world.decode)(secret, token), world, (n - 1) as nat);
    }
}

proof fn lemma_done_stays(
    outcome: Result<ClaimsView, AppErrorView>,
    world: ExtractionWorld,
    n: nat,
)
    ensures
        extraction_run(ClaimsExtractionView::Done(outcome), world, n) == ClaimsExtractionView::Done(
            outcome,
        ),
    decreases n,
{
    if n > 0 {
        lemma_done_stays(outcome, world, (n - 1) as nat);
    }
}

/// An outcome is final: no event changes it.
pub proof fn law_extraction_outcome_is_final(
    outcome: Result<ClaimsView, AppErrorView>,
    event: ExtractionEventView,
)
    ensures
        extraction_step(ClaimsExtractionView::Done(outcome), event) == ClaimsExtractionView::Done(
            outcome,
        ),
{
}

/// The Next program is asked about the very token that the request carried, at the
/// configured address, and only where verification is delegated and the registry could
/// not decode the token.
pub proof fn law_next_is_asked_about_the_token(
    auth: Option<AuthHeaderView>,
    secret: Seq<char>,
    auth_url: Seq<char>,
    next_auth_url: Option<Seq<char>>,
    world: ExtractionWorld,
    n: nat,
)
    ensures
        extraction_run(extraction_start(auth, secret, auth_url, next_auth_url), world, n) matches
            ClaimsExtractionView::AskNext { verification } ==> {
            &&& next_auth_url is Some
            &&& auth matches Some(AuthHeaderView::Bearer { token })
            &&& (world.decode)(secret, token) is Err
            &&& verification matches NextVerificationView::Send { request } ==> request
                == verify_request(next_auth_url->0, token)
        },
{
    reveal_with_fuel(extraction_run, 4);
    let start = extraction_start(auth, secret, auth_url, next_auth_url);
    if n >= 3 {
        lemma_run_adds_up(start, world, 3, (n - 3) as nat);
        law_extraction_ends_with_the_outcome(auth, secret, auth_url, next_auth_url, world);
        lemma_done_stays(
            extraction_outcome(auth, secret, auth_url, next_auth_url, world),
            world,
            (n - 3) as nat,
        );
    }
}

proof fn lemma_run_adds_up(state: ClaimsExtractionView, world: ExtractionWorld, m: nat, n: nat)
    ensures
        extraction_run(state, world, m + n) == extraction_run(
            extraction_run(state, world, m),
            world,
            n,
        ),
    decreases m,
{
    if m > 0 {
        lemma_run_adds_up(
            extraction_step(state, extraction_answer(state, world)),
            world,
            (m - 1) as nat,
            n,
        );
    }
}

/// Nobody is identified without proof: claims come from a token that the registry
/// decoded, from the Next program's word on a token where verification is delegated,
/// or from a user's password where it is not.
pub proof fn law_claims_rest_on_a_check(
    auth: Option<AuthHeaderView>,
    secret: Seq<char>,
    auth_url: Seq<char>,
    next_auth_url: Option<Seq<char>>,
    world: ExtractionWorld,
)
    ensures
        extraction_outcome(auth, secret, auth_url, next_auth_url, world) matches Ok(claims) ==> {
            match auth {
                None => false,
                Some(AuthHeaderView::Bearer { token }) => {
                    ||| (world.decode)(secret, token) == Ok::<ClaimsView, AppErrorView>(claims)
                    ||| next_auth_url is Some && next_verdict(world.next) == Ok::<
                        ClaimsView,
                        AppErrorView,
                    >(claims)
                },
                Some(AuthHeaderView::Basic { username, password }) => {
                    &&& next_auth_url is None
                    &&& claims.sub == username
                    &&& (world.find_user)(username) matches Ok(user)
                    &&& (world.check_password)(user.salt, user.password, password) is Ok
                },
            }
        },
{
}

/// What becomes of the credentials of a request, case by case. Without usable credentials
/// the client is told where to get a token. A token is decoded under the registry's secret,
/// and where that fails the Next program's verdict counts, if there is such a program. A
/// name and password are refused where there is, and otherwise held against the record of
/// the user of that very name: the claims are on the name as it was given and do not expire.
pub proof fn law_extraction_by_cases(
    auth: Option<AuthHeaderView>,
    secret: Seq<char>,
    auth_url: Seq<char>,
    next_auth_url: Option<Seq<char>>,
    world: ExtractionWorld,
)
    ensures
        extraction_run(
            extraction_start(auth, secret, auth_url, next_auth_url),
            world,
            3,
        ) matches ClaimsExtractionView::Done(outcome) && match auth {
            None => outcome == Err::<ClaimsView, AppErrorView>(
                AppErrorView::Unauthorized {
                    msg: "Missing `authorization` header or invalid `authorization` header"@,
                    auth_url: Some(auth_url),
                },
            ),
            Some(AuthHeaderView::Bearer { token }) => match (world.decode)(secret, token) {
                Ok(claims) => outcome == Ok::<ClaimsView, AppErrorView>(claims),
                Err(error) => if next_auth_url is Some {
                    outcome == next_verdict(world.next)
                } else {
                    outcome == Err::<ClaimsView, AppErrorView>(error)
                },
            },
            Some(AuthHeaderView::Basic { username, password }) => if next_auth_url is Some {
                outcome == Err::<ClaimsView, AppErrorView>(
                    AppErrorView::Unauthorized {
                        msg: "Basic auth is not supported with delegated authentication"@,
                        auth_url: Some(auth_url),
                    },
                )
            } else {
                match (world.find_user)(username) {
                    Err(error) => outcome == Err::<ClaimsView, AppErrorView>(error),
                    Ok(user) => match (world.check_password)(user.salt, user.password, password) {
                        Err(error) => outcome == Err::<ClaimsView, AppErrorView>(error),
                        Ok(_) => outcome matches Ok(claims) && claims.sub == username && claims.exp
                            == 0,
                    },
                }
            },
        },
{
    reveal_with_fuel(extraction_run, 4);
}

/// What the identification hands out to be done is what it was given: the secret and the
/// token to the decoding, the name to the search, and the record's salt and hash with the
/// password to the check.
pub proof fn law_extraction_hands_on_what_it_was_given(
    token: Seq<char>,
    username: Seq<char>,
    password: Seq<char>,
    secret: Seq<char>,
    auth_url: Seq<char>,
    next_auth_url: Option<Seq<char>>,
    user: UserView,
)
    ensures
        extraction_start(
            Some(AuthHeaderView::Bearer { token }),
            secret,
            auth_url,
            next_auth_url,
        ) matches ClaimsExtractionView::DecodeToken {
            secret: used_secret,
            token: used_token,
            next_auth_url: kept_url,
        } && used_secret == secret && used_token == token && kept_url == next_auth_url,
        ({
            let asked = extraction_start(
                Some(AuthHeaderView::Basic { username, password }),
                secret,
                auth_url,
                None,
            );
            &&& asked matches ClaimsExtractionView::FindUser { username: sought, .. }
            &&& sought == username
            &&& extraction_step(asked, ExtractionEventView::UserFound(Ok(user))) matches
                ClaimsExtractionView::CheckPassword { salt, hash, password: checked, .. }
            &&& salt == user.salt
            &&& hash == user.password
            &&& checked == password
        }),
{
}

/// The identification moves only on what it awaits. In particular nothing but a check of
/// the password leads on from there.
pub proof fn law_extraction_moves_only_on_what_it_awaits(
    state: ClaimsExtractionView,
    event: ExtractionEventView,
)
    requires
        extraction_step(state, event) != state,
    ensures
        state is DecodeToken ==> event is Decoded,
        state is AskNext ==> event is Next,
        state is FindUser ==> event is UserFound,
        state is CheckPassword ==> event is PasswordChecked,
        !(state is Done),
{
}

/// The models of an identification and of its events show each part as it is.
pub proof fn law_extraction_views_are_faithful(state: ClaimsExtraction, event: ExtractionEvent)
    ensures
        match state {
            ClaimsExtraction::DecodeToken { secret, token, next_auth_url } => state@ matches
                ClaimsExtractionView::DecodeToken {
                secret: shown_secret,
                token: shown_token,
                next_auth_url: shown_url,
            } && shown_secret == secret@ && shown_token == token@ && match next_auth_url {
                Some(url) => shown_url == Some(url@),
                None => shown_url is None,
            },
            ClaimsExtraction::AskNext { verification } => state@ == (
            ClaimsExtractionView::AskNext { verification: verification@ }),
            ClaimsExtraction::FindUser { username, password } => state@ == (
            ClaimsExtractionView::FindUser { username: username@, password: password@ }),
            ClaimsExtraction::CheckPassword { username, salt, hash, password } => state@ == (
            ClaimsExtractionView::CheckPassword {
                username: username@,
                salt: salt@,
                hash: hash@,
                password: password@,
            }),
            ClaimsExtraction::Done(Ok(claims)) => state@ == ClaimsExtractionView::Done(Ok(claims@)),
            ClaimsExtraction::Done(Err(error)) => state@ == ClaimsExtractionView::Done(Err(error@)),
        },
        match event {
            ExtractionEvent::Decoded(Ok(claims)) => event@ == ExtractionEventView::Decoded(
                Ok(claims@),
            ),
            ExtractionEvent::Decoded(Err(error)) => event@ == ExtractionEventView::Decoded(
                Err(error@),
            ),
            ExtractionEvent::Next(inner) => event@ == ExtractionEventView::Next(inner@),
            ExtractionEvent::UserFound(Ok(user)) => event@ == ExtractionEventView::UserFound(
                Ok(user@),
            ),
            ExtractionEvent::UserFound(Err(error)) => event@ == ExtractionEventView::UserFound(
                Err(error@),
            ),
            ExtractionEvent::PasswordChecked(Ok(_)) => event@ matches
                ExtractionEventView::PasswordChecked(shown) && shown is Ok,
            ExtractionEvent::PasswordChecked(Err(error)) => event@
                == ExtractionEventView::PasswordChecked(Err(error@)),
        },
{
}

} // verus!
