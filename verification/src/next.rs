//! Delegated verification: asking the Next program whom a bearer token belongs to.
use vstd::prelude::*;

use crate::error::{result_view, unauthorized, AppError, AppErrorView};
use crate::header::{bearer_token, byte_chars, has_scheme, is_visible, without_leading_blanks};
use crate::http::{is_success, HttpRequest, HttpRequestView, Method};
use crate::identity::{Claims, ClaimsView};
use crate::text::{
    canonical_namespace, join, law_lowercase_has_no_capital, law_trimming_ignores_trailing_slashes,
    law_trimming_takes_only_slashes,
    lowercase, slashes, trim_end_slashes, trimmed,
};

verus! {

/// What the Next program says of the bearer of a valid token.
#[derive(Debug, PartialEq, Eq)]
pub struct NextAuthUserInfo {
    pub username: String,
}

/// How far the verification of a token has come.
#[derive(Debug, PartialEq, Eq)]
pub enum NextVerification {
    /// The request is to be sent.
    Send { request: HttpRequest },
    /// The body of the response is to be read.
    ReadBody,
    /// The verdict.
    Done(Result<Claims, AppError>),
}

/// What became of the step that a [`NextVerification`] was waiting for.
#[derive(Debug, PartialEq, Eq)]
pub enum NextEvent {
    /// No response came, for this reason.
    SendFailed(String),
    /// A response with this status code came.
    Responded(u16),
    /// The body does not say who the bearer is, for this reason.
    BodyUnreadable(String),
    /// The body.
    Body(NextAuthUserInfo),
}

/// The model of a [`NextVerification`].
#[verifier::ext_equal]
pub enum NextVerificationView {
    Send { request: HttpRequestView },
    ReadBody,
    Done(Result<ClaimsView, AppErrorView>),
}

/// The model of a [`NextEvent`].
pub enum NextEventView {
    SendFailed(Seq<char>),
    Responded(u16),
    BodyUnreadable(Seq<char>),
    Body(Seq<char>),
}

impl View for NextVerification {
    type V = NextVerificationView;

    open spec fn view(&self) -> NextVerificationView {
        match self {
            NextVerification::Send { request } => NextVerificationView::Send { request: request@ },
            NextVerification::ReadBody => NextVerificationView::ReadBody,
            NextVerification::Done(verdict) => NextVerificationView::Done(result_view(*verdict)),
        }
    }
}

impl View for NextEvent {
    type V = NextEventView;

    open spec fn view(&self) -> NextEventView {
        match self {
            NextEvent::SendFailed(reason) => NextEventView::SendFailed(reason@),
            NextEvent::Responded(status) => NextEventView::Responded(*status),
            NextEvent::BodyUnreadable(reason) => NextEventView::BodyUnreadable(reason@),
            NextEvent::Body(info) => NextEventView::Body(info.username@),
        }
    }
}

/// The request that asks the Next program at `next_auth_url` about a token.
pub open spec fn verify_request(next_auth_url: Seq<char>, token: Seq<char>) -> HttpRequestView {
    HttpRequestView {
        method: Method::Get,
        url: trimmed(next_auth_url) + "/api/auth/verify"@,
        headers: seq![("Authorization"@, "Bearer "@ + token)],
        form: seq![],
    }
}

/// The claims of a user that the Next program vouches for.
pub open spec fn next_claims(username: Seq<char>) -> ClaimsView {
    ClaimsView { sub: lowercase(username), exp: 0 }
}

/// The next state of a verification. An event that is not awaited changes nothing.
pub open spec fn next_step(
    state: NextVerificationView,
    event: NextEventView,
) -> NextVerificationView {
    match (state, event) {
        (NextVerificationView::Send { .. }, NextEventView::SendFailed(reason)) =>
            NextVerificationView::Done(
                Err(unauthorized("Failed to verify token with auth service: "@ + reason)),
            ),
        (NextVerificationView::Send { .. }, NextEventView::Responded(status)) => if 200 <= status
            < 300 {
            NextVerificationView::ReadBody
        } else {
            NextVerificationView::Done(Err(unauthorized("Token verification failed"@)))
        },
        (NextVerificationView::ReadBody, NextEventView::BodyUnreadable(reason)) =>
            NextVerificationView::Done(
                Err(unauthorized("Invalid response from auth service: "@ + reason)),
            ),
        (NextVerificationView::ReadBody, NextEventView::Body(username)) =>
            NextVerificationView::Done(Ok(next_claims(username))),
        _ => state,
    }
}

fn unauthorized_error(msg: String) -> (r: AppError)
    ensures
        r@ == unauthorized(msg@),
{
    AppError::Unauthorized { msg, auth_url: None }
}

/// Starts the verification of a bearer token by the Next program at `next_auth_url`.
pub fn verify_token_with_next(next_auth_url: &str, token: &str) -> (r: NextVerification)
    ensures
        r@ == (NextVerificationView::Send { request: verify_request(next_auth_url@, token@) }),
        r matches NextVerification::Send { request } && {
            &&& request.method == Method::Get
            &&& request.url@ == trimmed(next_auth_url@) + "/api/auth/verify"@
            &&& request.headers@.len() == 1
            &&& request.headers@[0].0@ == "Authorization"@
            &&& request.headers@[0].1@ == "Bearer "@ + token@
            &&& request.form@.len() == 0
        },
{
    let mut headers: Vec<(String, String)> = Vec::new();
    headers.push(("Authorization".to_owned(), join("Bearer ", token)));
    let request = HttpRequest {
        method: Method::Get,
        url: join(trim_end_slashes(next_auth_url), "/api/auth/verify"),
        headers,
        form: Vec::new(),
    };
    assert(request@ =~= verify_request(next_auth_url@, token@));
    NextVerification::Send { request }
}

impl NextVerification {
    /// Takes the verification one step further.
    pub fn step(self, event: NextEvent) -> (r: NextVerification)
        ensures
            r@ == next_step(self@, event@),
    {
        match (self, event) {
            (NextVerification::Send { .. }, NextEvent::SendFailed(reason)) =>
                NextVerification::Done(
                    Err(
                        unauthorized_error(
                            join("Failed to verify token with auth service: ", reason.as_str()),
                        ),
                    ),
                ),
            (NextVerification::Send { .. }, NextEvent::Responded(status)) => if is_success(status) {
                NextVerification::ReadBody
            } else {
                NextVerification::Done(
                    Err(unauthorized_error("Token verification failed".to_owned())),
                )
            },
            (NextVerification::ReadBody, NextEvent::BodyUnreadable(reason)) =>
                NextVerification::Done(
                    Err(
                        unauthorized_error(
                            join("Invalid response from auth service: ", reason.as_str()),
                        ),
                    ),
                ),
            (NextVerification::ReadBody, NextEvent::Body(info)) => NextVerification::Done(
                Ok(Claims { sub: canonical_namespace(info.username.as_str()), exp: 0 }),
            ),
            (state, _) => state,
        }
    }
}

/// How the Next program answers one request: the status code or why there is none,
/// and the user name in the body or why there is none.
pub struct NextReply {
    pub status: Result<u16, Seq<char>>,
    pub body: Result<Seq<char>, Seq<char>>,
}

/// The event with which a reply answers the state.
pub open spec fn next_answer(state: NextVerificationView, reply: NextReply) -> NextEventView {
    match state {
        NextVerificationView::Send { .. } => match reply.status {
            Ok(status) => NextEventView::Responded(status),
            Err(reason) => NextEventView::SendFailed(reason),
        },
        _ => match reply.body {
            Ok(username) => NextEventView::Body(username),
            Err(reason) => NextEventView::BodyUnreadable(reason),
        },
    }
}

/// What a reply of the Next program says of a token.
pub open spec fn next_verdict(reply: NextReply) -> Result<ClaimsView, AppErrorView> {
    match reply.status {
        Err(reason) => Err(
            unauthorized("Failed to verify token with auth service: "@ + reason),
        ),
        Ok(status) => if !(200 <= status < 300) {
            Err(unauthorized("Token verification failed"@))
        } else {
            match reply.body {
                Err(reason) => Err(
                    unauthorized("Invalid response from auth service: "@ + reason),
                ),
                Ok(username) => Ok(next_claims(username)),
            }
        },
    }
}

/// A verification ends, after two answers at most, with what the Next program's reply
/// to its request says.
pub proof fn law_verification_ends_with_the_verdict(request: HttpRequestView, reply: NextReply)
    ensures
        ({
            let start = NextVerificationView::Send { request };
            let middle = next_step(start, next_answer(start, reply));
            let end = next_step(middle, next_answer(middle, reply));
            end == NextVerificationView::Done(next_verdict(reply))
        }),
{
}

/// A verdict is final: no event changes it.
pub proof fn law_verdict_is_final(
    verdict: Result<ClaimsView, AppErrorView>,
    event: NextEventView,
)
    ensures
        next_step(NextVerificationView::Done(verdict), event) == NextVerificationView::Done(
            verdict,
        ),
{
}

/// The Next program's word gives claims exactly where it answered with success and a
/// user name; the subject is then that name in lower case. Anything else is an
/// unauthorized request.
pub proof fn law_only_a_confirmed_token_is_accepted(reply: NextReply)
    ensures
        next_verdict(reply) is Ok <==> {
            &&& reply.status is Ok
            &&& 200 <= reply.status->Ok_0 < 300
            &&& reply.body is Ok
        },
        next_verdict(reply) matches Ok(claims) ==> {
            &&& claims.sub == lowercase(reply.body->Ok_0)
            &&& forall|i: int|
                0 <= i < claims.sub.len() ==> !('A' <= #[trigger] claims.sub[i] <= 'Z')
        },
        next_verdict(reply) matches Err(error) ==> error is Unauthorized,
{
    if reply.body is Ok {
        let username = reply.body->Ok_0;
        assert forall|i: int| 0 <= i < username.len() implies !('A' <= #[trigger] lowercase(
            username,
        )[i] <= 'Z') by {
            law_lowercase_has_no_capital(username, i);
        }
    }
}

/// Slashes at the end of the configured address make no difference to the request.
pub proof fn law_verify_request_ignores_trailing_slashes(
    next_auth_url: Seq<char>,
    token: Seq<char>,
    n: nat,
)
    ensures
        verify_request(next_auth_url + slashes(n), token) == verify_request(next_auth_url, token),
{
    law_trimming_ignores_trailing_slashes(next_auth_url, n);
}

/// ASCII characters as bytes.
pub open spec fn char_bytes(s: Seq<char>) -> Seq<u8> {
    s.map_values(|c: char| c as u8)
}

proof fn lemma_without_leading_blanks(s: Seq<char>)
    ensures
        without_leading_blanks(without_leading_blanks(s)) == without_leading_blanks(s),
        without_leading_blanks(s).len() <= s.len(),
        without_leading_blanks(s) == s.skip(s.len() - without_leading_blanks(s).len()),
    decreases s.len(),
{
    if s.len() > 0 && (s[0] == ' ' || s[0] == '\t') {
        lemma_without_leading_blanks(s.skip(1));
    } else {
        assert(s.skip(0) == s);
    }
}

/// A token that was read from a request reaches the Next program unchanged: reading
/// the `Authorization` header of the verification request gives the same token.
pub proof fn law_token_is_forwarded_unchanged(
    value: Seq<u8>,
    token: Seq<char>,
    next_auth_url: Seq<char>,
)
    requires
        bearer_token(value) == Some(token),
    ensures
        ({
            let header = verify_request(next_auth_url, token).headers[0];
            &&& header.0 == "Authorization"@
            &&& bearer_token(char_bytes(header.1)) == Some(token)
        }),
{
    reveal_strlit("Bearer ");
    reveal_strlit("Bearer");
    let read = byte_chars(value.skip(7));
    let sent = "Bearer "@ + token;
    let bytes = char_bytes(sent);
    lemma_without_leading_blanks(read);
    let cut = read.len() - token.len();
    assert forall|i: int| 0 <= i < bytes.len() implies 0x20 <= #[trigger] bytes[i] < 0x7f
        || bytes[i] == 0x09 by {
        if i >= 7 {
            assert(token[i - 7] == read[cut + i - 7]);
            assert(read[cut + i - 7] == value[7 + cut + i - 7] as char);
        }
    }
    assert(is_visible(bytes));
    assert(byte_chars(bytes.take(6)) == "Bearer"@);
    assert(has_scheme(bytes, "Bearer"@));
    assert forall|i: int| 0 <= i < token.len() implies byte_chars(bytes.skip(7))[i] == token[i] by {
        assert(token[i] == read[cut + i]);
        assert(read[cut + i] == value[7 + cut + i] as char);
        assert(bytes.skip(7)[i] == token[i] as u8);
    }
    assert(byte_chars(bytes.skip(7)) == token);
}

/// For a configured address that does not end in a slash, the verification request goes to
/// this very address, followed by `/api/auth/verify` and nothing else.
pub proof fn law_verify_request_goes_to_the_configured_address(
    next_auth_url: Seq<char>,
    token: Seq<char>,
)
    requires
        next_auth_url.len() == 0 || next_auth_url.last() != '/',
    ensures
        ({
            let request = verify_request(next_auth_url, token);
            let len = next_auth_url.len() as int;
            &&& request.method == Method::Get
            &&& request.url.len() >= len
            &&& request.url.take(len) == next_auth_url
            &&& request.url.skip(len) == "/api/auth/verify"@
        }),
{
    law_trimming_takes_only_slashes(next_auth_url);
    let url = verify_request(next_auth_url, token).url;
    let len = next_auth_url.len() as int;
    assert(url.take(len) == next_auth_url);
    assert(url.skip(len) == "/api/auth/verify"@);
}

/// The verification request carries the token unchanged behind `Bearer `, in its only
/// header, and no form; so different tokens give different requests.
pub proof fn law_verify_request_carries_the_token(next_auth_url: Seq<char>, token: Seq<char>)
    ensures
        ({
            let request = verify_request(next_auth_url, token);
            &&& request.headers.len() == 1
            &&& request.headers[0].0 == "Authorization"@
            &&& request.headers[0].1.take(7) == "Bearer "@
            &&& request.headers[0].1.skip(7) == token
            &&& request.form.len() == 0
        }),
{
    reveal_strlit("Bearer ");
    let value = verify_request(next_auth_url, token).headers[0].1;
    assert(value.take(7) == "Bearer "@);
    assert(value.skip(7) == token);
}

/// A bearer token of visible characters that does not start with a blank is read back from
/// a header that carries it behind `Bearer `.
pub proof fn law_bearer_header_reads_back(token: Seq<char>)
    requires
        forall|i: int|
            0 <= i < token.len() ==> 0x20 <= #[trigger] token[i] as int && (token[i] as int)
                < 0x7f || token[i] == '\t',
        token.len() > 0 ==> token[0] != ' ' && token[0] != '\t',
    ensures
        bearer_token(char_bytes("Bearer "@ + token)) == Some(token),
{
    reveal_strlit("Bearer ");
    reveal_strlit("Bearer");
    let sent = "Bearer "@ + token;
    let bytes = char_bytes(sent);
    assert forall|i: int| 0 <= i < bytes.len() implies 0x20 <= #[trigger] bytes[i] < 0x7f
        || bytes[i] == 0x09 by {
        if i >= 7 {
            assert(sent[i] == token[i - 7]);
        }
    }
    assert(is_visible(bytes));
    assert(byte_chars(bytes.take(6)) == "Bearer"@);
    assert(has_scheme(bytes, "Bearer"@));
    assert forall|i: int| 0 <= i < token.len() implies byte_chars(bytes.skip(7))[i] == token[i] by {
        assert(bytes.skip(7)[i] == token[i] as u8);
    }
    assert(byte_chars(bytes.skip(7)) == token);
}

/// What becomes of a verification, case by case: a failure to send and an unreadable body
/// are reported with their reason unchanged, a status outside the two hundreds is a plain
/// refusal, and a name in the body gives claims on that name in lower case that do not
/// expire.
pub proof fn law_verification_by_cases(
    request: HttpRequestView,
    status: u16,
    reason: Seq<char>,
    username: Seq<char>,
)
    ensures
        ({
            let start = NextVerificationView::Send { request };
            let reading = NextVerificationView::ReadBody;
            &&& next_step(start, NextEventView::SendFailed(reason)) == NextVerificationView::Done(
                Err(
                    AppErrorView::Unauthorized {
                        msg: "Failed to verify token with auth service: "@ + reason,
                        auth_url: None,
                    },
                ),
            )
            &&& 200 <= status <= 299 ==> next_step(start, NextEventView::Responded(status))
                == reading
            &&& status < 200 || status > 299 ==> next_step(start, NextEventView::Responded(status))
                == NextVerificationView::Done(
                Err(
                    AppErrorView::Unauthorized {
                        msg: "Token verification failed"@,
                        auth_url: None,
                    },
                ),
            )
            &&& next_step(reading, NextEventView::BodyUnreadable(reason))
                == NextVerificationView::Done(
                Err(
                    AppErrorView::Unauthorized {
                        msg: "Invalid response from auth service: "@ + reason,
                        auth_url: None,
                    },
                ),
            )
            &&& next_step(reading, NextEventView::Body(username)) == NextVerificationView::Done(
                Ok(ClaimsView { sub: lowercase(username), exp: 0 }),
            )
        }),
{
}

/// The verdict of a reply, case by case, over the status and the body alone.
pub proof fn law_verdict_by_cases(reply: NextReply)
    ensures
        reply.status matches Err(reason) ==> next_verdict(reply) == Err::<ClaimsView, AppErrorView>(
            AppErrorView::Unauthorized {
                msg: "Failed to verify token with auth service: "@ + reason,
                auth_url: None,
            },
        ),
        reply.status matches Ok(status) ==> (status < 200 || status > 299 ==> next_verdict(reply)
            == Err::<ClaimsView, AppErrorView>(
            AppErrorView::Unauthorized { msg: "Token verification failed"@, auth_url: None },
        )),
        reply.status matches Ok(status) ==> (200 <= status <= 299 ==> match reply.body {
            Err(reason) => next_verdict(reply) == Err::<ClaimsView, AppErrorView>(
                AppErrorView::Unauthorized {
                    msg: "Invalid response from auth service: "@ + reason,
                    auth_url: None,
                },
            ),
            Ok(username) => next_verdict(reply) == Ok::<ClaimsView, AppErrorView>(
                ClaimsView { sub: lowercase(username), exp: 0 },
            ),
        }),
{
}

/// A verification moves only on what it awaits: the result of sending, and then the body.
pub proof fn law_verification_moves_only_on_what_it_awaits(
    state: NextVerificationView,
    event: NextEventView,
)
    requires
        next_step(state, event) != state,
    ensures
        state is Send ==> event is SendFailed || event is Responded,
        state is ReadBody ==> event is BodyUnreadable || event is Body,
        !(state is Done),
{
}

/// The models of a verification and of its events show each part as it is.
pub proof fn law_verification_views_are_faithful(state: NextVerification, event: NextEvent)
    ensures
        match state {
            NextVerification::Send { request } => state@ == (NextVerificationView::Send {
                request: request@,
            }),
            NextVerification::ReadBody => state@ == NextVerificationView::ReadBody,
            NextVerification::Done(Ok(claims)) => state@ == NextVerificationView::Done(Ok(claims@)),
            NextVerification::Done(Err(error)) => state@ == NextVerificationView::Done(Err(error@)),
        },
        match event {
            NextEvent::SendFailed(reason) => event@ == NextEventView::SendFailed(reason@),
            NextEvent::Responded(status) => event@ == NextEventView::Responded(status),
            NextEvent::BodyUnreadable(reason) => event@ == NextEventView::BodyUnreadable(reason@),
            NextEvent::Body(info) => event@ == NextEventView::Body(info.username@),
        },
{
}

} // verus!
