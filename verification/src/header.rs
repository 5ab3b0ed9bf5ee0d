//! The `Authorization` header of a request.
use axum_extra::headers::authorization::{Basic, Bearer};
use axum_extra::headers::{Authorization, Header, HeaderValue};
use vstd::prelude::*;

use crate::text::lowercase;

verus! {

/// The credentials that a request carries.
#[derive(Debug, PartialEq, Eq)]
pub enum AuthHeader {
    Bearer { token: String },
    Basic { username: String, password: String },
}

/// The model of an [`AuthHeader`].
pub enum AuthHeaderView {
    Bearer { token: Seq<char> },
    Basic { username: Seq<char>, password: Seq<char> },
}

impl View for AuthHeader {
    type V = AuthHeaderView;

    open spec fn view(&self) -> AuthHeaderView {
        match self {
            AuthHeader::Bearer { token } => AuthHeaderView::Bearer { token: token@ },
            AuthHeader::Basic { username, password } => AuthHeaderView::Basic {
                username: username@,
                password: password@,
            },
        }
    }
}

impl DeepView for AuthHeader {
    type V = AuthHeaderView;

    open spec fn deep_view(&self) -> AuthHeaderView {
        self@
    }
}

/// Bytes as characters, one for one.
pub open spec fn byte_chars(bytes: Seq<u8>) -> Seq<char> {
    bytes.map_values(|b: u8| b as char)
}

/// Whether a header value names this scheme: the scheme in any case, and a space
/// behind it.
pub open spec fn has_scheme(value: Seq<u8>, scheme: Seq<char>) -> bool {
    &&& value.len() > scheme.len()
    &&& value[scheme.len() as int] == 0x20
    &&& lowercase(byte_chars(value.take(scheme.len() as int))) == lowercase(scheme)
}

/// Whether every byte is a visible ASCII character, a space or a tab.
pub open spec fn is_visible(value: Seq<u8>) -> bool {
    forall|i: int| 0 <= i < value.len() ==> 0x20 <= #[trigger] value[i] < 0x7f || value[i] == 0x09
}

/// A text without the spaces and tabs it starts with.
pub open spec fn without_leading_blanks(s: Seq<char>) -> Seq<char>
    decreases s.len(),
{
    if s.len() > 0 && (s[0] == ' ' || s[0] == '\t') {
        without_leading_blanks(s.skip(1))
    } else {
        s
    }
}

/// The bearer token in the value of an `Authorization` header, if it holds one.
pub open spec fn bearer_token(value: Seq<u8>) -> Option<Seq<char>> {
    if has_scheme(value, "Bearer"@) && is_visible(value) {
        Some(without_leading_blanks(byte_chars(value.skip(7))))
    } else {
        None
    }
}

/// The user name and password in the value of an `Authorization` header of the
/// `Basic` scheme, if it holds them: the base64 text behind the scheme, decoded and
/// split at its first colon.
pub uninterp spec fn basic_credentials(value: Seq<u8>) -> Option<(Seq<char>, Seq<char>)>;

/// `headers::Authorization::<Bearer>::decode` on one header value, and `token` of
/// what it gives. The value must name the `Bearer` scheme, in any case, followed by a
/// space, and hold nothing but visible ASCII, spaces and tabs; the token is what
/// stands behind that space, without leading blanks.
#[verifier::external_body]
fn decode_bearer(value: &Vec<u8>) -> (r: Option<String>)
    ensures
        r.deep_view() == bearer_token(value@),
{
    let value = HeaderValue::from_bytes(value).ok()?;
    let header = Authorization::<Bearer>::decode(&mut std::iter::once(&value)).ok()?;
    Some(header.token().to_string())
}

/// `headers::Authorization::<Basic>::decode` on one header value, with `username` and
/// `password` of what it gives. It gives something only where the value names the
/// `Basic` scheme, and a user name has no colon in it.
#[verifier::external_body]
fn decode_basic(value: &Vec<u8>) -> (r: Option<(String, String)>)
    ensures
        r.deep_view() == basic_credentials(value@),
        r is Some ==> has_scheme(value@, "Basic"@),
        r matches Some(pair) ==> !pair.0@.contains(':'),
{
    let value = HeaderValue::from_bytes(value).ok()?;
    let header = Authorization::<Basic>::decode(&mut std::iter::once(&value)).ok()?;
    Some((header.username().to_string(), header.password().to_string()))
}

/// Which credentials count where a header was read as a bearer token and as a user
/// name with a password: the token, if there is one.
pub open spec fn preferred(
    bearer: Option<Seq<char>>,
    basic: Option<(Seq<char>, Seq<char>)>,
) -> Option<AuthHeaderView> {
    match (bearer, basic) {
        (Some(token), _) => Some(AuthHeaderView::Bearer { token }),
        (None, Some((username, password))) => Some(AuthHeaderView::Basic { username, password }),
        (None, None) => None,
    }
}

impl AuthHeader {
    /// The credentials from the two readings of a header.
    pub fn prefer_bearer(bearer: Option<String>, basic: Option<(String, String)>) -> (r: Option<
        AuthHeader,
    >)
        ensures
            r.deep_view() == preferred(bearer.deep_view(), basic.deep_view()),
            match (bearer, basic) {
                (Some(given), _) => r matches Some(AuthHeader::Bearer { token }) && token@
                    == given@,
                (None, Some(pair)) => r matches Some(AuthHeader::Basic { username, password })
                    && username@ == pair.0@ && password@ == pair.1@,
                (None, None) => r is None,
            },
    {
        match bearer {
            Some(token) => Some(AuthHeader::Bearer { token }),
            None => match basic {
                Some((username, password)) => Some(AuthHeader::Basic { username, password }),
                None => None,
            },
        }
    }

    /// The credentials in the `Authorization` headers of a request, given the value of
    /// each. Only the first counts. One that is neither a bearer token nor a user name
    /// with a password counts as none.
    pub fn from_header_values(values: &Vec<Vec<u8>>) -> (r: Option<AuthHeader>)
        ensures
            r.deep_view() == (if values@.len() == 0 {
                None
            } else {
                preferred(bearer_token(values@[0]@), basic_credentials(values@[0]@))
            }),
            values@.len() == 0 ==> r is None,
            values@.len() > 0 ==> match (
                bearer_token(values@[0]@),
                basic_credentials(values@[0]@),
            ) {
                (Some(given), _) => r matches Some(AuthHeader::Bearer { token }) && token@ == given,
                (None, Some(pair)) => r matches Some(AuthHeader::Basic { username, password })
                    && username@ == pair.0 && password@ == pair.1,
                (None, None) => r is None,
            },
            r matches Some(AuthHeader::Basic { username, .. }) ==> {
                &&& has_scheme(values@[0]@, "Basic"@)
                &&& !username@.contains(':')
            },
    {
        if values.len() == 0 {
            return None;
        }
        let bearer = decode_bearer(&values[0]);
        let basic = if bearer.is_some() {
            None
        } else {
            decode_basic(&values[0])
        };
        AuthHeader::prefer_bearer(bearer, basic)
    }
}

/// No header value names both schemes.
pub proof fn law_schemes_are_exclusive(value: Seq<u8>)
    requires
        has_scheme(value, "Bearer"@),
    ensures
        !has_scheme(value, "Basic"@),
{
    reveal_strlit("Bearer");
    reveal_strlit("Basic");
    let start = lowercase(byte_chars(value.take(6)));
    assert(start == lowercase("Bearer"@));
    assert(start[1] == lowercase("Bearer"@)[1]);
    assert(lowercase("Bearer"@)[1] == 'e');
    if has_scheme(value, "Basic"@) {
        let other = lowercase(byte_chars(value.take(5)));
        assert(other == lowercase("Basic"@));
        assert(other[1] == lowercase("Basic"@)[1]);
        assert(lowercase("Basic"@)[1] == 'a');
        assert(other[1] == start[1]);
    }
}

/// A token counts wherever there is one, unchanged; a user name and password count,
/// unchanged, where there is no token; and nothing counts where there is neither.
pub proof fn law_credentials_are_kept(
    token: Seq<char>,
    username: Seq<char>,
    password: Seq<char>,
    basic: Option<(Seq<char>, Seq<char>)>,
)
    ensures
        preferred(Some(token), basic) == Some(AuthHeaderView::Bearer { token }),
        preferred(None, Some((username, password))) == Some(
            AuthHeaderView::Basic { username, password },
        ),
        preferred(None, None) is None,
{
}

/// The model of credentials shows each part of them as it is.
pub proof fn law_auth_header_view_is_faithful(header: AuthHeader)
    ensures
        header matches AuthHeader::Bearer { token } ==> header@ == (AuthHeaderView::Bearer {
            token: token@,
        }),
        header matches AuthHeader::Basic { username, password } ==> header@ == (
        AuthHeaderView::Basic { username: username@, password: password@ }),
        header.deep_view() == header@,
{
}

} // verus!
