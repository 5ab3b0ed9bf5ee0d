//! Who a request comes from: the claims of a token, and the users on record.
use vstd::prelude::*;

verus! {

/// What a token says of its bearer.
#[derive(Debug, PartialEq, Eq)]
pub struct Claims {
    /// The name of the bearer.
    pub sub: String,
    /// When the token expires, in seconds since the Unix epoch; zero for claims that
    /// were not read from a token of the registry.
    pub exp: i64,
}

/// The model of [`Claims`].
pub struct ClaimsView {
    pub sub: Seq<char>,
    pub exp: i64,
}

impl View for Claims {
    type V = ClaimsView;

    open spec fn view(&self) -> ClaimsView {
        ClaimsView { sub: self.sub@, exp: self.exp }
    }
}

/// A user on record. The password is stored as a salted hash.
#[derive(Debug, PartialEq, Eq)]
pub struct User {
    pub github_id: i64,
    pub username: String,
    pub password: String,
    pub salt: String,
}

/// The model of a [`User`].
pub struct UserView {
    pub github_id: i64,
    pub username: Seq<char>,
    pub password: Seq<char>,
    pub salt: Seq<char>,
}

impl View for User {
    type V = UserView;

    open spec fn view(&self) -> UserView {
        UserView {
            github_id: self.github_id,
            username: self.username@,
            password: self.password@,
            salt: self.salt@,
        }
    }
}

impl User {
    /// A user record from its parts.
    pub fn new(github_id: i64, username: String, password: String, salt: String) -> (r: User)
        ensures
            r@ == (UserView {
                github_id,
                username: username@,
                password: password@,
                salt: salt@,
            }),
            r.github_id == github_id,
            r.username@ == username@,
            r.password@ == password@,
            r.salt@ == salt@,
    {
        User { github_id, username, password, salt }
    }
}

/// How the registry signs its tokens.
#[derive(Debug, PartialEq, Eq)]
pub struct TokenSettings {
    /// For how many seconds a token is valid.
    pub lifetime_secs: i64,
    pub secret: String,
}

/// The model of [`TokenSettings`].
pub struct TokenSettingsView {
    pub lifetime_secs: i64,
    pub secret: Seq<char>,
}

impl View for TokenSettings {
    type V = TokenSettingsView;

    open spec fn view(&self) -> TokenSettingsView {
        TokenSettingsView { lifetime_secs: self.lifetime_secs, secret: self.secret@ }
    }
}

/// A token that is to be issued: for whom, for how long, and signed with which secret.
#[derive(Debug, PartialEq, Eq)]
pub struct TokenOrder {
    pub lifetime_secs: i64,
    pub secret: String,
    pub subject: String,
}

/// The model of a [`TokenOrder`].
pub struct TokenOrderView {
    pub lifetime_secs: i64,
    pub secret: Seq<char>,
    pub subject: Seq<char>,
}

impl View for TokenOrder {
    type V = TokenOrderView;

    open spec fn view(&self) -> TokenOrderView {
        TokenOrderView {
            lifetime_secs: self.lifetime_secs,
            secret: self.secret@,
            subject: self.subject@,
        }
    }
}

/// The token for this subject under these settings.
pub open spec fn token_for(settings: TokenSettingsView, subject: Seq<char>) -> TokenOrderView {
    TokenOrderView { lifetime_secs: settings.lifetime_secs, secret: settings.secret, subject }
}

impl TokenSettings {
    /// Orders a token for this subject.
    pub fn order(&self, subject: String) -> (r: TokenOrder)
        ensures
            r@ == token_for(self@, subject@),
            r.lifetime_secs == self.lifetime_secs,
            r.secret@ == self.secret@,
            r.subject@ == subject@,
    {
        TokenOrder { lifetime_secs: self.lifetime_secs, secret: self.secret.clone(), subject }
    }
}

/// A token is ordered with the very secret and lifetime of the settings, and for the very
/// subject that was given.
pub proof fn law_order_keeps_the_settings(settings: TokenSettingsView, subject: Seq<char>)
    ensures
        token_for(settings, subject).lifetime_secs == settings.lifetime_secs,
        token_for(settings, subject).secret == settings.secret,
        token_for(settings, subject).subject == subject,
{
}

/// Orders under different secrets, for different lifetimes or for different subjects
/// differ.
pub proof fn law_orders_tell_settings_apart(
    a: TokenSettingsView,
    b: TokenSettingsView,
    s: Seq<char>,
    t: Seq<char>,
)
    requires
        token_for(a, s) == token_for(b, t),
    ensures
        a.secret == b.secret,
        a.lifetime_secs == b.lifetime_secs,
        s == t,
{
}

/// The models of claims, users, settings and orders show each part as it is.
pub proof fn law_identity_views_are_faithful(
    claims: Claims,
    user: User,
    settings: TokenSettings,
    order: TokenOrder,
)
    ensures
        claims@.sub == claims.sub@,
        claims@.exp == claims.exp,
        user@.github_id == user.github_id,
        user@.username == user.username@,
        user@.password == user.password@,
        user@.salt == user.salt@,
        settings@.lifetime_secs == settings.lifetime_secs,
        settings@.secret == settings.secret@,
        order@.lifetime_secs == order.lifetime_secs,
        order@.secret == order.secret@,
        order@.subject == order.subject@,
{
}

} // verus!
