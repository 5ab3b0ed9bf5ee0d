//! Creating users by hand, for debugging.
use rand::rngs::StdRng;
use rand::{Rng, SeedableRng};
use vstd::prelude::*;

use crate::error::{result_view, AppError, AppErrorView};
use crate::identity::{User, UserView};
use crate::header::AuthHeaderView;
use crate::text::{canonical_namespace, law_lowercase_is_idempotent, lowercase};
use crate::token::{token_subject, ExchangeWorld, PasswordCheckView};

verus! {

/// The user to create.
#[derive(Debug, PartialEq, Eq)]
pub struct CreateUserRequest {
    pub username: String,
    pub password: String,
}

/// How far the creation of a user has come.
#[derive(Debug, PartialEq, Eq)]
pub enum UserCreation {
    /// A salt is to be generated.
    GenerateSalt { id: i64, username: String, password: String },
    /// The password is to be hashed with the salt.
    HashPassword { id: i64, username: String, password: String, salt: String },
    /// The user is to be put on record.
    Store { user: User },
    /// The status code of the answer, or why the user was not created.
    Done(Result<u16, AppError>),
}

/// What became of the step that a [`UserCreation`] was waiting for.
#[derive(Debug, PartialEq, Eq)]
pub enum CreationEvent {
    Salt(String),
    Hashed(Result<String, AppError>),
    Stored(Result<(), AppError>),
}

/// The model of a [`UserCreation`].
pub enum UserCreationView {
    GenerateSalt { id: i64, username: Seq<char>, password: Seq<char> },
    HashPassword { id: i64, username: Seq<char>, password: Seq<char>, salt: Seq<char> },
    Store { user: UserView },
    Done(Result<u16, AppErrorView>),
}

/// The model of a [`CreationEvent`].
pub enum CreationEventView {
    Salt(Seq<char>),
    Hashed(Result<Seq<char>, AppErrorView>),
    Stored(Result<(), AppErrorView>),
}

impl View for UserCreation {
    type V = UserCreationView;

    open spec fn view(&self) -> UserCreationView {
        match self {
            UserCreation::GenerateSalt { id, username, password } =>
                UserCreationView::GenerateSalt {
                id: *id,
                username: username@,
                password: password@,
            },
            UserCreation::HashPassword { id, username, password, salt } =>
                UserCreationView::HashPassword {
                id: *id,
                username: username@,
                password: password@,
                salt: salt@,
            },
            UserCreation::Store { user } => UserCreationView::Store { user: user@ },
            UserCreation::Done(outcome) => UserCreationView::Done(result_view(*outcome)),
        }
    }
}

impl View for CreationEvent {
    type V = CreationEventView;

    open spec fn view(&self) -> CreationEventView {
        match self {
            CreationEvent::Salt(salt) => CreationEventView::Salt(salt@),
            CreationEvent::Hashed(r) => CreationEventView::Hashed(result_view(*r)),
            CreationEvent::Stored(r) => CreationEventView::Stored(result_view(*r)),
        }
    }
}

/// `rand::rngs::StdRng::try_from_os_rng` and one `rand::Rng::random` of it. Any number
/// can come, and none comes where the system has no entropy to give; nothing is claimed
/// of which.
#[verifier::external_body]
fn random_id() -> (r: Option<i64>)
{
    let mut rng = StdRng::try_from_os_rng().ok()?;
    Some(rng.random())
}

/// The first state of the creation.
pub open spec fn creation_start(
    id: i64,
    username: Seq<char>,
    password: Seq<char>,
) -> UserCreationView {
    UserCreationView::GenerateSalt { id, username, password }
}

/// The next state of the creation. An event that is not awaited changes nothing.
pub open spec fn creation_step(
    state: UserCreationView,
    event: CreationEventView,
) -> UserCreationView {
    match (state, event) {
        (
            UserCreationView::GenerateSalt { id, username, password },
            CreationEventView::Salt(salt),
        ) => UserCreationView::HashPassword { id, username, password, salt },
        (
            UserCreationView::HashPassword { id, username, salt, .. },
            CreationEventView::Hashed(hashed),
        ) => match hashed {
            Ok(hash) => UserCreationView::Store {
                user: UserView {
                    github_id: id,
                    username: lowercase(username),
                    password: hash,
                    salt,
                },
            },
            Err(error) => UserCreationView::Done(Err(error)),
        },
        (UserCreationView::Store { .. }, CreationEventView::Stored(stored)) => match stored {
            Ok(_) => UserCreationView::Done(Ok(201)),
            Err(error) => UserCreationView::Done(Err(error)),
        },
        _ => state,
    }
}

/// Starts the creation of a user with a given id.
pub fn create_user_with_id(id: i64, req: CreateUserRequest) -> (r: UserCreation)
    ensures
        r@ == creation_start(id, req.username@, req.password@),
        r matches UserCreation::GenerateSalt { id: kept, username, password } && kept == id
            && username@ == req.username@ && password@ == req.password@,
{
    UserCreation::GenerateSalt { id, username: req.username, password: req.password }
}

/// Starts the creation of a user with a random id; `None` where the system has no
/// entropy to give.
pub fn create_user(req: CreateUserRequest) -> (r: Option<UserCreation>)
    ensures
        r matches Some(creation) ==> exists|id: i64|
            creation@ == #[trigger] creation_start(id, req.username@, req.password@),
        r matches Some(creation) ==> (creation matches UserCreation::GenerateSalt {
            username,
            password,
            ..
        } && username@ == req.username@ && password@ == req.password@),
{
    create_user_with_draw(random_id(), req)
}

/// Starts the creation of a user with the id that was drawn; where none was drawn, there
/// is no creation.
pub fn create_user_with_draw(drawn: Option<i64>, req: CreateUserRequest) -> (r: Option<
    UserCreation,
>)
    ensures
        match drawn {
            Some(id) => r matches Some(creation) && creation@ == creation_start(
                id,
                req.username@,
                req.password@,
            ) && (creation matches UserCreation::GenerateSalt { id: kept, username, password }
                && kept == id && username@ == req.username@ && password@ == req.password@),
            None => r is None,
        },
{
    match drawn {
        Some(id) => Some(create_user_with_id(id, req)),
        None => None,
    }
}

impl UserCreation {
    /// Takes the creation one step further.
    pub fn step(self, event: CreationEvent) -> (r: UserCreation)
        ensures
            r@ == creation_step(self@, event@),
    {
        match (self, event) {
            (UserCreation::GenerateSalt { id, username, password }, CreationEvent::Salt(salt)) =>
                UserCreation::HashPassword { id, username, password, salt },
            (
                UserCreation::HashPassword { id, username, salt, .. },
                CreationEvent::Hashed(hashed),
            ) => match hashed {
                Ok(hash) => UserCreation::Store {
                    user: User::new(id, canonical_namespace(username.as_str()), hash, salt),
                },
                Err(error) => UserCreation::Done(Err(error)),
            },
            (UserCreation::Store { .. }, CreationEvent::Stored(stored)) => match stored {
                Ok(_) => UserCreation::Done(Ok(201)),
                Err(error) => UserCreation::Done(Err(error)),
            },
            (state, _) => state,
        }
    }
}

/// Everything outside the creation of a user that it can ask. `hash` takes a salt and a
/// password.
pub struct CreationWorld {
    pub salt: Seq<char>,
    pub hash: spec_fn(Seq<char>, Seq<char>) -> Result<Seq<char>, AppErrorView>,
    pub store: spec_fn(UserView) -> Result<(), AppErrorView>,
}

/// The event with which the world answers the state.
pub open spec fn creation_answer(
    state: UserCreationView,
    world: CreationWorld,
) -> CreationEventView {
    match state {
        UserCreationView::GenerateSalt { .. } => CreationEventView::Salt(world.salt),
        UserCreationView::HashPassword { salt, password, .. } => CreationEventView::Hashed(
            (world.hash)(salt, password),
        ),
        UserCreationView::Store { user } => CreationEventView::Stored((world.store)(user)),
        UserCreationView::Done(_) => CreationEventView::Stored(Ok(())),
    }
}

/// The state after `n` answers of the world.
pub open spec fn creation_run(
    state: UserCreationView,
    world: CreationWorld,
    n: nat,
) -> UserCreationView
    decreases n,
{
    if n == 0 {
        state
    } else {
        creation_run(creation_step(state, creation_answer(state, world)), world, (n - 1) as nat)
    }
}

/// How the creation of a user is answered.
pub open spec fn creation_outcome(
    id: i64,
    username: Seq<char>,
    password: Seq<char>,
    world: CreationWorld,
) -> Result<u16, AppErrorView> {
    match (world.hash)(world.salt, password) {
        Err(error) => Err(error),
        Ok(hash) => match (world.store)(
            UserView {
                github_id: id,
                username: lowercase(username),
                password: hash,
                salt: world.salt,
            },
        ) {
            Err(error) => Err(error),
            Ok(_) => Ok(201),
        },
    }
}

/// Whatever the world answers, the creation of a user ends within three answers, and
/// what is stored is the canonical name, the salt and the hash of the password with
/// that salt.
pub proof fn law_creation_ends_with_the_outcome(
    id: i64,
    username: Seq<char>,
    password: Seq<char>,
    world: CreationWorld,
)
    ensures
        creation_run(creation_start(id, username, password), world, 3) == UserCreationView::Done(
            creation_outcome(id, username, password, world),
        ),
{
    reveal_with_fuel(creation_run, 4);
}

proof fn lemma_done_stays(outcome: Result<u16, AppErrorView>, world: CreationWorld, n: nat)
    ensures
        creation_run(UserCreationView::Done(outcome), world, n) == UserCreationView::Done(outcome),
    decreases n,
{
    if n > 0 {
        lemma_done_stays(outcome, world, (n - 1) as nat);
    }
}

proof fn lemma_run_adds_up(state: UserCreationView, world: CreationWorld, m: nat, n: nat)
    ensures
        creation_run(state, world, m + n) == creation_run(creation_run(state, world, m), world, n),
    decreases m,
{
    if m > 0 {
        lemma_run_adds_up(
            creation_step(state, creation_answer(state, world)),
            world,
            (m - 1) as nat,
            n,
        );
    }
}

/// What is stored of a new user is the given id, the canonical name, the salt that was
/// generated, and the hash of the password with that salt.
pub proof fn law_stored_user_holds_the_hash(
    id: i64,
    username: Seq<char>,
    password: Seq<char>,
    world: CreationWorld,
    n: nat,
)
    ensures
        creation_run(creation_start(id, username, password), world, n) matches
            UserCreationView::Store { user } ==> {
            &&& user.github_id == id
            &&& user.username == lowercase(username)
            &&& user.salt == world.salt
            &&& (world.hash)(user.salt, password) == Ok::<Seq<char>, AppErrorView>(user.password)
        },
{
    reveal_with_fuel(creation_run, 4);
    if n >= 3 {
        let rest = (n - 3) as nat;
        lemma_run_adds_up(creation_start(id, username, password), world, 3, rest);
        law_creation_ends_with_the_outcome(id, username, password, world);
        lemma_done_stays(creation_outcome(id, username, password, world), world, rest);
    }
}

/// A user who was created can get a token. Once the creation has stored a user, and the
/// lookup by the canonical name finds that user, this name and a password get a token for
/// this name exactly where the password passes the check against what was stored; any
/// other password is refused.
pub proof fn law_created_user_gets_a_token(
    id: i64,
    username: Seq<char>,
    password: Seq<char>,
    creation: CreationWorld,
    n: nat,
    user: UserView,
    presented: Seq<char>,
    secret: Seq<char>,
    next_auth_url: Option<Seq<char>>,
    exchange: ExchangeWorld,
)
    requires
        creation_run(creation_start(id, username, password), creation, n)
            == (UserCreationView::Store { user }),
        (creation.store)(user) is Ok,
        (exchange.find_user)(lowercase(username)) == Ok::<UserView, AppErrorView>(user),
    ensures
        creation_outcome(id, username, password, creation) == Ok::<u16, AppErrorView>(201),
        ({
            let header = AuthHeaderView::Basic {
                username: lowercase(username),
                password: presented,
            };
            let check = PasswordCheckView {
                salt: user.salt,
                hash: user.password,
                password: presented,
            };
            let subject = token_subject(Some(header), secret, next_auth_url, exchange);
            if (exchange.check_password)(check) matches Ok(checked) && checked is Ok {
                subject == Ok::<Seq<char>, AppErrorView>(lowercase(username))
            } else {
                subject is Err
            }
        }),
{
    law_stored_user_holds_the_hash(id, username, password, creation, n);
    law_lowercase_is_idempotent(username);
    reveal_with_fuel(creation_run, 4);
}

/// A user who was created gets a token with the password the creation was asked for,
/// where hashing and checking belong together: where the check accepts each password
/// against its own hash.
pub proof fn law_created_password_gets_a_token(
    id: i64,
    username: Seq<char>,
    password: Seq<char>,
    creation: CreationWorld,
    n: nat,
    user: UserView,
    secret: Seq<char>,
    next_auth_url: Option<Seq<char>>,
    exchange: ExchangeWorld,
)
    requires
        creation_run(creation_start(id, username, password), creation, n)
            == (UserCreationView::Store { user }),
        (creation.store)(user) is Ok,
        (exchange.find_user)(lowercase(username)) == Ok::<UserView, AppErrorView>(user),
        forall|salt: Seq<char>, word: Seq<char>|
            (#[trigger] (creation.hash)(salt, word)) matches Ok(hash) ==> (
            (exchange.check_password)(PasswordCheckView { salt, hash, password: word }) matches Ok(
                checked,
            ) && checked is Ok),
    ensures
        token_subject(
            Some(AuthHeaderView::Basic { username: lowercase(username), password }),
            secret,
            next_auth_url,
            exchange,
        ) == Ok::<Seq<char>, AppErrorView>(lowercase(username)),
{
    law_stored_user_holds_the_hash(id, username, password, creation, n);
    law_created_user_gets_a_token(
        id,
        username,
        password,
        creation,
        n,
        user,
        password,
        secret,
        next_auth_url,
        exchange,
    );
}

/// The answer to the creation of a user is final: no event changes it.
pub proof fn law_creation_outcome_is_final(
    outcome: Result<u16, AppErrorView>,
    event: CreationEventView,
)
    ensures
        creation_step(UserCreationView::Done(outcome), event) == UserCreationView::Done(outcome),
{
}

/// What becomes of the creation of a user, case by case. The password is hashed as it was
/// given, with the generated salt. What is stored is the given id, the name in lower case,
/// that salt and that hash. Once it is stored the answer is 201, and each failure is passed
/// on as it is.
pub proof fn law_creation_by_cases(
    id: i64,
    username: Seq<char>,
    password: Seq<char>,
    world: CreationWorld,
)
    ensures
        creation_run(
            creation_start(id, username, password),
            world,
            3,
        ) matches UserCreationView::Done(outcome) && match (world.hash)(world.salt, password) {
            Err(error) => outcome == Err::<u16, AppErrorView>(error),
            Ok(hash) => match (world.store)(
                UserView {
                    github_id: id,
                    username: lowercase(username),
                    password: hash,
                    salt: world.salt,
                },
            ) {
                Err(error) => outcome == Err::<u16, AppErrorView>(error),
                Ok(_) => outcome == Ok::<u16, AppErrorView>(201),
            },
        },
{
    reveal_with_fuel(creation_run, 4);
}

/// The creation of a user moves only on what it awaits.
pub proof fn law_creation_moves_only_on_what_it_awaits(
    state: UserCreationView,
    event: CreationEventView,
)
    requires
        creation_step(state, event) != state,
    ensures
        state is GenerateSalt ==> event is Salt,
        state is HashPassword ==> event is Hashed,
        state is Store ==> event is Stored,
        !(state is Done),
{
}

/// The models of a creation and of its events show each part as it is.
pub proof fn law_creation_views_are_faithful(state: UserCreation, event: CreationEvent)
    ensures
        match state {
            UserCreation::GenerateSalt { id, username, password } => state@ == (
            UserCreationView::GenerateSalt { id, username: username@, password: password@ }),
            UserCreation::HashPassword { id, username, password, salt } => state@ == (
            UserCreationView::HashPassword {
                id,
                username: username@,
                password: password@,
                salt: salt@,
            }),
            UserCreation::Store { user } => state@ == (UserCreationView::Store { user: user@ }),
            UserCreation::Done(Ok(status)) => state@ == UserCreationView::Done(Ok(status)),
            UserCreation::Done(Err(error)) => state@ == UserCreationView::Done(Err(error@)),
        },
        match event {
            CreationEvent::Salt(salt) => event@ == CreationEventView::Salt(salt@),
            CreationEvent::Hashed(Ok(hash)) => event@ == CreationEventView::Hashed(Ok(hash@)),
            CreationEvent::Hashed(Err(error)) => event@ == CreationEventView::Hashed(Err(error@)),
            CreationEvent::Stored(Ok(_)) => event@ matches CreationEventView::Stored(shown)
                && shown is Ok,
            CreationEvent::Stored(Err(error)) => event@ == CreationEventView::Stored(Err(error@)),
        },
{
}

} // verus!
