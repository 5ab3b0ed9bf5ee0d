use registry_auth::error::AppError;
use registry_auth::header::AuthHeader;
use registry_auth::identity::{TokenSettings, User};
use registry_auth::token::{auth, TokenEvent, TokenExchange};
use registry_auth::users::{
    create_user, create_user_with_draw, create_user_with_id, CreateUserRequest, CreationEvent,
    UserCreation,
};

fn request() -> CreateUserRequest {
    CreateUserRequest { username: "Alice".to_string(), password: "pw".to_string() }
}

fn salted() -> UserCreation {
    create_user_with_id(-5, request()).step(CreationEvent::Salt("s".to_string()))
}

fn error() -> AppError {
    AppError::Internal("broken".to_string())
}

#[test]
fn a_user_is_stored_under_the_canonical_name() {
    assert_eq!(
        salted(),
        UserCreation::HashPassword {
            id: -5,
            username: "Alice".to_string(),
            password: "pw".to_string(),
            salt: "s".to_string()
        }
    );
    let storing = salted().step(CreationEvent::Hashed(Ok("h".to_string())));
    assert_eq!(
        storing,
        UserCreation::Store {
            user: User {
                github_id: -5,
                username: "alice".to_string(),
                password: "h".to_string(),
                salt: "s".to_string()
            }
        }
    );
    assert_eq!(
        storing.step(CreationEvent::Stored(Ok(()))),
        UserCreation::Done(Ok(201))
    );
}

#[test]
fn failures_end_the_creation() {
    assert_eq!(
        salted().step(CreationEvent::Hashed(Err(error()))),
        UserCreation::Done(Err(error()))
    );
    let storing = salted().step(CreationEvent::Hashed(Ok("h".to_string())));
    assert_eq!(
        storing.step(CreationEvent::Stored(Err(error()))),
        UserCreation::Done(Err(error()))
    );
    assert_eq!(salted().step(CreationEvent::Stored(Ok(()))), salted());
}

#[test]
fn ids_are_drawn_at_random() {
    let draw = || match create_user(request()) {
        Some(UserCreation::GenerateSalt { id, username, password }) => {
            assert_eq!(username, "Alice");
            assert_eq!(password, "pw");
            id
        }
        other => panic!("expected a creation, got {other:?}"),
    };
    let ids = [draw(), draw(), draw()];
    assert!(ids[0] != ids[1] || ids[1] != ids[2]);
}

#[test]
fn a_creation_starts_exactly_where_an_id_was_drawn() {
    assert_eq!(
        create_user_with_draw(Some(i64::MIN), request()),
        Some(create_user_with_id(i64::MIN, request()))
    );
    assert_eq!(create_user_with_draw(None, request()), None);
}

/// A user who was created gets a token with the password of the creation, and with no
/// other.
#[test]
fn a_created_user_gets_a_token() {
    let hash = |salt: &str, password: &str| format!("{salt}/{password}");
    let exchange = |presented: &str| {
        let hashing = create_user_with_id(3, request()).step(CreationEvent::Salt("s".to_string()));
        let user = match hashing.step(CreationEvent::Hashed(Ok(hash("s", "pw")))) {
            UserCreation::Store { user } => user,
            other => panic!("expected a user, got {other:?}"),
        };
        assert_eq!(user.username, "alice");
        let settings = TokenSettings { lifetime_secs: 60, secret: "k".to_string() };
        let header = AuthHeader::Basic {
            username: "alice".to_string(),
            password: presented.to_string(),
        };
        let issuing = auth(Some(header), &settings, None)
            .step(TokenEvent::UserFound(Ok(user)), &settings);
        let subject = match &issuing {
            TokenExchange::IssueToken { order, .. } => order.subject.clone(),
            other => panic!("expected an order, got {other:?}"),
        };
        assert_eq!(subject, "alice");
        let checking = issuing.step(TokenEvent::Issued("jwt".to_string()), &settings);
        let accepted = match &checking {
            TokenExchange::CheckPassword { check, .. } => {
                hash(&check.salt, &check.password) == check.hash
            }
            other => panic!("expected a check, got {other:?}"),
        };
        let verdict = if accepted { Ok(()) } else { Err(error()) };
        checking.step(TokenEvent::PasswordChecked(verdict), &settings)
    };
    assert_eq!(exchange("pw"), TokenExchange::Done(Ok("jwt".to_string())));
    assert_eq!(exchange("PW"), TokenExchange::Done(Err(error())));
}
