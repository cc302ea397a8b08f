use auth_core::auth::{
    token_to_find, username_to_find, validate_basic_auth, validate_bearer_auth, AuthFailure,
    Presentation, UserLookup,
};
use auth_core::credential::{parse_basic, parse_bearer};
use auth_core::password::hash;
use auth_core::token::{InsertOutcome, IssueStep, Token};
use auth_core::user::User;
use uuid::Uuid;

/// A store kept in memory, answering as the service's database would.
struct Store {
    users: Vec<User>,
    tokens: Vec<Token>,
}

impl Store {
    fn find_by_username(&self, username: &str) -> UserLookup {
        match self.users.iter().find(|user| user.username == username) {
            Some(user) => UserLookup::Found(user.clone()),
            None => UserLookup::NotFound,
        }
    }

    fn find_by_token(&self, value: &str) -> UserLookup {
        let owner = self.tokens.iter().find(|token| token.value == value).map(|token| token.user_id);
        match owner.and_then(|id| self.users.iter().find(|user| user.id == id)) {
            Some(user) => UserLookup::Found(user.clone()),
            None => UserLookup::NotFound,
        }
    }

    fn insert_token(&mut self, token: &Token) -> InsertOutcome {
        if self.tokens.iter().any(|held| held.value == token.value) {
            InsertOutcome::UniqueViolation
        } else {
            self.tokens.push(token.clone());
            InsertOutcome::Ack
        }
    }

    fn login(&mut self, header: &str) -> Result<Token, AuthFailure> {
        let credential = parse_basic(header).map_err(|_| AuthFailure::MissingCredential)?;
        let lookup = self.find_by_username(username_to_find(&credential)?);
        let user = validate_basic_auth(&credential, lookup)?;
        let mut issue = Token::create(&user);
        loop {
            let outcome = self.insert_token(issue.token());
            match issue.resolve(outcome) {
                IssueStep::Issued(token) => return Ok(token),
                IssueStep::Retry(next) => issue = next,
                IssueStep::Failed => return Err(AuthFailure::StorageError),
            }
        }
    }

    fn authenticate(&self, header: &str) -> Result<User, AuthFailure> {
        let credential = parse_bearer(header).map_err(|_| AuthFailure::MissingCredential)?;
        validate_bearer_auth(self.find_by_token(token_to_find(&credential)))
    }
}

fn store_with(username: &str, password_hash: &str) -> Store {
    let user = User {
        id: Uuid::new_v4(),
        name: username.to_uppercase(),
        username: username.to_string(),
        password: password_hash.to_string(),
    };
    Store { users: vec![user], tokens: Vec::new() }
}

const PASSWORD_HASH: &str = "$2a$04$UuTkLRZZ6QofpDOlMz32MuuxEHA43WOemOYHPz6.SjsVsyO1tDU96";

#[test]
fn alice_logs_in_and_uses_her_token() {
    let mut store = store_with("alice", &hash("s3cret").unwrap());
    let alice = store.users[0].id;

    let credential = parse_basic("Basic YWxpY2U6czNjcmV0").unwrap();
    assert_eq!(credential.username, "alice");
    assert_eq!(credential.password.as_deref(), Some("s3cret"));
    let lookup = store.find_by_username(&credential.username);
    assert_eq!(validate_basic_auth(&credential, lookup).unwrap().id, alice);

    let token = store.login("Basic YWxpY2U6czNjcmV0").unwrap();
    assert!(22 <= token.value.len() && token.value.len() <= 24);
    assert_eq!(token.user_id, alice);

    let header = format!("Bearer {}", token.value);
    assert_eq!(store.authenticate(&header).unwrap().id, alice);
}

#[test]
fn alice_with_a_wrong_password_is_turned_away() {
    let mut store = store_with("alice", &hash("s3cret").unwrap());
    let credential = parse_basic("Basic YWxpY2U6d3Jvbmc=").unwrap();
    assert_eq!(credential.password.as_deref(), Some("wrong"));
    let lookup = store.find_by_username(&credential.username);
    let failure = validate_basic_auth(&credential, lookup).unwrap_err();
    assert_eq!(failure, AuthFailure::WrongPassword);
    assert_eq!(failure.presentation(), Presentation::Unauthorized);
    assert!(store.login("Basic YWxpY2U6d3Jvbmc=").is_err());
    assert!(store.tokens.is_empty());
}

#[test]
fn each_login_gives_a_token_not_issued_before() {
    let mut store = store_with("bob", PASSWORD_HASH);
    let first = store.login("Basic Ym9iOnBhc3N3b3Jk").unwrap();
    let second = store.login("Basic Ym9iOnBhc3N3b3Jk").unwrap();
    let third = store.login("Basic Ym9iOnBhc3N3b3Jk").unwrap();
    assert_ne!(first.value, second.value);
    assert_ne!(first.value, third.value);
    assert_ne!(second.value, third.value);
    assert_eq!(store.tokens.len(), 3);
}

#[test]
fn minted_token_resolves_back_to_its_user() {
    let mut store = store_with("bob", PASSWORD_HASH);
    store.users.push(User {
        id: Uuid::new_v4(),
        name: "EVE".to_string(),
        username: "eve".to_string(),
        password: PASSWORD_HASH.to_string(),
    });
    let bob = store.users[0].id;
    let eve = store.users[1].id;
    let for_bob = Token::new(bob);
    let for_eve = Token::new(eve);
    assert_eq!(store.insert_token(&for_bob), InsertOutcome::Ack);
    assert_eq!(store.insert_token(&for_eve), InsertOutcome::Ack);
    let found = validate_bearer_auth(store.find_by_token(&for_bob.value)).unwrap();
    assert_eq!(found.id, bob);
    assert_eq!(found.username, "bob");
    let found = validate_bearer_auth(store.find_by_token(&for_eve.value)).unwrap();
    assert_eq!(found.id, eve);
}

#[test]
fn every_token_of_a_user_stays_valid() {
    let mut store = store_with("bob", PASSWORD_HASH);
    let bob = store.users[0].id;
    let first = store.login("Basic Ym9iOnBhc3N3b3Jk").unwrap();
    let second = store.login("Basic Ym9iOnBhc3N3b3Jk").unwrap();
    assert_eq!(store.authenticate(&format!("Bearer {}", first.value)).unwrap().id, bob);
    assert_eq!(store.authenticate(&format!("Bearer {}", second.value)).unwrap().id, bob);
}

#[test]
fn unissued_token_of_the_same_shape_is_turned_away() {
    let mut store = store_with("bob", PASSWORD_HASH);
    let issued = store.login("Basic Ym9iOnBhc3N3b3Jk").unwrap();
    let stranger = Token::new(store.users[0].id);
    assert_eq!(stranger.value.len(), issued.value.len());
    let failure = store.authenticate(&format!("Bearer {}", stranger.value)).unwrap_err();
    assert_eq!(failure, AuthFailure::TokenNotFound);
    assert_eq!(failure.presentation(), Presentation::Unauthorized);
}

#[test]
fn taken_value_is_replaced_once() {
    let mut store = store_with("bob", PASSWORD_HASH);
    let issue = Token::create(&store.users[0]);
    let taken = issue.token().clone();
    assert_eq!(store.insert_token(&taken), InsertOutcome::Ack);
    let outcome = store.insert_token(issue.token());
    assert_eq!(outcome, InsertOutcome::UniqueViolation);
    let next = match issue.resolve(outcome) {
        IssueStep::Retry(next) => next,
        other => panic!("expected a retry, got {:?}", other),
    };
    let outcome = store.insert_token(next.token());
    assert_eq!(outcome, InsertOutcome::Ack);
    assert!(matches!(next.resolve(outcome), IssueStep::Issued(_)));
    assert_eq!(store.tokens.len(), 2);
}

#[test]
fn login_without_a_password_is_turned_away_before_any_lookup() {
    let mut store = store_with("bob", PASSWORD_HASH);
    let credential = parse_basic("Basic Ym9iOg==").unwrap();
    assert_eq!(credential.username, "bob");
    assert_eq!(credential.password, None);
    assert_eq!(username_to_find(&credential), Err(AuthFailure::MissingCredential));
    assert_eq!(store.login("Basic Ym9iOg==").unwrap_err(), AuthFailure::MissingCredential);
    assert!(store.tokens.is_empty());
}

#[test]
fn malformed_headers_never_authenticate() {
    let mut store = store_with("bob", PASSWORD_HASH);
    for header in ["Basic", "Bearer ", "Digest xyz"] {
        assert!(parse_basic(header).is_err());
        assert!(parse_bearer(header).is_err());
        assert!(store.login(header).is_err());
        assert!(store.authenticate(header).is_err());
    }
}
