use boredapp::{login_with_repo, register_hashed, register_with_repo, AuthRepository, LoginRequest, User};
use std::cell::RefCell;

struct MockAuthRepository {
    user_for_login: Option<(i64, String, String, String, String)>,
    existing_user_id: Option<i64>,
    next_inserted_id: i64,
    fail_read: bool,
    fail_insert: bool,
    inserted: RefCell<Vec<(String, String, String)>>,
}

impl AuthRepository for MockAuthRepository {
    fn find_user_for_login(
        &self,
        _email_or_username: &str,
    ) -> Result<Option<(i64, String, String, String, String)>, String> {
        if self.fail_read {
            return Err("read failed".to_string());
        }
        Ok(self.user_for_login.clone())
    }

    fn find_existing_user_by_email_or_username(
        &self,
        _email: &str,
        _username: &str,
    ) -> Result<Option<i64>, String> {
        if self.fail_read {
            return Err("read failed".to_string());
        }
        Ok(self.existing_user_id)
    }

    fn insert_user(&self, username: &str, email: &str, password_hash: &str) -> Result<i64, String> {
        self.inserted
            .borrow_mut()
            .push((username.to_string(), email.to_string(), password_hash.to_string()));
        if self.fail_insert {
            return Err("insert failed".to_string());
        }
        Ok(self.next_inserted_id)
    }
}

fn repo_with_hash(hashed: String) -> MockAuthRepository {
    MockAuthRepository {
        user_for_login: Some((
            1,
            "alice".to_string(),
            "alice@example.com".to_string(),
            hashed,
            "ad".to_string(),
        )),
        existing_user_id: None,
        next_inserted_id: 0,
        fail_read: false,
        fail_insert: false,
        inserted: RefCell::new(Vec::new()),
    }
}

fn request(password: &str) -> LoginRequest {
    LoginRequest {
        email_or_username: "alice".to_string(),
        password: password.to_string(),
        remember_me: false,
    }
}

fn new_alice() -> User {
    User {
        id: None,
        username: "alice".to_string(),
        email: "alice@example.com".to_string(),
        password: "secret".to_string(),
    }
}

#[test]
fn login_succeeds_with_valid_password() {
    let hashed = bcrypt::hash("secret", bcrypt::DEFAULT_COST).expect("hash should succeed");
    let repo = MockAuthRepository {
        user_for_login: Some((
            1,
            "alice".to_string(),
            "alice@example.com".to_string(),
            hashed,
            "ad".to_string(),
        )),
        existing_user_id: None,
        next_inserted_id: 0,
        fail_read: false,
        fail_insert: false,
        inserted: RefCell::new(Vec::new()),
    };

    let result = login_with_repo(
        &repo,
        LoginRequest {
            email_or_username: "alice".to_string(),
            password: "secret".to_string(),
            remember_me: false,
        },
    );

    assert!(result.success);
    assert_eq!(result.message, "Login successful!");
    assert!(result.user.is_some());
}

#[test]
fn login_fails_with_invalid_password() {
    let hashed = bcrypt::hash("secret", bcrypt::DEFAULT_COST).expect("hash should succeed");
    let repo = MockAuthRepository {
        user_for_login: Some((
            1,
            "alice".to_string(),
            "alice@example.com".to_string(),
            hashed,
            "ad".to_string(),
        )),
        existing_user_id: None,
        next_inserted_id: 0,
        fail_read: false,
        fail_insert: false,
        inserted: RefCell::new(Vec::new()),
    };

    let result = login_with_repo(
        &repo,
        LoginRequest {
            email_or_username: "alice".to_string(),
            password: "wrong".to_string(),
            remember_me: false,
        },
    );

    assert!(!result.success);
    assert!(result.user.is_none());
}

#[test]
fn register_fails_when_user_exists() {
    let repo = MockAuthRepository {
        user_for_login: None,
        existing_user_id: Some(42),
        next_inserted_id: 100,
        fail_read: false,
        fail_insert: false,
        inserted: RefCell::new(Vec::new()),
    };

    let result = register_with_repo(
        &repo,
        User {
            id: None,
            username: "alice".to_string(),
            email: "alice@example.com".to_string(),
            password: "secret".to_string(),
        },
    );

    assert!(!result.success);
    assert_eq!(result.message, "User with this email or username already exists");
}

#[test]
fn register_succeeds_for_new_user() {
    let repo = MockAuthRepository {
        user_for_login: None,
        existing_user_id: None,
        next_inserted_id: 100,
        fail_read: false,
        fail_insert: false,
        inserted: RefCell::new(Vec::new()),
    };

    let result = register_with_repo(
        &repo,
        User {
            id: None,
            username: "alice".to_string(),
            email: "alice@example.com".to_string(),
            password: "secret".to_string(),
        },
    );

    assert!(result.success);
    assert_eq!(result.user.expect("user should exist").id, 100);
}

#[test]
fn login_success_carries_the_stored_profile() {
    let hashed = bcrypt::hash("secret", 4).expect("hash should succeed");
    let result = login_with_repo(&repo_with_hash(hashed), request("secret"));
    let user = result.user.expect("user should exist");
    assert_eq!(user.id, 1);
    assert_eq!(user.username, "alice");
    assert_eq!(user.email, "alice@example.com");
    assert_eq!(user.calendar_preference, "ad");
}

#[test]
fn login_failures_all_read_the_same() {
    let hashed = bcrypt::hash("secret", 4).expect("hash should succeed");
    let wrong = login_with_repo(&repo_with_hash(hashed), request("wrong"));
    let mut unknown_repo = repo_with_hash(String::new());
    unknown_repo.user_for_login = None;
    let unknown = login_with_repo(&unknown_repo, request("secret"));
    let mut broken_repo = repo_with_hash(String::new());
    broken_repo.fail_read = true;
    let broken = login_with_repo(&broken_repo, request("secret"));
    for r in [wrong, unknown, broken] {
        assert!(!r.success);
        assert_eq!(r.message, "Invalid email/username or password");
        assert!(r.user.is_none());
    }
}

#[test]
fn login_with_malformed_hash_fails() {
    let result = login_with_repo(&repo_with_hash("not-a-bcrypt-hash".to_string()), request("secret"));
    assert!(!result.success);
    assert_eq!(result.message, "Invalid email/username or password");
}

#[test]
fn register_reports_store_errors() {
    let mut repo = repo_with_hash(String::new());
    repo.fail_read = true;
    let r = register_with_repo(&repo, new_alice());
    assert!(!r.success);
    assert_eq!(r.message, "Error processing registration");
    assert!(r.user.is_none());

    let mut repo = repo_with_hash(String::new());
    repo.fail_insert = true;
    let r = register_with_repo(&repo, new_alice());
    assert!(!r.success);
    assert_eq!(r.message, "Error processing registration");
    assert!(r.user.is_none());
}

#[test]
fn register_success_starts_on_the_ad_calendar() {
    let mut repo = repo_with_hash(String::new());
    repo.next_inserted_id = 7;
    let r = register_with_repo(&repo, new_alice());
    assert!(r.success);
    assert_eq!(r.message, "Registration successful!");
    let user = r.user.expect("user should exist");
    assert_eq!(user.id, 7);
    assert_eq!(user.username, "alice");
    assert_eq!(user.email, "alice@example.com");
    assert_eq!(user.calendar_preference, "ad");
}

#[test]
fn register_hands_the_store_a_hash_of_the_password() {
    let mut repo = repo_with_hash(String::new());
    repo.next_inserted_id = 3;
    let r = register_with_repo(&repo, new_alice());
    assert!(r.success);
    let inserted = repo.inserted.borrow();
    assert_eq!(inserted.len(), 1);
    let (username, email, hash) = &inserted[0];
    assert_eq!(username, "alice");
    assert_eq!(email, "alice@example.com");
    assert_ne!(hash, "secret");
    assert_eq!(hash.len(), 60);
    assert!(hash.starts_with("$2b$12$"));
    assert_eq!(bcrypt::verify("secret", hash).ok(), Some(true));
}

#[test]
fn register_does_not_write_a_taken_user() {
    let mut repo = repo_with_hash(String::new());
    repo.existing_user_id = Some(5);
    let r = register_with_repo(&repo, new_alice());
    assert_eq!(r.message, "User with this email or username already exists");
    assert!(repo.inserted.borrow().is_empty());
}

#[test]
fn register_hashed_reports_a_failed_hash() {
    let repo = repo_with_hash(String::new());
    let r = register_hashed(&repo, new_alice(), bcrypt::hash("secret", 99));
    assert!(!r.success);
    assert_eq!(r.message, "Error processing registration");
    assert!(r.user.is_none());
    assert!(repo.inserted.borrow().is_empty());
}

#[test]
fn register_hashed_writes_the_given_hash() {
    let mut repo = repo_with_hash(String::new());
    repo.next_inserted_id = 11;
    let r = register_hashed(&repo, new_alice(), Ok("stored-hash".to_string()));
    assert!(r.success);
    assert_eq!(r.message, "Registration successful!");
    let user = r.user.expect("user should exist");
    assert_eq!(user.id, 11);
    assert_eq!(user.calendar_preference, "ad");
    let inserted = repo.inserted.borrow();
    assert_eq!(
        inserted.as_slice(),
        &[("alice".to_string(), "alice@example.com".to_string(), "stored-hash".to_string())]
    );
}

#[test]
fn register_hashed_reports_a_failed_insert() {
    let mut repo = repo_with_hash(String::new());
    repo.fail_insert = true;
    let r = register_hashed(&repo, new_alice(), Ok("stored-hash".to_string()));
    assert!(!r.success);
    assert_eq!(r.message, "Error processing registration");
    assert!(r.user.is_none());
}
