use boredapp::{
    get_calendar_preference_with_repo, get_user_by_id_with_repo,
    save_calendar_preference_with_repo, CalendarPreferencePayload, UserData, UserRepository,
};
use std::cell::RefCell;

struct MockUserRepository {
    user: Option<UserData>,
    calendar_preference: Option<String>,
    fail_get: bool,
    fail_save: bool,
}

impl UserRepository for MockUserRepository {
    fn get_user_by_id(&self, _user_id: i64) -> Result<Option<UserData>, String> {
        if self.fail_get {
            return Err("get failed".to_string());
        }
        Ok(self.user.clone())
    }

    fn get_calendar_preference(&self, _user_id: i64) -> Result<Option<String>, String> {
        if self.fail_get {
            return Err("get failed".to_string());
        }
        Ok(self.calendar_preference.clone())
    }

    fn save_calendar_preference(&self, _user_id: i64, _calendar_preference: &str) -> Result<(), String> {
        if self.fail_save {
            return Err("save failed".to_string());
        }
        Ok(())
    }
}

/// Remembers what it was asked to save.
struct RecordingUserRepository {
    saved: RefCell<Vec<(i64, String)>>,
}

impl UserRepository for RecordingUserRepository {
    fn get_user_by_id(&self, _user_id: i64) -> Result<Option<UserData>, String> {
        Ok(None)
    }

    fn get_calendar_preference(&self, _user_id: i64) -> Result<Option<String>, String> {
        Ok(Some("bs".to_string()))
    }

    fn save_calendar_preference(&self, user_id: i64, calendar_preference: &str) -> Result<(), String> {
        self.saved.borrow_mut().push((user_id, calendar_preference.to_string()));
        Ok(())
    }
}

fn alice() -> UserData {
    UserData {
        id: 1,
        username: "alice".to_string(),
        email: "alice@example.com".to_string(),
        calendar_preference: "ad".to_string(),
    }
}

#[test]
fn get_calendar_preference_defaults_to_ad() {
    let repo = MockUserRepository {
        user: None,
        calendar_preference: None,
        fail_get: false,
        fail_save: false,
    };

    let result = get_calendar_preference_with_repo(&repo, 1).expect("should succeed");
    assert_eq!(result, "ad");
}

#[test]
fn save_calendar_preference_rejects_invalid_value() {
    let repo = MockUserRepository {
        user: None,
        calendar_preference: Some("ad".to_string()),
        fail_get: false,
        fail_save: false,
    };

    let result = save_calendar_preference_with_repo(
        &repo,
        CalendarPreferencePayload {
            user_id: 1,
            calendar_preference: "invalid".to_string(),
        },
    );

    assert!(result.is_err());
}

#[test]
fn get_user_by_id_returns_none_on_repo_failure() {
    let repo = MockUserRepository {
        user: Some(UserData {
            id: 1,
            username: "alice".to_string(),
            email: "alice@example.com".to_string(),
            calendar_preference: "ad".to_string(),
        }),
        calendar_preference: Some("ad".to_string()),
        fail_get: true,
        fail_save: false,
    };

    let user = get_user_by_id_with_repo(&repo, 1);
    assert!(user.is_none());
}

#[test]
fn get_user_by_id_returns_the_stored_user() {
    let repo = MockUserRepository {
        user: Some(alice()),
        calendar_preference: None,
        fail_get: false,
        fail_save: false,
    };
    assert_eq!(get_user_by_id_with_repo(&repo, 1), Some(alice()));
}

#[test]
fn get_calendar_preference_keeps_the_stored_value() {
    let repo = MockUserRepository {
        user: None,
        calendar_preference: Some("bs".to_string()),
        fail_get: false,
        fail_save: false,
    };
    assert_eq!(get_calendar_preference_with_repo(&repo, 1), Ok("bs".to_string()));
}

#[test]
fn get_calendar_preference_passes_on_the_store_error() {
    let repo = MockUserRepository {
        user: None,
        calendar_preference: None,
        fail_get: true,
        fail_save: false,
    };
    assert_eq!(get_calendar_preference_with_repo(&repo, 1), Err("get failed".to_string()));
}

#[test]
fn save_calendar_preference_stores_lower_case() {
    let repo = RecordingUserRepository { saved: RefCell::new(Vec::new()) };
    let result = save_calendar_preference_with_repo(
        &repo,
        CalendarPreferencePayload { user_id: 7, calendar_preference: "BS".to_string() },
    );
    assert_eq!(result, Ok(true));
    assert_eq!(repo.saved.borrow().clone(), vec![(7, "bs".to_string())]);
}

#[test]
fn save_calendar_preference_invalid_message_and_no_store_call() {
    let repo = RecordingUserRepository { saved: RefCell::new(Vec::new()) };
    let result = save_calendar_preference_with_repo(
        &repo,
        CalendarPreferencePayload { user_id: 7, calendar_preference: "gregorian".to_string() },
    );
    assert_eq!(result, Err("Invalid calendar preference. Use 'ad' or 'bs'.".to_string()));
    assert!(repo.saved.borrow().is_empty());
}

#[test]
fn save_calendar_preference_passes_on_the_store_error() {
    let repo = MockUserRepository {
        user: None,
        calendar_preference: None,
        fail_get: false,
        fail_save: true,
    };
    let result = save_calendar_preference_with_repo(
        &repo,
        CalendarPreferencePayload { user_id: 1, calendar_preference: "Ad".to_string() },
    );
    assert_eq!(result, Err("save failed".to_string()));
}
