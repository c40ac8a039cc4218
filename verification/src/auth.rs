//! Login and registration.
use vstd::prelude::*;
use vstd::utf8::is_ascii_chars;
use bcrypt::BcryptError;
use crate::crypto::{bcrypt_verify_outcome, hash_password, is_hash_of, verify_password};
use crate::models::{LoginRequest, LoginResponse, User, UserData};

verus! {

/// A user found for login: id, username, email, password hash, calendar preference.
pub type LoginRow = (i64, String, String, String, String);

/// Where accounts are kept. The store decides what each call returns; a store that is
/// verified names, by the spec functions here, which results each call may give for what
/// it is asked (a store that does not define them admits any result).
pub trait AuthRepository {
    /// Holds of each result that `find_user_for_login` may give when asked for `key`.
    closed spec fn may_find_for_login(&self, key: Seq<char>, result: Result<Option<LoginRow>, String>) -> bool {
        true
    }

    /// Holds of each result that `find_existing_user_by_email_or_username` may give when
    /// asked for this email and username.
    closed spec fn may_find_existing(
        &self,
        email: Seq<char>,
        username: Seq<char>,
        result: Result<Option<i64>, String>,
    ) -> bool {
        true
    }

    /// Holds of each result that `insert_user` may give when handed this username, email
    /// and password hash.
    closed spec fn may_insert(
        &self,
        username: Seq<char>,
        email: Seq<char>,
        password_hash: Seq<char>,
        result: Result<i64, String>,
    ) -> bool {
        true
    }

    /// The user whose email or username is `email_or_username`.
    fn find_user_for_login(&self, email_or_username: &str) -> (r: Result<Option<LoginRow>, String>)
        ensures
            self.may_find_for_login(email_or_username@, r),
    ;

    /// The id of a user with this email or this username.
    fn find_existing_user_by_email_or_username(&self, email: &str, username: &str) -> (r: Result<
        Option<i64>,
        String,
    >)
        ensures
            self.may_find_existing(email@, username@, r),
    ;

    /// Adds a user and gives its id.
    fn insert_user(&self, username: &str, email: &str, password_hash: &str) -> (r: Result<
        i64,
        String,
    >)
        ensures
            self.may_insert(username@, email@, password_hash@, r),
    ;
}

/// A refused login: the same answer for an unknown user, a wrong password and a failed
/// lookup.
pub open spec fn is_invalid_login(r: LoginResponse) -> bool {
    &&& !r.success
    &&& r.message@ == "Invalid email/username or password"@
    &&& r.user is None
}

/// A login as `user`.
pub open spec fn is_login_as(r: LoginResponse, user: UserData) -> bool {
    &&& r.success
    &&& r.message@ == "Login successful!"@
    &&& r.user == Some(user)
}

/// The user that the row logs in as with `password`: the row's user where the password
/// verifies against the row's hash.
pub open spec fn login_user(row: Option<LoginRow>, password: Seq<char>) -> Option<UserData> {
    match row {
        Some(row) => if bcrypt_verify_outcome(password, row.3@) == Some(true) {
            Some(UserData { id: row.0, username: row.1, email: row.2, calendar_preference: row.4 })
        } else {
            None
        },
        None => None,
    }
}

/// The answer to a refused login.
pub fn invalid_login_response() -> (r: LoginResponse)
    ensures
        is_invalid_login(r),
{
    LoginResponse {
        success: false,
        message: "Invalid email/username or password".to_owned(),
        user: None,
    }
}

/// The answer once the password has been checked against the user's hash.
pub fn login_outcome(password_ok: bool, user: UserData) -> (r: LoginResponse)
    ensures
        password_ok ==> is_login_as(r, user),
        !password_ok ==> is_invalid_login(r),
{
    if password_ok {
        LoginResponse { success: true, message: "Login successful!".to_owned(), user: Some(user) }
    } else {
        invalid_login_response()
    }
}

/// `r` answers a login with `password`, given the user found for it (if any).
pub open spec fn answers_login(found: Option<LoginRow>, password: Seq<char>, r: LoginResponse) -> bool {
    match login_user(found, password) {
        Some(u) => is_login_as(r, u),
        None => is_invalid_login(r),
    }
}

/// `r` answers a login with `password`, given what the lookup of the user returned: a
/// failed lookup is refused like an unknown user.
pub open spec fn answers_login_lookup(
    found: Result<Option<LoginRow>, String>,
    password: Seq<char>,
    r: LoginResponse,
) -> bool {
    match found {
        Ok(f) => answers_login(f, password, r),
        Err(_) => is_invalid_login(r),
    }
}

/// Whether a check of the password passed: a check that fails counts as a wrong password.
pub fn password_matches(checked: &Result<bool, BcryptError>) -> (r: bool)
    ensures
        r == (*checked == Ok::<bool, BcryptError>(true)),
{
    match checked {
        Ok(b) => *b,
        Err(_) => false,
    }
}

/// The answer to a login with `password`, given the user found for it (if any). A check
/// of the password that fails counts as a wrong password.
pub fn login_response(found: Option<LoginRow>, password: &str) -> (r: LoginResponse)
    ensures
        answers_login(found, password@, r),
        found matches Some(row) && !(row.3@.len() == 60 && is_ascii_chars(row.3@))
            ==> is_invalid_login(r),
{
    match found {
        Some((id, username, email, password_hash, calendar_preference)) => {
            let checked = verify_password(password, password_hash.as_str());
            let password_ok = password_matches(&checked);
            login_outcome(password_ok, UserData { id, username, email, calendar_preference })
        },
        None => invalid_login_response(),
    }
}

/// Logs in with the user that `repo` finds for the email or username given. A failed
/// lookup, an unknown user and a wrong password get the same answer; a success carries
/// the user whose stored hash the password verifies against.
pub fn login_with_repo(repo: &dyn AuthRepository, login_data: LoginRequest) -> (r: LoginResponse)
    ensures
        exists|found: Result<Option<LoginRow>, String>|
            #[trigger] repo.may_find_for_login(login_data.email_or_username@, found)
                && answers_login_lookup(found, login_data.password@, r),
{
    let result = repo.find_user_for_login(login_data.email_or_username.as_str());
    let ghost g = result;
    let r = match result {
        Ok(found) => login_response(found, login_data.password.as_str()),
        Err(_) => invalid_login_response(),
    };
    assert(repo.may_find_for_login(login_data.email_or_username@, g));
    r
}

/// A registration that failed in the store or in hashing.
pub open spec fn is_registration_error(r: LoginResponse) -> bool {
    &&& !r.success
    &&& r.message@ == "Error processing registration"@
    &&& r.user is None
}

/// A registration refused because the email or the username is taken.
pub open spec fn is_registration_conflict(r: LoginResponse) -> bool {
    &&& !r.success
    &&& r.message@ == "User with this email or username already exists"@
    &&& r.user is None
}

/// A registration that made the user `id` with this username and email, who starts on
/// the AD calendar.
pub open spec fn is_registered_as(r: LoginResponse, id: i64, username: String, email: String) -> bool {
    &&& r.success
    &&& r.message@ == "Registration successful!"@
    &&& r.user matches Some(u) && u.id == id && u.username == username && u.email == email
        && u.calendar_preference@ == "ad"@
}

/// `r` answers a registration whose lookup of an existing user found one or failed.
pub open spec fn answers_registration_stop(existing: Result<Option<i64>, String>, r: LoginResponse) -> bool {
    match existing {
        Ok(Some(_)) => is_registration_conflict(r),
        Ok(None) => false,
        Err(_) => is_registration_error(r),
    }
}

/// `r` answers a registration whose user was written (or not) as `inserted` says.
pub open spec fn answers_registration(
    inserted: Result<i64, String>,
    username: String,
    email: String,
    r: LoginResponse,
) -> bool {
    match inserted {
        Ok(id) => is_registered_as(r, id, username, email),
        Err(_) => is_registration_error(r),
    }
}

/// The answer to a registration that failed in the store or in hashing.
pub fn registration_error_response() -> (r: LoginResponse)
    ensures
        is_registration_error(r),
{
    LoginResponse { success: false, message: "Error processing registration".to_owned(), user: None }
}

/// What the lookup of an existing user with the same email or username decides: `None`
/// where registration goes on, else the answer that ends it.
pub fn registration_precheck(existing: Result<Option<i64>, String>) -> (r: Option<LoginResponse>)
    ensures
        existing matches Ok(None) <==> r is None,
        r matches Some(resp) ==> answers_registration_stop(existing, resp),
{
    match existing {
        Ok(Some(_)) => Some(
            LoginResponse {
                success: false,
                message: "User with this email or username already exists".to_owned(),
                user: None,
            },
        ),
        Ok(None) => None,
        Err(_) => Some(registration_error_response()),
    }
}

/// The answer once the user has been written (or not) under the id given.
pub fn registration_outcome(inserted: Result<i64, String>, username: String, email: String) -> (r:
    LoginResponse)
    ensures
        answers_registration(inserted, username, email, r),
{
    match inserted {
        Ok(id) => LoginResponse {
            success: true,
            message: "Registration successful!".to_owned(),
            user: Some(
                UserData { id, username, email, calendar_preference: "ad".to_owned() },
            ),
        },
        Err(_) => registration_error_response(),
    }
}

/// `r` answers the registration of `user` once its password was hashed (or not) as
/// `hashed` says: an error where hashing failed; else the store was handed the username,
/// the email and the hash, and `r` answers what it gave.
pub open spec fn answers_hashed_registration(
    repo: &dyn AuthRepository,
    user: User,
    hashed: Result<String, BcryptError>,
    r: LoginResponse,
) -> bool {
    &&& hashed is Err ==> is_registration_error(r)
    &&& hashed matches Ok(h) ==> exists|inserted: Result<i64, String>|
        #[trigger] repo.may_insert(user.username@, user.email@, h@, inserted)
            && answers_registration(inserted, user.username, user.email, r)
}

/// Registers `user` once its password has been hashed (or not): an error where hashing
/// failed; else the user is handed to the store with the hash, and the answer is what the
/// store gave.
pub fn register_hashed(
    repo: &dyn AuthRepository,
    user: User,
    hashed: Result<String, BcryptError>,
) -> (r: LoginResponse)
    ensures
        hashed is Err ==> is_registration_error(r),
        hashed matches Ok(h) ==> exists|inserted: Result<i64, String>|
            #[trigger] repo.may_insert(user.username@, user.email@, h@, inserted)
                && answers_registration(inserted, user.username, user.email, r),
{
    match hashed {
        Ok(password_hash) => {
            let inserted = repo.insert_user(
                user.username.as_str(),
                user.email.as_str(),
                password_hash.as_str(),
            );
            let ghost g = inserted;
            let ghost u = user;
            let r = registration_outcome(inserted, user.username, user.email);
            assert(repo.may_insert(u.username@, u.email@, password_hash@, g));
            r
        },
        Err(_) => registration_error_response(),
    }
}

/// Registers `user`: refused where the email or username is taken, an error where the
/// store or the hashing fails, else the new user with its id, on the AD calendar. The
/// store is asked for the user's email and username; once it finds none, the password is
/// hashed, and where that succeeds the store is handed the username, the email and the
/// hash: 60 ASCII characters beginning `$2b$12$` that the password verifies against.
pub fn register_with_repo(repo: &dyn AuthRepository, user: User) -> (r: LoginResponse)
    ensures
        exists|existing: Result<Option<i64>, String>|
            #[trigger] repo.may_find_existing(user.email@, user.username@, existing) && if existing
                matches Ok(None) {
                exists|hashed: Result<String, BcryptError>|
                    #[trigger] is_hash_of(user.password@, hashed) && answers_hashed_registration(
                        repo,
                        user,
                        hashed,
                        r,
                    )
            } else {
                answers_registration_stop(existing, r)
            },
{
    let existing = repo.find_existing_user_by_email_or_username(
        user.email.as_str(),
        user.username.as_str(),
    );
    let ghost e = existing;
    assert(repo.may_find_existing(user.email@, user.username@, e));
    if let Some(stop) = registration_precheck(existing) {
        return stop;
    }
    let hashed = hash_password(user.password.as_str());
    let ghost h = hashed;
    let ghost u = user;
    let r = register_hashed(repo, user, hashed);
    assert(is_hash_of(u.password@, h));
    assert(answers_hashed_registration(repo, u, h, r));
    r
}

/// Given the store's answer and the password, a login has one answer: the same success,
/// message and user, whatever else the request holds (such as `remember_me`).
pub proof fn login_answer_is_determined(
    found: Result<Option<LoginRow>, String>,
    password: Seq<char>,
    r1: LoginResponse,
    r2: LoginResponse,
)
    requires
        answers_login_lookup(found, password, r1),
        answers_login_lookup(found, password, r2),
    ensures
        r1.success == r2.success,
        r1.message@ == r2.message@,
        r1.user == r2.user,
{
}

} // verus!
