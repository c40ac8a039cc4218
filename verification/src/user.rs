//! A user's profile and calendar preference.
use vstd::prelude::*;
use crate::models::{CalendarPreferencePayload, UserData};
use crate::text::text_is;

verus! {

/// The calendars a user can see dates in.
pub open spec fn is_known_calendar(value: Seq<char>) -> bool {
    value == "ad"@ || value == "bs"@
}

/// Where users are kept. The store decides what each call returns; what it may return
/// is named by its spec functions, which a store defines for itself where it is verified
/// (a store that does not define them admits any result).
pub trait UserRepository {
    /// Holds of each result that `get_user_by_id(user_id)` may give.
    closed spec fn may_give_user(&self, user_id: i64, result: Result<Option<UserData>, String>) -> bool {
        true
    }

    /// Holds of each result that `get_calendar_preference(user_id)` may give.
    closed spec fn may_give_preference(
        &self,
        user_id: i64,
        result: Result<Option<String>, String>,
    ) -> bool {
        true
    }

    /// Holds of each result that `save_calendar_preference` may give when handed this
    /// user and value.
    closed spec fn may_save_preference(&self, user_id: i64, value: Seq<char>, result: Result<(), String>) -> bool {
        true
    }

    /// The profile of user `user_id`.
    fn get_user_by_id(&self, user_id: i64) -> (r: Result<Option<UserData>, String>)
        ensures
            self.may_give_user(user_id, r),
    ;

    /// The calendar preference on record for user `user_id`.
    fn get_calendar_preference(&self, user_id: i64) -> (r: Result<Option<String>, String>)
        ensures
            self.may_give_preference(user_id, r),
    ;

    /// Records the calendar preference of user `user_id`; only "ad" and "bs" are ever
    /// handed to it.
    fn save_calendar_preference(&self, user_id: i64, calendar_preference: &str) -> (r: Result<
        (),
        String,
    >)
        requires
            is_known_calendar(calendar_preference@),
        ensures
            self.may_save_preference(user_id, calendar_preference@, r),
    ;
}

/// What `str::to_lowercase` returns for a text: its lower-case form by the Unicode rules.
pub uninterp spec fn lowercase_of(s: Seq<char>) -> Seq<char>;

/// Calls `str::to_lowercase`. Claimed of it: its result is the name `lowercase_of`
/// applied to `s`; the Unicode case rules themselves are left unsaid.
#[verifier::external_body]
fn lowercase(s: &str) -> (r: String)
    ensures
        r@ == lowercase_of(s@),
{
    s.to_lowercase()
}

/// The profile a lookup gives: the one found, or `None` where there is none or the
/// lookup failed.
pub open spec fn found_user(result: Result<Option<UserData>, String>) -> Option<UserData> {
    match result {
        Ok(found) => found,
        Err(_) => None,
    }
}

/// The profile found, or `None` where there is none or the lookup failed.
pub fn user_from_lookup(result: Result<Option<UserData>, String>) -> (r: Option<UserData>)
    ensures
        r == found_user(result),
{
    match result {
        Ok(found) => found,
        Err(_) => None,
    }
}

/// The profile of user `user_id`; `None` where there is none or the lookup failed.
pub fn get_user_by_id_with_repo(repo: &dyn UserRepository, user_id: i64) -> (r: Option<UserData>)
    ensures
        exists|result: Result<Option<UserData>, String>|
            #[trigger] repo.may_give_user(user_id, result) && r == found_user(result),
{
    user_from_lookup(repo.get_user_by_id(user_id))
}

/// `r` answers the lookup `result`: the preference found, "ad" where none is on record,
/// the error where the lookup failed.
pub open spec fn answers_preference_lookup(
    result: Result<Option<String>, String>,
    r: Result<String, String>,
) -> bool {
    match result {
        Ok(Some(p)) => r == Ok::<String, String>(p),
        Ok(None) => r matches Ok(p) && p@ == "ad"@,
        Err(e) => r == Err::<String, String>(e),
    }
}

/// The preference found, "ad" where none is on record, the error where the lookup failed.
pub fn preference_from_lookup(result: Result<Option<String>, String>) -> (r: Result<String, String>)
    ensures
        answers_preference_lookup(result, r),
{
    match result {
        Ok(Some(p)) => Ok(p),
        Ok(None) => Ok("ad".to_owned()),
        Err(e) => Err(e),
    }
}

/// The calendar preference of user `user_id`; "ad" where none is on record.
pub fn get_calendar_preference_with_repo(repo: &dyn UserRepository, user_id: i64) -> (r: Result<
    String,
    String,
>)
    ensures
        exists|result: Result<Option<String>, String>|
            #[trigger] repo.may_give_preference(user_id, result) && answers_preference_lookup(
                result,
                r,
            ),
{
    preference_from_lookup(repo.get_calendar_preference(user_id))
}

/// The preference to record for `value`: its lower-case form, where that is "ad" or "bs".
pub fn normalized_calendar_preference(value: &str) -> (r: Option<String>)
    ensures
        is_known_calendar(lowercase_of(value@)) ==> (r matches Some(v) && v@ == lowercase_of(value@)),
        !is_known_calendar(lowercase_of(value@)) ==> r is None,
{
    known_calendar(lowercase(value))
}

/// `value`, where it is "ad" or "bs"; `None` otherwise.
pub fn known_calendar(value: String) -> (r: Option<String>)
    ensures
        is_known_calendar(value@) ==> r == Some(value),
        !is_known_calendar(value@) ==> r is None,
{
    if text_is(value.as_str(), "ad") || text_is(value.as_str(), "bs") {
        Some(value)
    } else {
        None
    }
}

/// The answer to a preference that is neither "ad" nor "bs".
pub fn invalid_preference_error() -> (r: String)
    ensures
        r@ == "Invalid calendar preference. Use 'ad' or 'bs'."@,
{
    "Invalid calendar preference. Use 'ad' or 'bs'.".to_owned()
}

/// The answer once the store has recorded the preference (`true`), or its error.
pub open spec fn saved_answer(result: Result<(), String>) -> Result<bool, String> {
    match result {
        Ok(_) => Ok(true),
        Err(e) => Err(e),
    }
}

/// The answer once the store has recorded the preference (or failed to).
pub fn save_outcome(result: Result<(), String>) -> (r: Result<bool, String>)
    ensures
        r == saved_answer(result),
{
    match result {
        Ok(_) => Ok(true),
        Err(e) => Err(e),
    }
}

/// Records the calendar preference of a user, in lower case; any case of "ad" or "bs"
/// is accepted, anything else refused without a call to the store. An accepted value is
/// handed to the store for the payload's user, and the answer is what the store gave.
pub fn save_calendar_preference_with_repo(
    repo: &dyn UserRepository,
    payload: CalendarPreferencePayload,
) -> (r: Result<bool, String>)
    ensures
        !is_known_calendar(lowercase_of(payload.calendar_preference@)) ==> (r matches Err(m)
            && m@ == "Invalid calendar preference. Use 'ad' or 'bs'."@),
        is_known_calendar(lowercase_of(payload.calendar_preference@)) ==> exists|
            result: Result<(), String>,
        |
            #[trigger] repo.may_save_preference(
                payload.user_id,
                lowercase_of(payload.calendar_preference@),
                result,
            ) && r == saved_answer(result),
{
    match normalized_calendar_preference(payload.calendar_preference.as_str()) {
        Some(value) => {
            let saved = repo.save_calendar_preference(payload.user_id, value.as_str());
            let ghost g = saved;
            let r = save_outcome(saved);
            assert(repo.may_save_preference(payload.user_id, value@, g));
            r
        },
        None => Err(invalid_preference_error()),
    }
}

} // verus!
