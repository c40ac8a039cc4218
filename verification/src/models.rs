use vstd::prelude::*;

verus! {

/// A user account as submitted for registration.
#[derive(Debug, Clone, PartialEq, Eq)]
pub struct User {
    pub id: Option<i64>,
    pub username: String,
    pub email: String,
    pub password: String,
}

/// Credentials submitted on the login form.
#[derive(Debug, Clone, PartialEq, Eq)]
pub struct LoginRequest {
    pub email_or_username: String,
    pub password: String,
    pub remember_me: bool,
}

/// The answer given to a login or a registration.
#[derive(Debug, Clone, PartialEq, Eq)]
pub struct LoginResponse {
    pub success: bool,
    pub message: String,
    pub user: Option<UserData>,
}

/// The public profile of a user.
#[derive(Debug, Clone, PartialEq, Eq)]
pub struct UserData {
    pub id: i64,
    pub username: String,
    pub email: String,
    pub calendar_preference: String,
}

/// A request to change the calendar ("ad" or "bs") a user sees dates in.
#[derive(Debug, Clone, PartialEq, Eq)]
pub struct CalendarPreferencePayload {
    pub user_id: i64,
    pub calendar_preference: String,
}

/// One day of attendance; times are written `HH:mm`.
#[derive(Debug, Clone, PartialEq, Eq)]
pub struct AttendanceRecord {
    pub user_id: i64,
    pub date: String,
    pub attendance_date_ad: String,
    pub attendance_date_bs: Option<String>,
    pub check_in: Option<String>,
    pub check_out: Option<String>,
    pub status: String,
    pub overtime: i32,
    pub is_manual: bool,
}

/// The working hours of one day of the week (0 is Sunday); times are written `HH:mm`.
#[derive(Debug, Clone, PartialEq, Eq)]
pub struct OfficeHour {
    pub day_of_week: i32,
    pub start_time: Option<String>,
    pub end_time: Option<String>,
    pub is_off_day: bool,
}

/// A leave taken on one day.
#[derive(Debug, Clone, PartialEq, Eq)]
pub struct LeaveLog {
    pub id: Option<i64>,
    pub user_id: i64,
    pub leave_date: String,
    pub leave_date_ad: String,
    pub leave_date_bs: Option<String>,
    pub leave_type: String,
    pub notes: String,
    pub absent_date_bs: Option<String>,
}

/// One day of the calendar, in both the AD and the BS calendar.
#[derive(Debug, Clone, PartialEq, Eq)]
pub struct CalendarDay {
    pub bs_date: String,
    pub ad_date: String,
    pub event: Option<String>,
    pub tithi: Option<String>,
    pub holiday: bool,
}

/// A request that names one leave log.
#[derive(Debug, Clone, PartialEq, Eq)]
pub struct LeaveLogRequest {
    pub id: i64,
}

} // verus!
