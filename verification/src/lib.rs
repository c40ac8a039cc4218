//! Attendance, leave and office-hours rules of a small office time tracker, with its
//! accounts and calendar preference.
pub mod attendance;
pub mod auth;
pub mod crypto;
pub mod leave;
pub mod models;
pub mod office;
pub mod rows;
pub mod text;
pub mod session;
pub mod setup;
pub mod time;
pub mod user;

pub use attendance::{
    attendance_after_leave_lookup, attendance_after_office_lookup, attendance_date_ad,
    attendance_office_check_is_safe, attendance_to_store, begin_attendance_save, AttendanceNext,
    AttendanceRule, AttendanceStep,
};
pub use leave::{
    begin_leave, leave_after_attendance_lookup, leave_after_office_lookup, leave_date_ad,
    leave_office_check_is_safe, leave_to_store, saved_leave_log, LeaveNext, LeaveRule, LeaveStep,
};
pub use models::{
    AttendanceRecord, CalendarDay, CalendarPreferencePayload, LeaveLog, LeaveLogRequest,
    LoginRequest, LoginResponse, OfficeHour, User, UserData,
};
pub use office::{default_office_hour, office_hours_to_seed};
pub use rows::{
    attendance_from_dated_row, attendance_from_dated_rows, attendance_from_row,
    calendar_day_from_row, calendar_days_from_rows, leave_from_row, leaves_from_rows,
    office_hour_from_row, office_hours_from_rows, user_from_row,
};
pub use auth::{
    invalid_login_response, login_outcome, login_response, login_with_repo, password_matches,
    register_hashed, register_with_repo,
    registration_error_response, registration_outcome, registration_precheck, AuthRepository,
    LoginRow,
};
pub use user::{
    get_calendar_preference_with_repo, get_user_by_id_with_repo, invalid_preference_error,
    known_calendar, normalized_calendar_preference, preference_from_lookup,
    save_calendar_preference_with_repo,
    save_outcome, user_from_lookup, UserRepository,
};
pub use session::{greet, logout};
pub use setup::{admin_account_to_seed, schema_changes, statements_to_run, AdminSeed, SchemaChange};
pub use text::database_error;
pub use time::{exceeds_half_day_slot, half_day_check_is_safe, time_to_minutes};
