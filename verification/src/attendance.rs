//! The rules that decide whether an attendance record may be saved.
//!
//! Saving runs as a short exchange with the store: the date is settled, the leave on
//! that date is looked up, and, for a half-day leave, the office hours of that day.
//! Each function here takes what the last lookup returned and says what comes next.
use vstd::prelude::*;
use crate::models::AttendanceRecord;
use crate::text::{copy_text_option, non_empty_or, non_empty_or_else, text_is};
use crate::time::{
    exceeds_half_day, exceeds_half_day_slot, half_day_check_fits, half_day_check_is_safe,
    minutes_spec, truncated_half,
};

verus! {

/// Why an attendance record is refused.
#[derive(Debug, Clone, Copy, PartialEq, Eq, Structural)]
pub enum AttendanceRule {
    /// A full-day leave (absent, public holiday) is on record for the day.
    FullDayLeave,
    /// A half-day leave is on record and more than half the day was worked.
    HalfDayLimitExceeded,
}

impl AttendanceRule {
    /// The message the user is shown.
    pub fn message(&self) -> (r: String)
        ensures
            *self == AttendanceRule::FullDayLeave ==> r@ == "Cannot clock in to a full-day leave."@,
            *self == AttendanceRule::HalfDayLimitExceeded ==> r@
                == "Time limit exceeded for half-day leave slot."@,
    {
        match self {
            AttendanceRule::FullDayLeave => "Cannot clock in to a full-day leave.".to_owned(),
            AttendanceRule::HalfDayLimitExceeded => "Time limit exceeded for half-day leave slot.".to_owned(),
        }
    }
}

/// What the rules decide next while saving an attendance record.
#[derive(Debug, Clone, Copy, PartialEq, Eq, Structural)]
pub enum AttendanceNext {
    /// Look up the office hours of the day, then apply the half-day rule.
    CheckOfficeHours,
    /// Write the record.
    Save,
    /// Refuse the record.
    Reject(AttendanceRule),
}

/// The next step while saving an attendance record, with what it needs.
#[derive(Debug, Clone, PartialEq, Eq)]
pub enum AttendanceStep {
    /// Look up the leave on record for this user on this day.
    CheckLeave { user_id: i64, date: String },
    /// Look up the office hours of this user on this day, then apply the half-day rule.
    CheckOfficeHours { user_id: i64, date: String },
    /// Write this record.
    Save(AttendanceRecord),
    /// Refuse the record.
    Reject(AttendanceRule),
}

/// The decision a step carries out.
pub open spec fn next_of(step: AttendanceStep) -> Option<AttendanceNext> {
    match step {
        AttendanceStep::CheckLeave { .. } => None,
        AttendanceStep::CheckOfficeHours { .. } => Some(AttendanceNext::CheckOfficeHours),
        AttendanceStep::Save(_) => Some(AttendanceNext::Save),
        AttendanceStep::Reject(rule) => Some(AttendanceNext::Reject(rule)),
    }
}

/// A step for `record` asks for that record's user and day, and writes the record filed
/// under its day in both date fields.
pub open spec fn step_for(record: AttendanceRecord, step: AttendanceStep) -> bool {
    match step {
        AttendanceStep::CheckLeave { user_id, date } => user_id == record.user_id && date@
            == attendance_day(record),
        AttendanceStep::CheckOfficeHours { user_id, date } => user_id == record.user_id && date@
            == attendance_day(record),
        AttendanceStep::Save(stored) => stored == (AttendanceRecord {
            date: stored.date,
            attendance_date_ad: stored.date,
            ..record
        }) && stored.date@ == attendance_day(record),
        AttendanceStep::Reject(_) => true,
    }
}

/// Leave types that take the whole day.
pub open spec fn is_full_day_leave(leave_type: Seq<char>) -> bool {
    leave_type == "absent"@ || leave_type == "public_holiday"@
}

pub open spec fn is_half_day_leave(leave_type: Seq<char>) -> bool {
    leave_type == "half_day"@
}

/// The date a record is filed under: its AD date, or its date where that is empty.
pub open spec fn attendance_day(record: AttendanceRecord) -> Seq<char> {
    non_empty_or(record.attendance_date_ad@, record.date@)
}

pub open spec fn step_after_leave(record: AttendanceRecord, leave_type: Option<String>) -> AttendanceNext {
    match leave_type {
        None => AttendanceNext::Save,
        Some(t) => if is_full_day_leave(t@) {
            AttendanceNext::Reject(AttendanceRule::FullDayLeave)
        } else if is_half_day_leave(t@) && record.check_in is Some && record.check_out is Some {
            AttendanceNext::CheckOfficeHours
        } else {
            AttendanceNext::Save
        },
    }
}

pub open spec fn step_after_office_hours(
    record: AttendanceRecord,
    office: Option<(Option<String>, Option<String>)>,
) -> AttendanceNext {
    match (record.check_in, record.check_out, office) {
        (Some(ci), Some(co), Some((Some(start), Some(end)))) => if exceeds_half_day(
            ci@,
            co@,
            start@,
            end@,
        ) {
            AttendanceNext::Reject(AttendanceRule::HalfDayLimitExceeded)
        } else {
            AttendanceNext::Save
        },
        _ => AttendanceNext::Save,
    }
}

/// The half-day rule can be computed on the record's times and these office hours.
pub open spec fn office_check_fits(
    record: AttendanceRecord,
    office: Option<(Option<String>, Option<String>)>,
) -> bool {
    match (record.check_in, record.check_out, office) {
        (Some(ci), Some(co), Some((Some(start), Some(end)))) => half_day_check_fits(
            ci@,
            co@,
            start@,
            end@,
        ),
        _ => true,
    }
}

/// The whole decision: `None` where the record may be saved, else the rule that refuses
/// it, given the leave type on record for the day and the office hours of the day.
pub open spec fn attendance_verdict(
    record: AttendanceRecord,
    leave_type: Option<String>,
    office: Option<(Option<String>, Option<String>)>,
) -> Option<AttendanceRule> {
    match step_after_leave(record, leave_type) {
        AttendanceNext::Reject(rule) => Some(rule),
        AttendanceNext::Save => None,
        AttendanceNext::CheckOfficeHours => match step_after_office_hours(record, office) {
            AttendanceNext::Reject(rule) => Some(rule),
            _ => None,
        },
    }
}

/// The date the record is filed under: `attendance_date_ad`, or `date` where it is empty.
pub fn attendance_date_ad(record: &AttendanceRecord) -> (r: String)
    ensures
        r@ == attendance_day(*record),
{
    non_empty_or_else(&record.attendance_date_ad, &record.date)
}

/// The step that carries out `next` for `record`.
fn step_of(record: &AttendanceRecord, next: AttendanceNext) -> (r: AttendanceStep)
    ensures
        next_of(r) == Some(next),
        step_for(*record, r),
{
    match next {
        AttendanceNext::CheckOfficeHours => AttendanceStep::CheckOfficeHours {
            user_id: record.user_id,
            date: attendance_date_ad(record),
        },
        AttendanceNext::Save => {
            let date = attendance_date_ad(record);
            AttendanceStep::Save(attendance_to_store(record, &date))
        },
        AttendanceNext::Reject(rule) => AttendanceStep::Reject(rule),
    }
}

/// The first step of saving `record`: the lookup of the leave on record for its user on
/// its day.
pub fn begin_attendance_save(record: &AttendanceRecord) -> (r: AttendanceStep)
    ensures
        r matches AttendanceStep::CheckLeave { .. },
        step_for(*record, r),
{
    AttendanceStep::CheckLeave { user_id: record.user_id, date: attendance_date_ad(record) }
}

/// The step that follows the lookup of the leave on record for the day.
pub fn attendance_after_leave_lookup(record: &AttendanceRecord, leave_type: &Option<String>) -> (r:
    AttendanceStep)
    ensures
        next_of(r) == Some(step_after_leave(*record, *leave_type)),
        step_for(*record, r),
{
    let next = match leave_type {
        None => AttendanceNext::Save,
        Some(t) => {
            if text_is(t.as_str(), "absent") || text_is(t.as_str(), "public_holiday") {
                AttendanceNext::Reject(AttendanceRule::FullDayLeave)
            } else if text_is(t.as_str(), "half_day") && record.check_in.is_some()
                && record.check_out.is_some() {
                AttendanceNext::CheckOfficeHours
            } else {
                AttendanceNext::Save
            }
        },
    };
    step_of(record, next)
}

/// Whether the half-day rule can be applied to this record and these office hours
/// without overflow.
pub fn attendance_office_check_is_safe(
    record: &AttendanceRecord,
    office: &Option<(Option<String>, Option<String>)>,
) -> (r: bool)
    ensures
        r == office_check_fits(*record, *office),
{
    match (&record.check_in, &record.check_out, office) {
        (Some(ci), Some(co), Some((Some(start), Some(end)))) => half_day_check_is_safe(
            ci.as_str(),
            co.as_str(),
            start.as_str(),
            end.as_str(),
        ),
        _ => true,
    }
}

/// The step that follows the lookup of the office hours of the day: the half-day rule,
/// where both the record's times and the day's hours are known.
pub fn attendance_after_office_lookup(
    record: &AttendanceRecord,
    office: &Option<(Option<String>, Option<String>)>,
) -> (r: AttendanceStep)
    requires
        office_check_fits(*record, *office),
    ensures
        next_of(r) == Some(step_after_office_hours(*record, *office)),
        step_for(*record, r),
        r matches AttendanceStep::Save(_) || r matches AttendanceStep::Reject(
            AttendanceRule::HalfDayLimitExceeded,
        ),
        (record.check_in, record.check_out, *office) matches (
            Some(ci),
            Some(co),
            Some((Some(start), Some(end))),
        ) ==> ((r matches AttendanceStep::Reject(_)) == (minutes_spec(co@) - minutes_spec(ci@)
            > truncated_half(minutes_spec(end@) - minutes_spec(start@)) + 15)),
        !((record.check_in, record.check_out, *office) matches (
            Some(_),
            Some(_),
            Some((Some(_), Some(_))),
        )) ==> r matches AttendanceStep::Save(_),
{
    let next = match (&record.check_in, &record.check_out, office) {
        (Some(ci), Some(co), Some((Some(start), Some(end)))) => {
            if exceeds_half_day_slot(ci.as_str(), co.as_str(), start.as_str(), end.as_str()) {
                AttendanceNext::Reject(AttendanceRule::HalfDayLimitExceeded)
            } else {
                AttendanceNext::Save
            }
        },
        _ => AttendanceNext::Save,
    };
    step_of(record, next)
}

/// The record as it is written: filed under `date` in both its date fields.
pub fn attendance_to_store(record: &AttendanceRecord, date: &String) -> (r: AttendanceRecord)
    ensures
        r == (AttendanceRecord { date: *date, attendance_date_ad: *date, ..*record }),
{
    AttendanceRecord {
        user_id: record.user_id,
        date: date.clone(),
        attendance_date_ad: date.clone(),
        attendance_date_bs: copy_text_option(&record.attendance_date_bs),
        check_in: copy_text_option(&record.check_in),
        check_out: copy_text_option(&record.check_out),
        status: record.status.clone(),
        overtime: record.overtime,
        is_manual: record.is_manual,
    }
}

/// A full-day leave on record refuses an attendance record, whatever its times and the
/// office hours.
pub proof fn full_day_leave_blocks_attendance(
    record: AttendanceRecord,
    leave_type: String,
    office: Option<(Option<String>, Option<String>)>,
)
    requires
        is_full_day_leave(leave_type@),
    ensures
        attendance_verdict(record, Some(leave_type), office) == Some(AttendanceRule::FullDayLeave),
{
}

/// Without a leave on record for the day, an attendance record is always accepted.
pub proof fn no_leave_no_refusal(
    record: AttendanceRecord,
    office: Option<(Option<String>, Option<String>)>,
)
    ensures
        attendance_verdict(record, None, office) is None,
{
}

/// Only a half-day leave, with both times of the record known, can let the working time
/// refuse a record; any other leave type is judged without the office hours.
pub proof fn office_hours_matter_only_for_half_day(
    record: AttendanceRecord,
    leave_type: Option<String>,
    office1: Option<(Option<String>, Option<String>)>,
    office2: Option<(Option<String>, Option<String>)>,
)
    requires
        !(leave_type matches Some(t) && is_half_day_leave(t@) && record.check_in is Some
            && record.check_out is Some),
    ensures
        attendance_verdict(record, leave_type, office1) == attendance_verdict(record, leave_type, office2),
{
}

/// On a day with a half-day leave and known office hours, a record with both times is
/// refused exactly when the minutes from its clock-in to its clock-out go beyond half the
/// office day (from the day's start to its end, rounded toward zero) and a quarter hour;
/// otherwise it is saved.
pub proof fn half_day_limit_counts_from_clock_in(
    record: AttendanceRecord,
    leave_type: String,
    ci: String,
    co: String,
    start: String,
    end: String,
)
    requires
        is_half_day_leave(leave_type@),
        record.check_in == Some(ci),
        record.check_out == Some(co),
    ensures
        attendance_verdict(record, Some(leave_type), Some((Some(start), Some(end)))) == (if minutes_spec(
            co@,
        ) - minutes_spec(ci@) > truncated_half(minutes_spec(end@) - minutes_spec(start@)) + 15 {
            Some(AttendanceRule::HalfDayLimitExceeded)
        } else {
            None
        }),
{
    reveal_strlit("half_day");
    reveal_strlit("absent");
    reveal_strlit("public_holiday");
    assert(leave_type@.len() == 8);
    assert("absent"@.len() == 6);
    assert("public_holiday"@.len() == 14);
}

/// With a half-day leave and known office hours, clocking in later never turns an
/// accepted record into a refused one: two records that differ only in their clock-in,
/// the later of which is refused, have the earlier refused too.
pub proof fn later_clock_in_is_never_refused_sooner(
    early: AttendanceRecord,
    late: AttendanceRecord,
    leave_type: String,
    ci_early: String,
    ci_late: String,
    co: String,
    start: String,
    end: String,
)
    requires
        is_half_day_leave(leave_type@),
        early.check_in == Some(ci_early),
        late.check_in == Some(ci_late),
        early.check_out == Some(co),
        late.check_out == Some(co),
        minutes_spec(ci_early@) <= minutes_spec(ci_late@),
        attendance_verdict(late, Some(leave_type), Some((Some(start), Some(end)))) is Some,
    ensures
        attendance_verdict(early, Some(leave_type), Some((Some(start), Some(end)))) is Some,
{
    half_day_limit_counts_from_clock_in(late, leave_type, ci_late, co, start, end);
    half_day_limit_counts_from_clock_in(early, leave_type, ci_early, co, start, end);
}

/// On a day with a half-day leave, a record that lacks its clock-in or its clock-out is
/// saved: the half-day limit needs both times.
pub proof fn half_day_limit_needs_both_times(
    record: AttendanceRecord,
    leave_type: String,
    office: Option<(Option<String>, Option<String>)>,
)
    requires
        is_half_day_leave(leave_type@),
        record.check_in is None || record.check_out is None,
    ensures
        attendance_verdict(record, Some(leave_type), office) is None,
{
    reveal_strlit("half_day");
    reveal_strlit("absent");
    reveal_strlit("public_holiday");
    assert(leave_type@.len() == 8);
    assert("absent"@.len() == 6);
    assert("public_holiday"@.len() == 14);
}

} // verus!
