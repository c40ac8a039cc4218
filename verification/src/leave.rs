//! The rules that decide whether a leave may be recorded, and the leave log that results.
//!
//! Adding a leave runs as a short exchange with the store: the date is settled, the
//! attendance of that day is looked up, and, for a half-day leave after a full clock-in
//! and clock-out, the office hours of that day. Each function here takes what the last
//! lookup returned and says what comes next.
use vstd::prelude::*;
use crate::attendance::{is_full_day_leave, is_half_day_leave};
use crate::models::LeaveLog;
use crate::text::{copy_text_option, non_empty_or, non_empty_or_else, text_is};
use crate::time::{
    exceeds_half_day, exceeds_half_day_slot, half_day_check_fits, half_day_check_is_safe,
    minutes_spec, truncated_half,
};

verus! {

/// Why a leave is refused.
#[derive(Debug, Clone, Copy, PartialEq, Eq, Structural)]
pub enum LeaveRule {
    /// A full-day leave on a day with a clock-in.
    FullDayWithAttendance,
    /// A half-day leave on a day clocked in but not yet clocked out.
    ClockOutFirst,
    /// A half-day leave on a day of which more than half was worked.
    HalfDayAlreadyWorked,
}

impl LeaveRule {
    /// The message the user is shown.
    pub fn message(&self) -> (r: String)
        ensures
            *self == LeaveRule::FullDayWithAttendance ==> r@
                == "Cannot apply for full-day leave. You have attendance logs today."@,
            *self == LeaveRule::ClockOutFirst ==> r@
                == "Please clock out first before applying for partial leave."@,
            *self == LeaveRule::HalfDayAlreadyWorked ==> r@
                == "Cannot apply for half-day leave. Full day already worked."@,
    {
        match self {
            LeaveRule::FullDayWithAttendance => "Cannot apply for full-day leave. You have attendance logs today.".to_owned(),
            LeaveRule::ClockOutFirst => "Please clock out first before applying for partial leave.".to_owned(),
            LeaveRule::HalfDayAlreadyWorked => "Cannot apply for half-day leave. Full day already worked.".to_owned(),
        }
    }
}

/// What the rules decide next while recording a leave.
#[derive(Debug, Clone, Copy, PartialEq, Eq, Structural)]
pub enum LeaveNext {
    /// Look up the office hours of the day, then apply the half-day rule.
    CheckOfficeHours,
    /// Write the leave.
    Save,
    /// Refuse the leave.
    Reject(LeaveRule),
}

/// The next step while recording a leave, with what it needs.
#[derive(Debug, Clone, PartialEq, Eq)]
pub enum LeaveStep {
    /// Look up the clock-in and clock-out of this user on this day.
    CheckAttendance { user_id: i64, date: String },
    /// Look up the office hours of this user on this day, then apply the half-day rule.
    CheckOfficeHours { user_id: i64, date: String },
    /// Write this leave.
    Save(LeaveLog),
    /// Refuse the leave.
    Reject(LeaveRule),
}

/// The decision a step carries out.
pub open spec fn leave_next_of(step: LeaveStep) -> Option<LeaveNext> {
    match step {
        LeaveStep::CheckAttendance { .. } => None,
        LeaveStep::CheckOfficeHours { .. } => Some(LeaveNext::CheckOfficeHours),
        LeaveStep::Save(_) => Some(LeaveNext::Save),
        LeaveStep::Reject(rule) => Some(LeaveNext::Reject(rule)),
    }
}

/// A step for `log` asks for that leave's user and day, and writes the leave filed under
/// its day in both date fields, with its BS date as its absent date.
pub open spec fn leave_step_for(log: LeaveLog, step: LeaveStep) -> bool {
    match step {
        LeaveStep::CheckAttendance { user_id, date } => user_id == log.user_id && date@ == leave_day(
            log,
        ),
        LeaveStep::CheckOfficeHours { user_id, date } => user_id == log.user_id && date@
            == leave_day(log),
        LeaveStep::Save(stored) => stored == (LeaveLog {
            leave_date: stored.leave_date,
            leave_date_ad: stored.leave_date,
            absent_date_bs: log.leave_date_bs,
            ..log
        }) && stored.leave_date@ == leave_day(log),
        LeaveStep::Reject(_) => true,
    }
}

/// The date a leave is filed under: its AD date, or its date where that is empty.
pub open spec fn leave_day(log: LeaveLog) -> Seq<char> {
    non_empty_or(log.leave_date_ad@, log.leave_date@)
}

pub open spec fn leave_step_after_attendance(
    log: LeaveLog,
    attendance: Option<(Option<String>, Option<String>)>,
) -> LeaveNext {
    match attendance {
        None => LeaveNext::Save,
        Some((check_in, check_out)) => if is_full_day_leave(log.leave_type@) && check_in is Some {
            LeaveNext::Reject(LeaveRule::FullDayWithAttendance)
        } else if is_half_day_leave(log.leave_type@) && check_in is Some && check_out is None {
            LeaveNext::Reject(LeaveRule::ClockOutFirst)
        } else if is_half_day_leave(log.leave_type@) && check_in is Some && check_out is Some {
            LeaveNext::CheckOfficeHours
        } else {
            LeaveNext::Save
        },
    }
}

pub open spec fn leave_step_after_office_hours(
    attendance: Option<(Option<String>, Option<String>)>,
    office: Option<(Option<String>, Option<String>)>,
) -> LeaveNext {
    match (attendance, office) {
        (Some((Some(ci), Some(co))), Some((Some(start), Some(end)))) => if exceeds_half_day(
            ci@,
            co@,
            start@,
            end@,
        ) {
            LeaveNext::Reject(LeaveRule::HalfDayAlreadyWorked)
        } else {
            LeaveNext::Save
        },
        _ => LeaveNext::Save,
    }
}

/// The half-day rule can be computed on the day's attendance and office hours.
pub open spec fn leave_office_check_fits(
    attendance: Option<(Option<String>, Option<String>)>,
    office: Option<(Option<String>, Option<String>)>,
) -> bool {
    match (attendance, office) {
        (Some((Some(ci), Some(co))), Some((Some(start), Some(end)))) => half_day_check_fits(
            ci@,
            co@,
            start@,
            end@,
        ),
        _ => true,
    }
}

/// The whole decision: `None` where the leave may be recorded, else the rule that
/// refuses it, given the day's attendance times and office hours.
pub open spec fn leave_verdict(
    log: LeaveLog,
    attendance: Option<(Option<String>, Option<String>)>,
    office: Option<(Option<String>, Option<String>)>,
) -> Option<LeaveRule> {
    match leave_step_after_attendance(log, attendance) {
        LeaveNext::Reject(rule) => Some(rule),
        LeaveNext::Save => None,
        LeaveNext::CheckOfficeHours => match leave_step_after_office_hours(attendance, office) {
            LeaveNext::Reject(rule) => Some(rule),
            _ => None,
        },
    }
}

/// The date the leave is filed under: `leave_date_ad`, or `leave_date` where it is empty.
pub fn leave_date_ad(log: &LeaveLog) -> (r: String)
    ensures
        r@ == leave_day(*log),
{
    non_empty_or_else(&log.leave_date_ad, &log.leave_date)
}

/// The step that carries out `next` for `log`.
fn leave_step_of(log: &LeaveLog, next: LeaveNext) -> (r: LeaveStep)
    ensures
        leave_next_of(r) == Some(next),
        leave_step_for(*log, r),
{
    match next {
        LeaveNext::CheckOfficeHours => LeaveStep::CheckOfficeHours {
            user_id: log.user_id,
            date: leave_date_ad(log),
        },
        LeaveNext::Save => {
            let date = leave_date_ad(log);
            LeaveStep::Save(leave_to_store(log, &date))
        },
        LeaveNext::Reject(rule) => LeaveStep::Reject(rule),
    }
}

/// The first step of recording `log`: the lookup of the clock-in and clock-out of its
/// user on its day.
pub fn begin_leave(log: &LeaveLog) -> (r: LeaveStep)
    ensures
        r matches LeaveStep::CheckAttendance { .. },
        leave_step_for(*log, r),
{
    LeaveStep::CheckAttendance { user_id: log.user_id, date: leave_date_ad(log) }
}

/// The step that follows the lookup of the day's clock-in and clock-out.
pub fn leave_after_attendance_lookup(
    log: &LeaveLog,
    attendance: &Option<(Option<String>, Option<String>)>,
) -> (r: LeaveStep)
    ensures
        leave_next_of(r) == Some(leave_step_after_attendance(*log, *attendance)),
        leave_step_for(*log, r),
{
    let next = match attendance {
        None => LeaveNext::Save,
        Some((check_in, check_out)) => {
            let t = log.leave_type.as_str();
            let full_day = text_is(t, "absent") || text_is(t, "public_holiday");
            let half_day = text_is(t, "half_day");
            if full_day && check_in.is_some() {
                LeaveNext::Reject(LeaveRule::FullDayWithAttendance)
            } else if half_day && check_in.is_some() && check_out.is_none() {
                LeaveNext::Reject(LeaveRule::ClockOutFirst)
            } else if half_day && check_in.is_some() && check_out.is_some() {
                LeaveNext::CheckOfficeHours
            } else {
                LeaveNext::Save
            }
        },
    };
    leave_step_of(log, next)
}

/// Whether the half-day rule can be applied to the day's attendance and office hours
/// without overflow.
pub fn leave_office_check_is_safe(
    attendance: &Option<(Option<String>, Option<String>)>,
    office: &Option<(Option<String>, Option<String>)>,
) -> (r: bool)
    ensures
        r == leave_office_check_fits(*attendance, *office),
{
    match (attendance, office) {
        (Some((Some(ci), Some(co))), Some((Some(start), Some(end)))) => half_day_check_is_safe(
            ci.as_str(),
            co.as_str(),
            start.as_str(),
            end.as_str(),
        ),
        _ => true,
    }
}

/// The step that follows the lookup of the day's office hours: the half-day rule,
/// where both the attendance times and the office hours are known.
pub fn leave_after_office_lookup(
    log: &LeaveLog,
    attendance: &Option<(Option<String>, Option<String>)>,
    office: &Option<(Option<String>, Option<String>)>,
) -> (r: LeaveStep)
    requires
        leave_office_check_fits(*attendance, *office),
    ensures
        leave_next_of(r) == Some(leave_step_after_office_hours(*attendance, *office)),
        leave_step_for(*log, r),
        r matches LeaveStep::Save(_) || r matches LeaveStep::Reject(LeaveRule::HalfDayAlreadyWorked),
        (*attendance, *office) matches (Some((Some(ci), Some(co))), Some((Some(start), Some(end))))
            ==> ((r matches LeaveStep::Reject(_)) == (minutes_spec(co@) - minutes_spec(ci@)
            > truncated_half(minutes_spec(end@) - minutes_spec(start@)) + 15)),
        !((*attendance, *office) matches (Some((Some(_), Some(_))), Some((Some(_), Some(_)))))
            ==> r matches LeaveStep::Save(_),
{
    let next = match (attendance, office) {
        (Some((Some(ci), Some(co))), Some((Some(start), Some(end)))) => {
            if exceeds_half_day_slot(ci.as_str(), co.as_str(), start.as_str(), end.as_str()) {
                LeaveNext::Reject(LeaveRule::HalfDayAlreadyWorked)
            } else {
                LeaveNext::Save
            }
        },
        _ => LeaveNext::Save,
    };
    leave_step_of(log, next)
}

/// The leave as it is written: filed under `date` in both its date fields, and with the
/// BS date of the leave written as its absent date too.
pub fn leave_to_store(log: &LeaveLog, date: &String) -> (r: LeaveLog)
    ensures
        r == (LeaveLog {
            leave_date: *date,
            leave_date_ad: *date,
            absent_date_bs: log.leave_date_bs,
            ..*log
        }),
{
    LeaveLog {
        id: log.id,
        user_id: log.user_id,
        leave_date: date.clone(),
        leave_date_ad: date.clone(),
        leave_date_bs: copy_text_option(&log.leave_date_bs),
        leave_type: log.leave_type.clone(),
        notes: log.notes.clone(),
        absent_date_bs: copy_text_option(&log.leave_date_bs),
    }
}

/// The leave log handed back once written under `id`: filed under `date` in both its
/// date fields, the rest as submitted.
pub fn saved_leave_log(log: LeaveLog, date: String, id: i64) -> (r: LeaveLog)
    ensures
        r == (LeaveLog { id: Some(id), leave_date: date, leave_date_ad: date, ..log }),
{
    LeaveLog {
        id: Some(id),
        user_id: log.user_id,
        leave_date: date.clone(),
        leave_date_ad: date,
        leave_date_bs: log.leave_date_bs,
        leave_type: log.leave_type,
        notes: log.notes,
        absent_date_bs: log.absent_date_bs,
    }
}

/// A day with a clock-in refuses any full-day leave.
pub proof fn clock_in_blocks_full_day_leave(
    log: LeaveLog,
    check_in: String,
    check_out: Option<String>,
    office: Option<(Option<String>, Option<String>)>,
)
    requires
        is_full_day_leave(log.leave_type@),
    ensures
        leave_verdict(log, Some((Some(check_in), check_out)), office) == Some(
            LeaveRule::FullDayWithAttendance,
        ),
{
}

/// A day without attendance accepts any leave.
pub proof fn no_attendance_no_refusal(log: LeaveLog, office: Option<(Option<String>, Option<String>)>)
    ensures
        leave_verdict(log, None, office) is None,
{
}

/// Leave types other than the full-day and half-day ones are always accepted.
pub proof fn other_leave_types_accepted(
    log: LeaveLog,
    attendance: Option<(Option<String>, Option<String>)>,
    office: Option<(Option<String>, Option<String>)>,
)
    requires
        !is_full_day_leave(log.leave_type@),
        !is_half_day_leave(log.leave_type@),
    ensures
        leave_verdict(log, attendance, office) is None,
{
}

/// The half-day rule is one rule: a record with clock-in `ci` and clock-out `co` on a
/// day with a half-day leave is refused for working too long exactly where a half-day
/// leave on a day clocked in at `ci` and out at `co` is refused for it.
pub proof fn half_day_rule_agrees(
    record: crate::models::AttendanceRecord,
    half_day: String,
    log: LeaveLog,
    ci: String,
    co: String,
    office: Option<(Option<String>, Option<String>)>,
)
    requires
        is_half_day_leave(half_day@),
        is_half_day_leave(log.leave_type@),
        record.check_in == Some(ci),
        record.check_out == Some(co),
    ensures
        (crate::attendance::attendance_verdict(record, Some(half_day), office) == Some(
            crate::attendance::AttendanceRule::HalfDayLimitExceeded,
        )) == (leave_verdict(log, Some((Some(ci), Some(co))), office) == Some(
            LeaveRule::HalfDayAlreadyWorked,
        )),
{
}

/// A half-day leave on a day clocked in at `ci` and out at `co`, with known office hours,
/// is refused exactly when the minutes from `ci` to `co` go beyond half the office day
/// (from the day's start to its end, rounded toward zero) and a quarter hour; otherwise
/// it is recorded.
pub proof fn half_day_leave_counts_from_clock_in(
    log: LeaveLog,
    ci: String,
    co: String,
    start: String,
    end: String,
)
    requires
        is_half_day_leave(log.leave_type@),
    ensures
        leave_verdict(log, Some((Some(ci), Some(co))), Some((Some(start), Some(end)))) == (if minutes_spec(
            co@,
        ) - minutes_spec(ci@) > truncated_half(minutes_spec(end@) - minutes_spec(start@)) + 15 {
            Some(LeaveRule::HalfDayAlreadyWorked)
        } else {
            None
        }),
{
    reveal_strlit("half_day");
    reveal_strlit("absent");
    reveal_strlit("public_holiday");
    assert(log.leave_type@.len() == 8);
    assert("absent"@.len() == 6);
    assert("public_holiday"@.len() == 14);
}

/// A half-day leave on a day clocked in but not yet clocked out is refused until the
/// clock-out, whatever the office hours; on a day without a clock-in it is recorded.
pub proof fn half_day_leave_waits_for_clock_out(
    log: LeaveLog,
    check_in: Option<String>,
    office: Option<(Option<String>, Option<String>)>,
)
    requires
        is_half_day_leave(log.leave_type@),
    ensures
        check_in is Some ==> leave_verdict(log, Some((check_in, None)), office) == Some(
            LeaveRule::ClockOutFirst,
        ),
        forall|check_out: Option<String>|
            #[trigger] leave_verdict(log, Some((None, check_out)), office) is None,
{
    reveal_strlit("half_day");
    reveal_strlit("absent");
    reveal_strlit("public_holiday");
    assert(log.leave_type@.len() == 8);
    assert("absent"@.len() == 6);
    assert("public_holiday"@.len() == 14);
}

} // verus!
