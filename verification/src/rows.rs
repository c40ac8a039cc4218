//! How the rows the store hands back become records.
//!
//! Optional text columns are read with `COALESCE(column, '')`, so an empty text stands
//! for "no value" and reads back as `None`.
use vstd::prelude::*;
use crate::models::{AttendanceRecord, CalendarDay, LeaveLog, OfficeHour, UserData};
use crate::text::{absent_if_empty, copy_text_option, none_if_empty};

verus! {

/// An attendance row: BS date (empty for none), check-in, check-out, status, overtime,
/// manual flag.
pub type AttendanceRow = (String, Option<String>, Option<String>, String, i32, bool);

/// An attendance row that leads with its AD date.
pub type DatedAttendanceRow = (String, String, Option<String>, Option<String>, String, i32, bool);

/// A leave row: id, AD date, BS date (empty for none), leave type, notes (empty for none).
pub type LeaveRow = (i64, String, String, String, String);

/// A calendar row: BS date, AD date, event, tithi, holiday flag.
pub type CalendarRow = (String, String, Option<String>, Option<String>, bool);

/// An office-hours row: day of week, start, end, off-day flag.
pub type OfficeHourRow = (i32, Option<String>, Option<String>, bool);

/// A user row: id, username, email, calendar preference.
pub type UserRow = (i64, String, String, String);

pub open spec fn attendance_of_row(user_id: i64, date: String, row: AttendanceRow) -> AttendanceRecord {
    AttendanceRecord {
        user_id,
        date,
        attendance_date_ad: date,
        attendance_date_bs: absent_if_empty(row.0),
        check_in: row.1,
        check_out: row.2,
        status: row.3,
        overtime: row.4,
        is_manual: row.5,
    }
}

pub open spec fn attendance_of_dated_row(user_id: i64, row: DatedAttendanceRow) -> AttendanceRecord {
    attendance_of_row(user_id, row.0, (row.1, row.2, row.3, row.4, row.5, row.6))
}

pub open spec fn leave_of_row(user_id: i64, row: LeaveRow) -> LeaveLog {
    LeaveLog {
        id: Some(row.0),
        user_id,
        leave_date: row.1,
        leave_date_ad: row.1,
        leave_date_bs: absent_if_empty(row.2),
        leave_type: row.3,
        notes: row.4,
        absent_date_bs: absent_if_empty(row.2),
    }
}

pub open spec fn calendar_day_of_row(row: CalendarRow) -> CalendarDay {
    CalendarDay { bs_date: row.0, ad_date: row.1, event: row.2, tithi: row.3, holiday: row.4 }
}

pub open spec fn office_hour_of_row(row: OfficeHourRow) -> OfficeHour {
    OfficeHour { day_of_week: row.0, start_time: row.1, end_time: row.2, is_off_day: row.3 }
}

pub open spec fn user_of_row(row: UserRow) -> UserData {
    UserData { id: row.0, username: row.1, email: row.2, calendar_preference: row.3 }
}

/// The attendance record of `user_id` on `date`, from its row.
pub fn attendance_from_row(user_id: i64, date: &str, row: &AttendanceRow) -> (r: AttendanceRecord)
    ensures
        r == attendance_of_row(user_id, r.date, *row),
        r.date@ == date@,
        r.user_id == user_id,
        r.attendance_date_ad == r.date,
        r.check_in == row.1,
        r.check_out == row.2,
        r.status == row.3,
        r.overtime == row.4,
        r.is_manual == row.5,
{
    let d: String = date.to_owned();
    AttendanceRecord {
        user_id,
        date: d.clone(),
        attendance_date_ad: d,
        attendance_date_bs: none_if_empty(row.0.clone()),
        check_in: copy_text_option(&row.1),
        check_out: copy_text_option(&row.2),
        status: row.3.clone(),
        overtime: row.4,
        is_manual: row.5,
    }
}

/// An attendance record of `user_id`, from a row that carries its date.
pub fn attendance_from_dated_row(user_id: i64, row: &DatedAttendanceRow) -> (r: AttendanceRecord)
    ensures
        r == attendance_of_dated_row(user_id, *row),
        r.user_id == user_id,
        r.date == row.0,
        r.attendance_date_ad == row.0,
        r.check_in == row.2,
        r.check_out == row.3,
        r.status == row.4,
        r.overtime == row.5,
        r.is_manual == row.6,
{
    AttendanceRecord {
        user_id,
        date: row.0.clone(),
        attendance_date_ad: row.0.clone(),
        attendance_date_bs: none_if_empty(row.1.clone()),
        check_in: copy_text_option(&row.2),
        check_out: copy_text_option(&row.3),
        status: row.4.clone(),
        overtime: row.5,
        is_manual: row.6,
    }
}

/// The attendance records of `user_id`, one per row, in the order of the rows.
pub fn attendance_from_dated_rows(user_id: i64, rows: &Vec<DatedAttendanceRow>) -> (r: Vec<
    AttendanceRecord,
>)
    ensures
        r.len() == rows.len(),
        forall|i: int| 0 <= i < rows.len() ==> r@[i] == attendance_of_dated_row(user_id, #[trigger] rows@[i]),
        forall|i: int|
            0 <= i < rows.len() ==> (#[trigger] r@[i]).date == rows@[i].0 && r@[i].check_in
                == rows@[i].2 && r@[i].check_out == rows@[i].3 && r@[i].status == rows@[i].4,
{
    let mut out: Vec<AttendanceRecord> = Vec::new();
    let mut i: usize = 0;
    while i < rows.len()
        invariant
            i <= rows.len(),
            out.len() == i,
            forall|j: int| 0 <= j < i ==> out@[j] == attendance_of_dated_row(user_id, #[trigger] rows@[j]),
        decreases rows.len() - i,
    {
        out.push(attendance_from_dated_row(user_id, &rows[i]));
        i += 1;
    }
    out
}

/// A leave log of `user_id`, from its row: the AD date is both its dates, and the BS
/// date is both its BS date and its absent date.
pub fn leave_from_row(user_id: i64, row: &LeaveRow) -> (r: LeaveLog)
    ensures
        r == leave_of_row(user_id, *row),
        r.id == Some(row.0),
        r.user_id == user_id,
        r.leave_date == row.1,
        r.leave_date_ad == row.1,
        r.leave_type == row.3,
        r.notes == row.4,
        r.absent_date_bs == r.leave_date_bs,
        row.2@.len() == 0 ==> r.leave_date_bs is None,
        row.2@.len() > 0 ==> (r.leave_date_bs matches Some(b) && b@ == row.2@),
{
    LeaveLog {
        id: Some(row.0),
        user_id,
        leave_date: row.1.clone(),
        leave_date_ad: row.1.clone(),
        leave_date_bs: none_if_empty(row.2.clone()),
        leave_type: row.3.clone(),
        notes: row.4.clone(),
        absent_date_bs: none_if_empty(row.2.clone()),
    }
}

/// The leave logs of `user_id`, one per row, in the order of the rows.
pub fn leaves_from_rows(user_id: i64, rows: &Vec<LeaveRow>) -> (r: Vec<LeaveLog>)
    ensures
        r.len() == rows.len(),
        forall|i: int| 0 <= i < rows.len() ==> r@[i] == leave_of_row(user_id, #[trigger] rows@[i]),
        forall|i: int|
            0 <= i < rows.len() ==> (#[trigger] r@[i]).id == Some(rows@[i].0) && r@[i].leave_date
                == rows@[i].1 && r@[i].leave_type == rows@[i].3 && r@[i].notes == rows@[i].4,
{
    let mut out: Vec<LeaveLog> = Vec::new();
    let mut i: usize = 0;
    while i < rows.len()
        invariant
            i <= rows.len(),
            out.len() == i,
            forall|j: int| 0 <= j < i ==> out@[j] == leave_of_row(user_id, #[trigger] rows@[j]),
        decreases rows.len() - i,
    {
        out.push(leave_from_row(user_id, &rows[i]));
        i += 1;
    }
    out
}

/// A calendar day, from its row.
pub fn calendar_day_from_row(row: &CalendarRow) -> (r: CalendarDay)
    ensures
        r == calendar_day_of_row(*row),
        r.bs_date == row.0,
        r.ad_date == row.1,
        r.event == row.2,
        r.tithi == row.3,
        r.holiday == row.4,
{
    CalendarDay {
        bs_date: row.0.clone(),
        ad_date: row.1.clone(),
        event: copy_text_option(&row.2),
        tithi: copy_text_option(&row.3),
        holiday: row.4,
    }
}

/// The calendar days, one per row, in the order of the rows.
pub fn calendar_days_from_rows(rows: &Vec<CalendarRow>) -> (r: Vec<CalendarDay>)
    ensures
        r.len() == rows.len(),
        forall|i: int| 0 <= i < rows.len() ==> r@[i] == calendar_day_of_row(#[trigger] rows@[i]),
        forall|i: int|
            0 <= i < rows.len() ==> (#[trigger] r@[i]).bs_date == rows@[i].0 && r@[i].ad_date
                == rows@[i].1 && r@[i].event == rows@[i].2 && r@[i].tithi == rows@[i].3
                && r@[i].holiday == rows@[i].4,
{
    let mut out: Vec<CalendarDay> = Vec::new();
    let mut i: usize = 0;
    while i < rows.len()
        invariant
            i <= rows.len(),
            out.len() == i,
            forall|j: int| 0 <= j < i ==> out@[j] == calendar_day_of_row(#[trigger] rows@[j]),
        decreases rows.len() - i,
    {
        out.push(calendar_day_from_row(&rows[i]));
        i += 1;
    }
    out
}

/// The office hours of one day, from its row.
pub fn office_hour_from_row(row: &OfficeHourRow) -> (r: OfficeHour)
    ensures
        r == office_hour_of_row(*row),
        r.day_of_week == row.0,
        r.start_time == row.1,
        r.end_time == row.2,
        r.is_off_day == row.3,
{
    OfficeHour {
        day_of_week: row.0,
        start_time: copy_text_option(&row.1),
        end_time: copy_text_option(&row.2),
        is_off_day: row.3,
    }
}

/// The office hours, one per row, in the order of the rows.
pub fn office_hours_from_rows(rows: &Vec<OfficeHourRow>) -> (r: Vec<OfficeHour>)
    ensures
        r.len() == rows.len(),
        forall|i: int| 0 <= i < rows.len() ==> r@[i] == office_hour_of_row(#[trigger] rows@[i]),
        forall|i: int|
            0 <= i < rows.len() ==> (#[trigger] r@[i]).day_of_week == rows@[i].0
                && r@[i].start_time == rows@[i].1 && r@[i].end_time == rows@[i].2
                && r@[i].is_off_day == rows@[i].3,
{
    let mut out: Vec<OfficeHour> = Vec::new();
    let mut i: usize = 0;
    while i < rows.len()
        invariant
            i <= rows.len(),
            out.len() == i,
            forall|j: int| 0 <= j < i ==> out@[j] == office_hour_of_row(#[trigger] rows@[j]),
        decreases rows.len() - i,
    {
        out.push(office_hour_from_row(&rows[i]));
        i += 1;
    }
    out
}

/// A user's profile, from its row.
pub fn user_from_row(row: &UserRow) -> (r: UserData)
    ensures
        r == user_of_row(*row),
        r.id == row.0,
        r.username == row.1,
        r.email == row.2,
        r.calendar_preference == row.3,
{
    UserData {
        id: row.0,
        username: row.1.clone(),
        email: row.2.clone(),
        calendar_preference: row.3.clone(),
    }
}

/// The text an optional column reads back as with `COALESCE(column, '')`.
pub open spec fn coalesced(o: Option<String>) -> Seq<char> {
    match o {
        Some(s) => s@,
        None => Seq::<char>::empty(),
    }
}

/// An optional text read back as written: `None` where nothing or an empty text was
/// written, else a text that reads as the one written.
pub open spec fn reads_back_as(back: Option<String>, written: Option<String>) -> bool {
    if coalesced(written).len() == 0 {
        back is None
    } else {
        back matches Some(b) && b@ == coalesced(written)
    }
}

/// A record written as `attendance_to_store(record, date)` shapes it reads back, through
/// the row the store returns for `date`, as that record: the same user, `date` in both date
/// fields, the same times, status, overtime and flag, and the same BS date (an empty one
/// reads back as none).
pub proof fn attendance_reads_back(record: AttendanceRecord, date: String, row: AttendanceRow)
    requires
        row.0@ == coalesced(record.attendance_date_bs),
        row.1 == record.check_in,
        row.2 == record.check_out,
        row.3 == record.status,
        row.4 == record.overtime,
        row.5 == record.is_manual,
    ensures
        attendance_of_row(record.user_id, date, row).user_id == record.user_id,
        attendance_of_row(record.user_id, date, row).date == date,
        attendance_of_row(record.user_id, date, row).attendance_date_ad == date,
        attendance_of_row(record.user_id, date, row).check_in == record.check_in,
        attendance_of_row(record.user_id, date, row).check_out == record.check_out,
        attendance_of_row(record.user_id, date, row).status == record.status,
        attendance_of_row(record.user_id, date, row).overtime == record.overtime,
        attendance_of_row(record.user_id, date, row).is_manual == record.is_manual,
        reads_back_as(
            attendance_of_row(record.user_id, date, row).attendance_date_bs,
            record.attendance_date_bs,
        ),
{
}

/// A leave written as `leave_to_store(log, date)` shapes it, under `id`, reads back through
/// its row as that leave: `id`, `date` in both date fields, the same type and notes, and
/// the same BS date, which is also its absent date (an empty one reads back as none).
pub proof fn leave_reads_back(log: LeaveLog, date: String, id: i64, row: LeaveRow)
    requires
        row.0 == id,
        row.1 == date,
        row.2@ == coalesced(log.leave_date_bs),
        row.3 == log.leave_type,
        row.4 == log.notes,
    ensures
        leave_of_row(log.user_id, row).id == Some(id),
        leave_of_row(log.user_id, row).user_id == log.user_id,
        leave_of_row(log.user_id, row).leave_date == date,
        leave_of_row(log.user_id, row).leave_date_ad == date,
        leave_of_row(log.user_id, row).leave_type == log.leave_type,
        leave_of_row(log.user_id, row).notes == log.notes,
        reads_back_as(leave_of_row(log.user_id, row).leave_date_bs, log.leave_date_bs),
        leave_of_row(log.user_id, row).absent_date_bs == leave_of_row(log.user_id, row).leave_date_bs,
{
}

/// A record written as `attendance_to_store(record, date)` shapes it reads back, through
/// a row that leads with `date` (as the listing over a range returns it), as that record:
/// the same user, `date` in both date fields, the same clock-in and clock-out, status,
/// overtime and flag, and the same BS date (an empty one reads back as none).
pub proof fn dated_attendance_reads_back(record: AttendanceRecord, date: String, row: DatedAttendanceRow)
    requires
        row.0 == date,
        row.1@ == coalesced(record.attendance_date_bs),
        row.2 == record.check_in,
        row.3 == record.check_out,
        row.4 == record.status,
        row.5 == record.overtime,
        row.6 == record.is_manual,
    ensures
        attendance_of_dated_row(record.user_id, row).user_id == record.user_id,
        attendance_of_dated_row(record.user_id, row).date == date,
        attendance_of_dated_row(record.user_id, row).attendance_date_ad == date,
        attendance_of_dated_row(record.user_id, row).check_in == record.check_in,
        attendance_of_dated_row(record.user_id, row).check_out == record.check_out,
        attendance_of_dated_row(record.user_id, row).status == record.status,
        attendance_of_dated_row(record.user_id, row).overtime == record.overtime,
        attendance_of_dated_row(record.user_id, row).is_manual == record.is_manual,
        reads_back_as(
            attendance_of_dated_row(record.user_id, row).attendance_date_bs,
            record.attendance_date_bs,
        ),
{
}

/// Office hours written as (day, start, end, off-day) read back through their row as the
/// same hours: the day, the start time as start, the end time as end, and the flag.
pub proof fn office_hour_reads_back(hour: OfficeHour, row: OfficeHourRow)
    requires
        row.0 == hour.day_of_week,
        row.1 == hour.start_time,
        row.2 == hour.end_time,
        row.3 == hour.is_off_day,
    ensures
        office_hour_of_row(row).day_of_week == hour.day_of_week,
        office_hour_of_row(row).start_time == hour.start_time,
        office_hour_of_row(row).end_time == hour.end_time,
        office_hour_of_row(row).is_off_day == hour.is_off_day,
        office_hour_of_row(row) == hour,
{
}

/// A calendar row (BS date, AD date, event, tithi, holiday) reads as the day with each
/// column in its own field: the event is the event column and the tithi the tithi column.
pub proof fn calendar_day_keeps_its_columns(row: CalendarRow)
    ensures
        calendar_day_of_row(row).bs_date == row.0,
        calendar_day_of_row(row).ad_date == row.1,
        calendar_day_of_row(row).event == row.2,
        calendar_day_of_row(row).tithi == row.3,
        calendar_day_of_row(row).holiday == row.4,
{
}

} // verus!
