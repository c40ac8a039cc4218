use boredapp::{
    admin_account_to_seed, attendance_after_leave_lookup, begin_attendance_save, begin_leave,
    known_calendar, password_matches, attendance_after_office_lookup,
    attendance_date_ad, attendance_from_dated_rows, attendance_from_row,
    attendance_office_check_is_safe, attendance_to_store, calendar_days_from_rows,
    database_error, default_office_hour, exceeds_half_day_slot, greet, half_day_check_is_safe,
    leave_after_attendance_lookup, leave_after_office_lookup, leave_date_ad, leave_from_row,
    leave_office_check_is_safe, leave_to_store, leaves_from_rows, logout, office_hours_from_rows,
    office_hours_to_seed, saved_leave_log, schema_changes, statements_to_run, time_to_minutes,
    user_from_row, AdminSeed, AttendanceRecord, AttendanceRule, AttendanceStep, LeaveLog,
    LeaveRule, LeaveStep, OfficeHour, SchemaChange, UserData,
};

fn s(v: &str) -> String {
    v.to_string()
}

fn record(check_in: Option<&str>, check_out: Option<&str>) -> AttendanceRecord {
    AttendanceRecord {
        user_id: 3,
        date: s("2024-05-01"),
        attendance_date_ad: s(""),
        attendance_date_bs: Some(s("2081-01-19")),
        check_in: check_in.map(s),
        check_out: check_out.map(s),
        status: s("present"),
        overtime: 0,
        is_manual: false,
    }
}

fn leave(leave_type: &str) -> LeaveLog {
    LeaveLog {
        id: None,
        user_id: 3,
        leave_date: s("2024-05-01"),
        leave_date_ad: s(""),
        leave_date_bs: Some(s("2081-01-19")),
        leave_type: s(leave_type),
        notes: s("doctor"),
        absent_date_bs: Some(s("2081-01-18")),
    }
}

fn office(start: &str, end: &str) -> Option<(Option<String>, Option<String>)> {
    Some((Some(s(start)), Some(s(end))))
}

#[test]
fn time_to_minutes_reads_hours_and_minutes() {
    assert_eq!(time_to_minutes("09:00"), 540);
    assert_eq!(time_to_minutes("17:30"), 1050);
    assert_eq!(time_to_minutes("0:0"), 0);
    assert_eq!(time_to_minutes("+1:-5"), 55);
}

#[test]
fn time_to_minutes_edge_cases() {
    assert_eq!(time_to_minutes(""), 0);
    assert_eq!(time_to_minutes("0900"), 0);
    assert_eq!(time_to_minutes("09:00:00"), 0);
    assert_eq!(time_to_minutes("ab:30"), 30);
    assert_eq!(time_to_minutes("10:"), 600);
    assert_eq!(time_to_minutes(":15"), 15);
    assert_eq!(time_to_minutes(" 9:30"), 30);
    assert_eq!(time_to_minutes("1:99999999999"), 60);
    assert_eq!(time_to_minutes("-2:10"), -110);
    assert_eq!(time_to_minutes("1:-2147483648") as i64, 60 - 2147483648i64);
}

#[test]
fn half_day_rule() {
    // Office day 09:00-17:00 is 480 minutes: the limit is 240 + 15.
    assert!(!exceeds_half_day_slot("09:00", "13:15", "09:00", "17:00"));
    assert!(exceeds_half_day_slot("09:00", "13:16", "09:00", "17:00"));
    // -7 / 2 rounds toward zero: the limit is -3 + 15 = 12.
    assert!(exceeds_half_day_slot("00:00", "00:13", "00:07", "00:00"));
    assert!(!exceeds_half_day_slot("00:00", "00:12", "00:07", "00:00"));
}

#[test]
fn half_day_check_safety() {
    assert!(half_day_check_is_safe("09:00", "13:00", "09:00", "17:00"));
    assert!(!half_day_check_is_safe("40000000:00", "0:0", "0:0", "0:0"));
    assert!(!half_day_check_is_safe("0:0", "0:0", "-30000000:0", "30000000:0"));
}

#[test]
fn attendance_date_falls_back_to_date() {
    let mut r = record(None, None);
    assert_eq!(attendance_date_ad(&r), "2024-05-01");
    r.attendance_date_ad = s("2024-05-02");
    assert_eq!(attendance_date_ad(&r), "2024-05-02");
}

#[test]
fn full_day_leave_blocks_attendance() {
    let r = record(Some("09:00"), Some("17:00"));
    assert_eq!(
        attendance_after_leave_lookup(&r, &Some(s("absent"))),
        AttendanceStep::Reject(AttendanceRule::FullDayLeave)
    );
    assert_eq!(
        attendance_after_leave_lookup(&r, &Some(s("public_holiday"))),
        AttendanceStep::Reject(AttendanceRule::FullDayLeave)
    );
    assert_eq!(AttendanceRule::FullDayLeave.message(), "Cannot clock in to a full-day leave.");
}

#[test]
fn attendance_steps_for_other_leaves() {
    let both = record(Some("09:00"), Some("12:00"));
    let half_open = record(Some("09:00"), None);
    assert!(matches!(attendance_after_leave_lookup(&both, &None), AttendanceStep::Save(_)));
    assert!(matches!(attendance_after_leave_lookup(&both, &Some(s("sick"))), AttendanceStep::Save(_)));
    assert_eq!(
        attendance_after_leave_lookup(&both, &Some(s("half_day"))),
        AttendanceStep::CheckOfficeHours { user_id: 3, date: s("2024-05-01") }
    );
    assert!(matches!(attendance_after_leave_lookup(&half_open, &Some(s("half_day"))), AttendanceStep::Save(_)));
}

#[test]
fn attendance_half_day_limit() {
    let short = record(Some("09:00"), Some("13:00"));
    let long = record(Some("09:00"), Some("14:00"));
    let hours = office("09:00", "17:00");
    assert!(attendance_office_check_is_safe(&long, &hours));
    assert!(matches!(attendance_after_office_lookup(&short, &hours), AttendanceStep::Save(_)));
    assert_eq!(
        attendance_after_office_lookup(&long, &hours),
        AttendanceStep::Reject(AttendanceRule::HalfDayLimitExceeded)
    );
    assert!(matches!(attendance_after_office_lookup(&long, &None), AttendanceStep::Save(_)));
    assert!(matches!(attendance_after_office_lookup(&long, &Some((None, Some(s("17:00"))))), AttendanceStep::Save(_)));
    assert_eq!(
        AttendanceRule::HalfDayLimitExceeded.message(),
        "Time limit exceeded for half-day leave slot."
    );
}

#[test]
fn attendance_is_stored_under_its_day() {
    let r = record(Some("09:00"), None);
    let stored = attendance_to_store(&r, &s("2024-05-01"));
    assert_eq!(stored.date, "2024-05-01");
    assert_eq!(stored.attendance_date_ad, "2024-05-01");
    assert_eq!(stored.check_in, Some(s("09:00")));
    assert_eq!(stored.attendance_date_bs, Some(s("2081-01-19")));
}

#[test]
fn leave_steps() {
    let worked = Some((Some(s("09:00")), Some(s("17:00"))));
    let open = Some((Some(s("09:00")), None));
    let none_in = Some((None, Some(s("17:00"))));
    assert_eq!(
        leave_after_attendance_lookup(&leave("absent"), &open),
        LeaveStep::Reject(LeaveRule::FullDayWithAttendance)
    );
    assert!(matches!(leave_after_attendance_lookup(&leave("absent"), &none_in), LeaveStep::Save(_)));
    assert_eq!(
        leave_after_attendance_lookup(&leave("half_day"), &open),
        LeaveStep::Reject(LeaveRule::ClockOutFirst)
    );
    assert_eq!(leave_after_attendance_lookup(&leave("half_day"), &worked), LeaveStep::CheckOfficeHours { user_id: 3, date: s("2024-05-01") });
    assert!(matches!(leave_after_attendance_lookup(&leave("half_day"), &None), LeaveStep::Save(_)));
    assert!(matches!(leave_after_attendance_lookup(&leave("sick"), &worked), LeaveStep::Save(_)));
}

#[test]
fn leave_half_day_limit() {
    let worked = Some((Some(s("09:00")), Some(s("17:00"))));
    let morning = Some((Some(s("09:00")), Some(s("12:00"))));
    let hours = office("09:00", "17:00");
    assert!(leave_office_check_is_safe(&worked, &hours));
    assert_eq!(
        leave_after_office_lookup(&leave("half_day"), &worked, &hours),
        LeaveStep::Reject(LeaveRule::HalfDayAlreadyWorked)
    );
    assert!(matches!(leave_after_office_lookup(&leave("half_day"), &morning, &hours), LeaveStep::Save(_)));
    assert_eq!(
        LeaveRule::HalfDayAlreadyWorked.message(),
        "Cannot apply for half-day leave. Full day already worked."
    );
    assert_eq!(
        LeaveRule::ClockOutFirst.message(),
        "Please clock out first before applying for partial leave."
    );
    assert_eq!(
        LeaveRule::FullDayWithAttendance.message(),
        "Cannot apply for full-day leave. You have attendance logs today."
    );
}

#[test]
fn leave_is_stored_and_returned() {
    let log = leave("sick");
    let day = leave_date_ad(&log);
    assert_eq!(day, "2024-05-01");
    let stored = leave_to_store(&log, &day);
    assert_eq!(stored.leave_date, "2024-05-01");
    assert_eq!(stored.leave_date_ad, "2024-05-01");
    assert_eq!(stored.absent_date_bs, Some(s("2081-01-19")));
    let saved = saved_leave_log(log, day, 42);
    assert_eq!(saved.id, Some(42));
    assert_eq!(saved.leave_date, "2024-05-01");
    assert_eq!(saved.leave_date_ad, "2024-05-01");
    assert_eq!(saved.absent_date_bs, Some(s("2081-01-18")));
    assert_eq!(saved.notes, "doctor");
}

#[test]
fn rows_become_records() {
    let a = attendance_from_row(3, "2024-05-01", &(s(""), Some(s("09:00")), None, s("present"), 2, true));
    assert_eq!(a.date, "2024-05-01");
    assert_eq!(a.attendance_date_ad, "2024-05-01");
    assert_eq!(a.attendance_date_bs, None);
    assert_eq!(a.overtime, 2);
    let many = attendance_from_dated_rows(
        3,
        &vec![
            (s("2024-05-01"), s("2081-01-19"), None, None, s("absent"), 0, false),
            (s("2024-05-02"), s(""), None, None, s("present"), 0, false),
        ],
    );
    assert_eq!(many.len(), 2);
    assert_eq!(many[0].attendance_date_bs, Some(s("2081-01-19")));
    assert_eq!(many[1].date, "2024-05-02");
    assert_eq!(many[1].attendance_date_bs, None);

    let l = leave_from_row(3, &(9, s("2024-05-03"), s(""), s("sick"), s("")));
    assert_eq!(l.id, Some(9));
    assert_eq!(l.leave_date, l.leave_date_ad);
    assert_eq!(l.leave_date_bs, None);
    assert_eq!(l.absent_date_bs, None);
    let ls = leaves_from_rows(3, &vec![(9, s("2024-05-03"), s("2081-01-21"), s("sick"), s("x"))]);
    assert_eq!(ls[0].absent_date_bs, Some(s("2081-01-21")));

    let days = calendar_days_from_rows(&vec![(s("2081-01-19"), s("2024-05-01"), Some(s("Labour day")), None, true)]);
    assert_eq!(days[0].ad_date, "2024-05-01");
    assert!(days[0].holiday);

    let hours = office_hours_from_rows(&vec![(6, None, None, true)]);
    assert_eq!(hours, vec![OfficeHour { day_of_week: 6, start_time: None, end_time: None, is_off_day: true }]);

    let u = user_from_row(&(1, s("alice"), s("alice@example.com"), s("bs")));
    assert_eq!(
        u,
        UserData { id: 1, username: s("alice"), email: s("alice@example.com"), calendar_preference: s("bs") }
    );
}

#[test]
fn default_office_hours_are_seeded_only_when_missing() {
    let hours = office_hours_to_seed(0);
    assert_eq!(hours.len(), 7);
    for (i, h) in hours.iter().enumerate() {
        assert_eq!(h.day_of_week, i as i32);
    }
    assert_eq!(hours[0].start_time, Some(s("09:00")));
    assert_eq!(hours[0].end_time, Some(s("17:00")));
    assert!(!hours[0].is_off_day);
    assert_eq!(hours[6], default_office_hour(6));
    assert!(hours[6].is_off_day);
    assert_eq!(hours[6].start_time, None);
    assert!(office_hours_to_seed(7).is_empty());
}

#[test]
fn greeting_and_logout() {
    assert_eq!(greet("Sita"), "Hello, Sita! You're ready to get started with the app!");
    assert!(logout());
    assert_eq!(database_error("timeout"), "Database error: timeout");
}

#[test]
fn schema_migrations_run_only_when_missing() {
    let changes = schema_changes();
    assert_eq!(changes.len(), 18);
    assert!(changes[0].statements[0].contains("CREATE TABLE IF NOT EXISTS users"));
    let guarded = &changes[1];
    assert!(guarded.probe.is_some());
    assert!(statements_to_run(guarded, &Some(s("calendar_preference"))).is_empty());
    assert_eq!(statements_to_run(guarded, &None), guarded.statements);
    let always = SchemaChange { probe: None, statements: vec![s("UPDATE t SET a = 1")] };
    assert_eq!(statements_to_run(&always, &Some(s("row"))), always.statements);
}

#[test]
fn admin_is_seeded_only_into_an_empty_database() {
    assert_eq!(admin_account_to_seed(Some(3)), AdminSeed::NotNeeded);
    match admin_account_to_seed(None) {
        AdminSeed::Account(name, email, hash) => {
            assert_eq!(name, "admin");
            assert_eq!(email, "admin@example.com");
            assert!(bcrypt::verify("admin", &hash).unwrap());
        }
        other => panic!("unexpected {:?}", other),
    }
}

#[test]
fn steps_carry_the_user_and_day() {
    let r = record(Some("09:00"), None);
    assert_eq!(
        begin_attendance_save(&r),
        AttendanceStep::CheckLeave { user_id: 3, date: s("2024-05-01") }
    );
    match attendance_after_leave_lookup(&r, &None) {
        AttendanceStep::Save(stored) => {
            assert_eq!(stored, attendance_to_store(&r, &s("2024-05-01")));
        }
        other => panic!("unexpected {:?}", other),
    }
    let l = leave("sick");
    assert_eq!(begin_leave(&l), LeaveStep::CheckAttendance { user_id: 3, date: s("2024-05-01") });
    match leave_after_attendance_lookup(&l, &None) {
        LeaveStep::Save(stored) => {
            assert_eq!(stored, leave_to_store(&l, &s("2024-05-01")));
            assert_eq!(stored.absent_date_bs, Some(s("2081-01-19")));
        }
        other => panic!("unexpected {:?}", other),
    }
}

#[test]
fn password_check_and_calendar_values() {
    let hash = bcrypt::hash("pw", 4).unwrap();
    assert!(password_matches(&bcrypt::verify("pw", &hash)));
    assert!(!password_matches(&bcrypt::verify("other", &hash)));
    assert!(!password_matches(&bcrypt::verify("pw", "malformed")));
    assert_eq!(known_calendar(s("bs")), Some(s("bs")));
    assert_eq!(known_calendar(s("BS")), None);
}

#[test]
fn schema_changes_name_the_five_tables() {
    let changes = schema_changes();
    let creates: Vec<usize> = changes
        .iter()
        .enumerate()
        .filter(|(_, c)| c.probe.is_none() && c.statements[0].contains("CREATE TABLE"))
        .map(|(i, _)| i)
        .collect();
    assert_eq!(creates, vec![0, 2, 8, 10, 17]);
    assert_eq!(
        changes[12].statements,
        vec![s("ALTER TABLE leave_logs ADD COLUMN leave_date_ad DATE NULL AFTER leave_date")]
    );
}
