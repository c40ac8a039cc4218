//! The database schema and its migrations, and the accounts and hours that a fresh
//! database starts with.
//!
//! The schema is a list of changes run in order. A guarded change first asks the database
//! whether what it adds is already there (a query that returns a row where it is), and
//! runs its statements only where the answer is no row.
use vstd::prelude::*;
use crate::auth::login_user;
use crate::crypto::{bcrypt_verify_outcome, hash_password};
use crate::models::UserData;

verus! {

/// One change to the schema.
#[derive(Debug, Clone, PartialEq, Eq)]
pub struct SchemaChange {
    /// A query that returns a row where the change is already in place; `None` for a
    /// change that always runs.
    pub probe: Option<String>,
    /// The statements that make the change, in order.
    pub statements: Vec<String>,
}

/// The text of a change: its probe, and its statements in order.
pub open spec fn change_text(c: SchemaChange) -> (Option<Seq<char>>, Seq<Seq<char>>) {
    (
        match c.probe {
            Some(p) => Some(p@),
            None => None,
        },
        c.statements@.map_values(|s: String| s@),
    )
}

/// The probe of change `i` of the schema, for a guarded change.
pub open spec fn planned_probe(i: int) -> Option<Seq<char>> {
    if false {
        None
    } else if i == 1 {
        Some("SELECT COLUMN_NAME FROM INFORMATION_SCHEMA.COLUMNS WHERE TABLE_NAME = 'users' AND COLUMN_NAME = 'calendar_preference' AND TABLE_SCHEMA = DATABASE()"@)
    } else if i == 3 {
        Some("SELECT COLUMN_NAME FROM INFORMATION_SCHEMA.COLUMNS WHERE TABLE_NAME = 'attendance' AND COLUMN_NAME = 'attendance_date' AND TABLE_SCHEMA = DATABASE()"@)
    } else if i == 4 {
        Some("SELECT COLUMN_NAME FROM INFORMATION_SCHEMA.COLUMNS WHERE TABLE_NAME = 'attendance' AND COLUMN_NAME = 'attendance_date_ad' AND TABLE_SCHEMA = DATABASE()"@)
    } else if i == 5 {
        Some("SELECT COLUMN_NAME FROM INFORMATION_SCHEMA.COLUMNS WHERE TABLE_NAME = 'attendance' AND COLUMN_NAME = 'attendance_date_bs' AND TABLE_SCHEMA = DATABASE()"@)
    } else if i == 7 {
        Some("SELECT INDEX_NAME FROM INFORMATION_SCHEMA.STATISTICS WHERE TABLE_NAME = 'attendance' AND INDEX_NAME = 'user_date_ad' AND TABLE_SCHEMA = DATABASE()"@)
    } else if i == 9 {
        Some("SELECT COLUMN_NAME FROM INFORMATION_SCHEMA.COLUMNS WHERE TABLE_NAME = 'office_working_hours' AND COLUMN_NAME = 'user_id' AND TABLE_SCHEMA = DATABASE()"@)
    } else if i == 11 {
        Some("SELECT COLUMN_NAME FROM INFORMATION_SCHEMA.COLUMNS WHERE TABLE_NAME = 'leave_logs' AND COLUMN_NAME = 'absent_date_bs' AND TABLE_SCHEMA = DATABASE()"@)
    } else if i == 12 {
        Some("SELECT COLUMN_NAME FROM INFORMATION_SCHEMA.COLUMNS WHERE TABLE_NAME = 'leave_logs' AND COLUMN_NAME = 'leave_date_ad' AND TABLE_SCHEMA = DATABASE()"@)
    } else if i == 13 {
        Some("SELECT COLUMN_NAME FROM INFORMATION_SCHEMA.COLUMNS WHERE TABLE_NAME = 'leave_logs' AND COLUMN_NAME = 'leave_date_bs' AND TABLE_SCHEMA = DATABASE()"@)
    } else if i == 16 {
        Some("SELECT INDEX_NAME FROM INFORMATION_SCHEMA.STATISTICS WHERE TABLE_NAME = 'leave_logs' AND INDEX_NAME = 'user_leave_date_ad' AND TABLE_SCHEMA = DATABASE()"@)
    } else {
        None
    }
}

/// The statements of change `i` of the schema, in order.
pub open spec fn planned_statements(i: int) -> Seq<Seq<char>> {
    if false {
        Seq::empty()
    } else if i == 0 {
        seq![r#"
            CREATE TABLE IF NOT EXISTS users (
                id BIGINT AUTO_INCREMENT PRIMARY KEY,
                username VARCHAR(255) NOT NULL UNIQUE,
                email VARCHAR(255) NOT NULL UNIQUE,
                password_hash VARCHAR(255) NOT NULL,
                calendar_preference VARCHAR(2) NOT NULL DEFAULT 'ad',
                created_at TIMESTAMP DEFAULT CURRENT_TIMESTAMP
            )
            "#@]
    } else if i == 1 {
        seq!["ALTER TABLE users ADD COLUMN calendar_preference VARCHAR(2) NOT NULL DEFAULT 'ad' AFTER password_hash"@]
    } else if i == 2 {
        seq![r#"
            CREATE TABLE IF NOT EXISTS attendance (
                id BIGINT AUTO_INCREMENT PRIMARY KEY,
                user_id BIGINT NOT NULL,
                attendance_date DATE NOT NULL,
                attendance_date_ad DATE,
                attendance_date_bs VARCHAR(20),
                check_in VARCHAR(8),
                check_out VARCHAR(8),
                status VARCHAR(20),
                overtime INT DEFAULT 0,
                is_manual BOOLEAN DEFAULT FALSE,
                created_at TIMESTAMP DEFAULT CURRENT_TIMESTAMP,
                UNIQUE KEY user_date (user_id, attendance_date),
                FOREIGN KEY (user_id) REFERENCES users(id) ON DELETE CASCADE
            )
            "#@]
    } else if i == 3 {
        seq!["ALTER TABLE attendance ADD COLUMN attendance_date DATE NOT NULL AFTER user_id"@, "ALTER TABLE attendance UNIQUE KEY user_date (user_id, attendance_date)"@]
    } else if i == 4 {
        seq!["ALTER TABLE attendance ADD COLUMN attendance_date_ad DATE NULL AFTER attendance_date"@]
    } else if i == 5 {
        seq!["ALTER TABLE attendance ADD COLUMN attendance_date_bs VARCHAR(20) NULL AFTER attendance_date_ad"@]
    } else if i == 6 {
        seq!["UPDATE attendance SET attendance_date_ad = attendance_date WHERE attendance_date_ad IS NULL"@]
    } else if i == 7 {
        seq!["ALTER TABLE attendance ADD UNIQUE KEY user_date_ad (user_id, attendance_date_ad)"@]
    } else if i == 8 {
        seq![r#"
            CREATE TABLE IF NOT EXISTS office_working_hours (
                user_id BIGINT NOT NULL,
                day_of_week INT NOT NULL,
                start_time VARCHAR(8),
                end_time VARCHAR(8),
                is_off_day BOOLEAN DEFAULT FALSE,
                PRIMARY KEY (user_id, day_of_week),
                FOREIGN KEY (user_id) REFERENCES users(id) ON DELETE CASCADE
            )
            "#@]
    } else if i == 9 {
        seq!["DROP TABLE office_working_hours"@, r#"
                CREATE TABLE IF NOT EXISTS office_working_hours (
                    user_id BIGINT NOT NULL,
                    day_of_week INT NOT NULL,
                    start_time VARCHAR(8),
                    end_time VARCHAR(8),
                    is_off_day BOOLEAN DEFAULT FALSE,
                    PRIMARY KEY (user_id, day_of_week),
                    FOREIGN KEY (user_id) REFERENCES users(id) ON DELETE CASCADE
                )
                "#@]
    } else if i == 10 {
        seq![r#"
            CREATE TABLE IF NOT EXISTS leave_logs (
                id BIGINT AUTO_INCREMENT PRIMARY KEY,
                user_id BIGINT NOT NULL,
                leave_date DATE NOT NULL,
                leave_date_ad DATE,
                leave_date_bs VARCHAR(20),
                leave_type VARCHAR(50) NOT NULL,
                notes TEXT,
                absent_date_bs VARCHAR(20),
                created_at TIMESTAMP DEFAULT CURRENT_TIMESTAMP,
                UNIQUE KEY user_leave_date (user_id, leave_date),
                FOREIGN KEY (user_id) REFERENCES users(id) ON DELETE CASCADE
            )
            "#@]
    } else if i == 11 {
        seq!["ALTER TABLE leave_logs ADD COLUMN absent_date_bs VARCHAR(20) AFTER notes"@]
    } else if i == 12 {
        seq!["ALTER TABLE leave_logs ADD COLUMN leave_date_ad DATE NULL AFTER leave_date"@]
    } else if i == 13 {
        seq!["ALTER TABLE leave_logs ADD COLUMN leave_date_bs VARCHAR(20) NULL AFTER leave_date_ad"@]
    } else if i == 14 {
        seq!["UPDATE leave_logs SET leave_date_ad = leave_date WHERE leave_date_ad IS NULL"@]
    } else if i == 15 {
        seq!["UPDATE leave_logs SET leave_date_bs = absent_date_bs WHERE leave_date_bs IS NULL AND absent_date_bs IS NOT NULL"@]
    } else if i == 16 {
        seq!["ALTER TABLE leave_logs ADD UNIQUE KEY user_leave_date_ad (user_id, leave_date_ad)"@]
    } else if i == 17 {
        seq![r#"
            CREATE TABLE IF NOT EXISTS calendar_data (
                id BIGINT AUTO_INCREMENT PRIMARY KEY,
                bs_date VARCHAR(255) NOT NULL,
                ad_date DATE NOT NULL UNIQUE,
                event TEXT,
                tithi VARCHAR(255),
                holiday BOOLEAN DEFAULT FALSE
            )
            "#@]
    } else {
        Seq::empty()
    }
}

/// Change `i` of the schema.
pub open spec fn planned_change(i: int) -> (Option<Seq<char>>, Seq<Seq<char>>) {
    (planned_probe(i), planned_statements(i))
}

fn unguarded(sql: &str) -> (r: SchemaChange)
    ensures
        change_text(r) == (None::<Seq<char>>, seq![sql@]),
{
    let mut statements: Vec<String> = Vec::new();
    statements.push(sql.to_owned());
    let r = SchemaChange { probe: None, statements };
    assert(change_text(r).1 =~= seq![sql@]);
    r
}

fn guarded(probe: &str, sql: &str) -> (r: SchemaChange)
    ensures
        change_text(r) == (Some(probe@), seq![sql@]),
{
    let mut statements: Vec<String> = Vec::new();
    statements.push(sql.to_owned());
    let r = SchemaChange { probe: Some(probe.to_owned()), statements };
    assert(change_text(r).1 =~= seq![sql@]);
    r
}

fn guarded_pair(probe: &str, first: &str, second: &str) -> (r: SchemaChange)
    ensures
        change_text(r) == (Some(probe@), seq![first@, second@]),
{
    let mut statements: Vec<String> = Vec::new();
    statements.push(first.to_owned());
    statements.push(second.to_owned());
    let r = SchemaChange { probe: Some(probe.to_owned()), statements };
    assert(change_text(r).1 =~= seq![first@, second@]);
    r
}

/// The changes that bring a database to the current schema, in the order they run: the
/// users, attendance, office-hours, leave and calendar tables, each followed by the
/// migrations of older versions of it; change `i` is `planned_change(i)`.
pub fn schema_changes() -> (r: Vec<SchemaChange>)
    ensures
        r.len() == 18,
        forall|i: int| 0 <= i < r.len() ==> change_text(#[trigger] r@[i]) == planned_change(i),
{
    let mut changes: Vec<SchemaChange> = Vec::new();
    changes.push(unguarded(r#"
            CREATE TABLE IF NOT EXISTS users (
                id BIGINT AUTO_INCREMENT PRIMARY KEY,
                username VARCHAR(255) NOT NULL UNIQUE,
                email VARCHAR(255) NOT NULL UNIQUE,
                password_hash VARCHAR(255) NOT NULL,
                calendar_preference VARCHAR(2) NOT NULL DEFAULT 'ad',
                created_at TIMESTAMP DEFAULT CURRENT_TIMESTAMP
            )
            "#));
    changes.push(guarded(
        "SELECT COLUMN_NAME FROM INFORMATION_SCHEMA.COLUMNS WHERE TABLE_NAME = 'users' AND COLUMN_NAME = 'calendar_preference' AND TABLE_SCHEMA = DATABASE()",
        "ALTER TABLE users ADD COLUMN calendar_preference VARCHAR(2) NOT NULL DEFAULT 'ad' AFTER password_hash",
    ));
    changes.push(unguarded(r#"
            CREATE TABLE IF NOT EXISTS attendance (
                id BIGINT AUTO_INCREMENT PRIMARY KEY,
                user_id BIGINT NOT NULL,
                attendance_date DATE NOT NULL,
                attendance_date_ad DATE,
                attendance_date_bs VARCHAR(20),
                check_in VARCHAR(8),
                check_out VARCHAR(8),
                status VARCHAR(20),
                overtime INT DEFAULT 0,
                is_manual BOOLEAN DEFAULT FALSE,
                created_at TIMESTAMP DEFAULT CURRENT_TIMESTAMP,
                UNIQUE KEY user_date (user_id, attendance_date),
                FOREIGN KEY (user_id) REFERENCES users(id) ON DELETE CASCADE
            )
            "#));
    changes.push(guarded_pair(
        "SELECT COLUMN_NAME FROM INFORMATION_SCHEMA.COLUMNS WHERE TABLE_NAME = 'attendance' AND COLUMN_NAME = 'attendance_date' AND TABLE_SCHEMA = DATABASE()",
        "ALTER TABLE attendance ADD COLUMN attendance_date DATE NOT NULL AFTER user_id",
        "ALTER TABLE attendance UNIQUE KEY user_date (user_id, attendance_date)",
    ));
    changes.push(guarded(
        "SELECT COLUMN_NAME FROM INFORMATION_SCHEMA.COLUMNS WHERE TABLE_NAME = 'attendance' AND COLUMN_NAME = 'attendance_date_ad' AND TABLE_SCHEMA = DATABASE()",
        "ALTER TABLE attendance ADD COLUMN attendance_date_ad DATE NULL AFTER attendance_date",
    ));
    changes.push(guarded(
        "SELECT COLUMN_NAME FROM INFORMATION_SCHEMA.COLUMNS WHERE TABLE_NAME = 'attendance' AND COLUMN_NAME = 'attendance_date_bs' AND TABLE_SCHEMA = DATABASE()",
        "ALTER TABLE attendance ADD COLUMN attendance_date_bs VARCHAR(20) NULL AFTER attendance_date_ad",
    ));
    changes.push(unguarded("UPDATE attendance SET attendance_date_ad = attendance_date WHERE attendance_date_ad IS NULL"));
    changes.push(guarded(
        "SELECT INDEX_NAME FROM INFORMATION_SCHEMA.STATISTICS WHERE TABLE_NAME = 'attendance' AND INDEX_NAME = 'user_date_ad' AND TABLE_SCHEMA = DATABASE()",
        "ALTER TABLE attendance ADD UNIQUE KEY user_date_ad (user_id, attendance_date_ad)",
    ));
    changes.push(unguarded(r#"
            CREATE TABLE IF NOT EXISTS office_working_hours (
                user_id BIGINT NOT NULL,
                day_of_week INT NOT NULL,
                start_time VARCHAR(8),
                end_time VARCHAR(8),
                is_off_day BOOLEAN DEFAULT FALSE,
                PRIMARY KEY (user_id, day_of_week),
                FOREIGN KEY (user_id) REFERENCES users(id) ON DELETE CASCADE
            )
            "#));
    changes.push(guarded_pair(
        "SELECT COLUMN_NAME FROM INFORMATION_SCHEMA.COLUMNS WHERE TABLE_NAME = 'office_working_hours' AND COLUMN_NAME = 'user_id' AND TABLE_SCHEMA = DATABASE()",
        "DROP TABLE office_working_hours",
        r#"
                CREATE TABLE IF NOT EXISTS office_working_hours (
                    user_id BIGINT NOT NULL,
                    day_of_week INT NOT NULL,
                    start_time VARCHAR(8),
                    end_time VARCHAR(8),
                    is_off_day BOOLEAN DEFAULT FALSE,
                    PRIMARY KEY (user_id, day_of_week),
                    FOREIGN KEY (user_id) REFERENCES users(id) ON DELETE CASCADE
                )
                "#,
    ));
    changes.push(unguarded(r#"
            CREATE TABLE IF NOT EXISTS leave_logs (
                id BIGINT AUTO_INCREMENT PRIMARY KEY,
                user_id BIGINT NOT NULL,
                leave_date DATE NOT NULL,
                leave_date_ad DATE,
                leave_date_bs VARCHAR(20),
                leave_type VARCHAR(50) NOT NULL,
                notes TEXT,
                absent_date_bs VARCHAR(20),
                created_at TIMESTAMP DEFAULT CURRENT_TIMESTAMP,
                UNIQUE KEY user_leave_date (user_id, leave_date),
                FOREIGN KEY (user_id) REFERENCES users(id) ON DELETE CASCADE
            )
            "#));
    changes.push(guarded(
        "SELECT COLUMN_NAME FROM INFORMATION_SCHEMA.COLUMNS WHERE TABLE_NAME = 'leave_logs' AND COLUMN_NAME = 'absent_date_bs' AND TABLE_SCHEMA = DATABASE()",
        "ALTER TABLE leave_logs ADD COLUMN absent_date_bs VARCHAR(20) AFTER notes",
    ));
    changes.push(guarded(
        "SELECT COLUMN_NAME FROM INFORMATION_SCHEMA.COLUMNS WHERE TABLE_NAME = 'leave_logs' AND COLUMN_NAME = 'leave_date_ad' AND TABLE_SCHEMA = DATABASE()",
        "ALTER TABLE leave_logs ADD COLUMN leave_date_ad DATE NULL AFTER leave_date",
    ));
    changes.push(guarded(
        "SELECT COLUMN_NAME FROM INFORMATION_SCHEMA.COLUMNS WHERE TABLE_NAME = 'leave_logs' AND COLUMN_NAME = 'leave_date_bs' AND TABLE_SCHEMA = DATABASE()",
        "ALTER TABLE leave_logs ADD COLUMN leave_date_bs VARCHAR(20) NULL AFTER leave_date_ad",
    ));
    changes.push(unguarded("UPDATE leave_logs SET leave_date_ad = leave_date WHERE leave_date_ad IS NULL"));
    changes.push(unguarded("UPDATE leave_logs SET leave_date_bs = absent_date_bs WHERE leave_date_bs IS NULL AND absent_date_bs IS NOT NULL"));
    changes.push(guarded(
        "SELECT INDEX_NAME FROM INFORMATION_SCHEMA.STATISTICS WHERE TABLE_NAME = 'leave_logs' AND INDEX_NAME = 'user_leave_date_ad' AND TABLE_SCHEMA = DATABASE()",
        "ALTER TABLE leave_logs ADD UNIQUE KEY user_leave_date_ad (user_id, leave_date_ad)",
    ));
    changes.push(unguarded(r#"
            CREATE TABLE IF NOT EXISTS calendar_data (
                id BIGINT AUTO_INCREMENT PRIMARY KEY,
                bs_date VARCHAR(255) NOT NULL,
                ad_date DATE NOT NULL UNIQUE,
                event TEXT,
                tithi VARCHAR(255),
                holiday BOOLEAN DEFAULT FALSE
            )
            "#));
    assert(change_text(changes@[0]) == planned_change(0));
    assert(change_text(changes@[1]) == planned_change(1));
    assert(change_text(changes@[2]) == planned_change(2));
    assert(change_text(changes@[3]) == planned_change(3));
    assert(change_text(changes@[4]) == planned_change(4));
    assert(change_text(changes@[5]) == planned_change(5));
    assert(change_text(changes@[6]) == planned_change(6));
    assert(change_text(changes@[7]) == planned_change(7));
    assert(change_text(changes@[8]) == planned_change(8));
    assert(change_text(changes@[9]) == planned_change(9));
    assert(change_text(changes@[10]) == planned_change(10));
    assert(change_text(changes@[11]) == planned_change(11));
    assert(change_text(changes@[12]) == planned_change(12));
    assert(change_text(changes@[13]) == planned_change(13));
    assert(change_text(changes@[14]) == planned_change(14));
    assert(change_text(changes@[15]) == planned_change(15));
    assert(change_text(changes@[16]) == planned_change(16));
    assert(change_text(changes@[17]) == planned_change(17));
    changes
}

/// The statements to run for `change`, given the row its probe returned (if it has a
/// probe): none where the probe found the change in place, all of them otherwise.
pub fn statements_to_run(change: &SchemaChange, probe_row: &Option<String>) -> (r: Vec<String>)
    ensures
        r@ == (if change.probe is Some && probe_row is Some {
            Seq::<String>::empty()
        } else {
            change.statements@
        }),
{
    let mut out: Vec<String> = Vec::new();
    if change.probe.is_some() && probe_row.is_some() {
        return out;
    }
    let mut i: usize = 0;
    while i < change.statements.len()
        invariant
            i <= change.statements.len(),
            out@ == change.statements@.take(i as int),
        decreases change.statements.len() - i,
    {
        out.push(change.statements[i].clone());
        i += 1;
        assert(out@ =~= change.statements@.take(i as int));
    }
    assert(change.statements@.take(change.statements.len() as int) =~= change.statements@);
    out
}

/// What a fresh database is seeded with for its first account.
#[derive(Debug, Clone, PartialEq, Eq)]
pub enum AdminSeed {
    /// Users exist already: nothing to add.
    NotNeeded,
    /// Add this account: username, email, password hash.
    Account(String, String, String),
    /// The password could not be hashed.
    HashFailed,
}

/// The first account of a database with `user_count` users (`None` read as none): the
/// `admin` user, `admin@example.com`, with a hash that the password `admin` verifies
/// against, where there are no users; nothing otherwise.
pub fn admin_account_to_seed(user_count: Option<u64>) -> (r: AdminSeed)
    ensures
        (user_count is None || user_count == Some(0u64)) <==> !(r is NotNeeded),
        r matches AdminSeed::Account(name, email, hash) ==> name@ == "admin"@ && email@
            == "admin@example.com"@ && bcrypt_verify_outcome("admin"@, hash@) == Some(true),
{
    let count = match user_count {
        Some(c) => c,
        None => 0,
    };
    if count != 0 {
        return AdminSeed::NotNeeded;
    }
    match hash_password("admin") {
        Ok(hash) => AdminSeed::Account("admin".to_owned(), "admin@example.com".to_owned(), hash),
        Err(_) => AdminSeed::HashFailed,
    }
}

/// The first account, once stored with the hash `admin_account_to_seed` gives, logs in
/// with the password `admin`, whatever id and calendar preference the store gives it.
pub proof fn seeded_admin_logs_in(
    name: String,
    email: String,
    hash: String,
    id: i64,
    calendar_preference: String,
)
    requires
        bcrypt_verify_outcome("admin"@, hash@) == Some(true),
    ensures
        login_user(Some((id, name, email, hash, calendar_preference)), "admin"@) == Some(
            UserData { id, username: name, email, calendar_preference },
        ),
{
}

} // verus!
