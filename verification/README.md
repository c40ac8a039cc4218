# boredapp

The rules of a small office time tracker: attendance, leave, office hours, accounts
and the calendar a user sees dates in, as a library verified with Verus.

- `src/` is the library. Each module states its rules as spec functions and proves the
  executable code against them: `time` (reading `HH:mm`, the half-day rule), `attendance`
  and `leave` (what may be recorded on a day), `office` (default hours), `rows` (how
  stored rows read back), `user` and `auth` (preference, login, registration), `setup`
  (schema changes and first data), `crypto` (password hashing by `bcrypt`).
- `app/` is the desktop application around it: Tauri commands and the MySQL store. It
  performs the lookups and writes the library asks for, in the order the library's step
  functions give.
- `tests/` runs the library on concrete values.
