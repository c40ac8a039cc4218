//! Clock times written `HH:mm`, read as minutes since midnight.
use vstd::prelude::*;

verus! {

/// One more than the magnitude of the most negative `i32`: the point from which the
/// digits of a number no longer matter to the parse.
pub const DIGITS_CAP: u64 = 2147483649;

pub open spec fn is_ascii_digit(c: char) -> bool {
    '0' <= c && c <= '9'
}

pub open spec fn digit_value(c: char) -> int {
    (c as int) - ('0' as int)
}

pub open spec fn all_digits(s: Seq<char>) -> bool {
    forall|i: int| 0 <= i < s.len() ==> is_ascii_digit(#[trigger] s[i])
}

/// The number that a string of decimal digits writes.
pub open spec fn digits_value(s: Seq<char>) -> int
    decreases s.len(),
{
    if s.len() == 0 {
        0
    } else {
        digits_value(s.drop_last()) * 10 + digit_value(s.last())
    }
}

/// The digits of `s` once an optional leading sign is taken off.
pub open spec fn unsigned_part(s: Seq<char>) -> Seq<char> {
    if s.len() > 0 && (s[0] == '+' || s[0] == '-') {
        s.drop_first()
    } else {
        s
    }
}

/// What `str::parse::<i32>` accepts: an optional sign, then at least one decimal digit,
/// and nothing else, of a value that fits in an `i32`.
pub open spec fn parse_i32_spec(s: Seq<char>) -> Option<int> {
    let digits = unsigned_part(s);
    let v = if s.len() > 0 && s[0] == '-' {
        -digits_value(digits)
    } else {
        digits_value(digits)
    };
    if digits.len() > 0 && all_digits(digits) && i32::MIN <= v <= i32::MAX {
        Some(v)
    } else {
        None
    }
}

/// The parsed value, or 0 where the text is no `i32`.
pub open spec fn parse_or_zero(s: Seq<char>) -> int {
    match parse_i32_spec(s) {
        Some(v) => v,
        None => 0,
    }
}

/// The fields of `s` between its colons, as `str::split(':')` gives them.
pub open spec fn colon_fields(s: Seq<char>) -> Seq<Seq<char>>
    decreases s.len(),
{
    if s.len() == 0 {
        seq![Seq::<char>::empty()]
    } else {
        let f = colon_fields(s.drop_last());
        if s.last() == ':' {
            f.push(Seq::<char>::empty())
        } else {
            f.update(f.len() - 1, f.last().push(s.last()))
        }
    }
}

/// Minutes since midnight of a time `H:M`: hours times 60 plus minutes, where a field
/// that is no `i32` counts as 0, and where a text without exactly one colon counts as 0.
pub open spec fn minutes_spec(s: Seq<char>) -> int {
    let f = colon_fields(s);
    if f.len() == 2 {
        parse_or_zero(f[0]) * 60 + parse_or_zero(f[1])
    } else {
        0
    }
}

pub open spec fn in_i32(v: int) -> bool {
    i32::MIN <= v <= i32::MAX
}

/// The `i32` arithmetic of `time_to_minutes` does not overflow on `s`.
pub open spec fn minutes_fit(s: Seq<char>) -> bool {
    let f = colon_fields(s);
    f.len() == 2 ==> in_i32(parse_or_zero(f[0]) * 60) && in_i32(minutes_spec(s))
}

/// `t / 2` in `i32` arithmetic, which rounds toward zero.
pub open spec fn truncated_half(t: int) -> int {
    if t >= 0 {
        t / 2
    } else {
        -((-t) / 2)
    }
}

/// Minutes between clocking in and clocking out.
pub open spec fn worked_minutes(check_in: Seq<char>, check_out: Seq<char>) -> int {
    minutes_spec(check_out) - minutes_spec(check_in)
}

/// The half-day rule: more was worked than half of the office day and a quarter hour.
pub open spec fn exceeds_half_day(
    check_in: Seq<char>,
    check_out: Seq<char>,
    start: Seq<char>,
    end: Seq<char>,
) -> bool {
    worked_minutes(check_in, check_out) > truncated_half(worked_minutes(start, end)) + 15
}

/// The `i32` arithmetic of the half-day rule does not overflow on these times.
pub open spec fn half_day_check_fits(
    check_in: Seq<char>,
    check_out: Seq<char>,
    start: Seq<char>,
    end: Seq<char>,
) -> bool {
    &&& minutes_fit(check_in)
    &&& minutes_fit(check_out)
    &&& minutes_fit(start)
    &&& minutes_fit(end)
    &&& in_i32(worked_minutes(check_in, check_out))
    &&& in_i32(worked_minutes(start, end))
    &&& in_i32(truncated_half(worked_minutes(start, end)) + 15)
}

proof fn lemma_fields_nonempty(s: Seq<char>)
    ensures
        colon_fields(s).len() >= 1,
    decreases s.len(),
{
    if s.len() > 0 {
        lemma_fields_nonempty(s.drop_last());
    }
}

proof fn lemma_fields_grow(s: Seq<char>, j: int)
    requires
        0 <= j <= s.len(),
    ensures
        colon_fields(s.take(j)).len() <= colon_fields(s).len(),
    decreases s.len() - j,
{
    if j < s.len() {
        lemma_fields_grow(s, j + 1);
        let t = s.take(j + 1);
        assert(t.drop_last() =~= s.take(j));
        lemma_fields_nonempty(t.drop_last());
    } else {
        assert(s.take(j) =~= s);
    }
}

proof fn lemma_digits_value_nonneg(s: Seq<char>)
    requires
        all_digits(s),
    ensures
        digits_value(s) >= 0,
    decreases s.len(),
{
    if s.len() > 0 {
        assert(all_digits(s.drop_last()));
        lemma_digits_value_nonneg(s.drop_last());
        assert(is_ascii_digit(s[s.len() - 1]));
    }
}

/// Appending colon-free text to `p` extends the last field of `p`.
proof fn lemma_fields_append(p: Seq<char>, t: Seq<char>)
    requires
        forall|i: int| 0 <= i < t.len() ==> t[i] != ':',
    ensures
        colon_fields(p + t) == colon_fields(p).update(
            colon_fields(p).len() - 1,
            colon_fields(p).last() + t,
        ),
    decreases t.len(),
{
    lemma_fields_nonempty(p);
    let f = colon_fields(p);
    if t.len() == 0 {
        assert(p + t =~= p);
        assert(f.last() + t =~= f.last());
        assert(f.update(f.len() - 1, f.last() + t) =~= f);
    } else {
        let t0 = t.drop_last();
        lemma_fields_append(p, t0);
        assert((p + t).drop_last() =~= p + t0);
        assert((p + t).last() == t.last());
        assert(t[t.len() - 1] != ':');
        let g = colon_fields(p + t0);
        assert(g.len() == f.len());
        assert(g.last() == f.last() + t0);
        assert(f.last() + t0 + seq![t.last()] =~= f.last() + t);
        assert(g.last().push(t.last()) =~= f.last() + t);
        assert(colon_fields(p + t) == g.update(g.len() - 1, g.last().push(t.last())));
        assert(colon_fields(p + t) =~= f.update(f.len() - 1, f.last() + t));
    }
}

/// A time written `H:M` in decimal digits reads as `H * 60 + M` minutes.
pub proof fn digit_times_read_as_minutes(h: Seq<char>, m: Seq<char>)
    requires
        h.len() > 0,
        m.len() > 0,
        all_digits(h),
        all_digits(m),
        digits_value(h) <= i32::MAX,
        digits_value(m) <= i32::MAX,
    ensures
        minutes_spec(h + seq![':'] + m) == digits_value(h) * 60 + digits_value(m),
{
    lemma_digits_value_nonneg(h);
    lemma_digits_value_nonneg(m);
    assert(is_ascii_digit(h[0]));
    assert(is_ascii_digit(m[0]));
    assert(unsigned_part(h) == h);
    assert(unsigned_part(m) == m);
    assert forall|i: int| 0 <= i < h.len() implies h[i] != ':' by {
        assert(is_ascii_digit(h[i]));
    }
    assert forall|i: int| 0 <= i < m.len() implies m[i] != ':' by {
        assert(is_ascii_digit(m[i]));
    }
    let e = Seq::<char>::empty();
    lemma_fields_append(e, h);
    assert(e + h =~= h);
    assert(colon_fields(e) =~= seq![e]);
    assert(colon_fields(h) =~= seq![h]);
    let hc = h + seq![':'];
    assert(hc.drop_last() =~= h);
    assert(colon_fields(hc) =~= seq![h, e]);
    lemma_fields_append(hc, m);
    assert(e + m =~= m);
    assert(colon_fields(hc + m) =~= seq![h, m]);
}

/// The characters of `s`.
fn chars_of(s: &str) -> (v: Vec<char>)
    ensures
        v@ == s@,
{
    let n = s.unicode_len();
    let mut v: Vec<char> = Vec::new();
    let mut i: usize = 0;
    while i < n
        invariant
            n == s@.len(),
            i <= n,
            v@ == s@.take(i as int),
        decreases n - i,
    {
        v.push(s.get_char(i));
        i += 1;
        assert(v@ =~= s@.take(i as int));
    }
    assert(v@ =~= s@);
    v
}

/// Parses the digits, with an optional sign, as `str::parse::<i32>` does.
fn parse_i32_chars(s: &Vec<char>) -> (r: Option<i32>)
    ensures
        match r {
            Some(x) => parse_i32_spec(s@) == Some(x as int),
            None => parse_i32_spec(s@) is None,
        },
{
    let n = s.len();
    if n == 0 {
        return None;
    }
    let mut start: usize = 0;
    let negative = s[0] == '-';
    if s[0] == '+' || s[0] == '-' {
        if n == 1 {
            assert(unsigned_part(s@).len() == 0);
            return None;
        }
        start = 1;
    }
    let ghost digits = unsigned_part(s@);
    assert(digits =~= s@.subrange(start as int, n as int));
    let mut acc: u64 = 0;
    let mut i: usize = start;
    while i < n
        invariant
            n == s@.len(),
            start <= i <= n,
            digits == s@.subrange(start as int, n as int),
            digits == unsigned_part(s@),
            all_digits(s@.subrange(start as int, i as int)),
            acc == (if digits_value(s@.subrange(start as int, i as int)) < DIGITS_CAP {
                digits_value(s@.subrange(start as int, i as int))
            } else {
                DIGITS_CAP as int
            }),
        decreases n - i,
    {
        let c = s[i];
        if !('0' <= c && c <= '9') {
            assert(digits[i - start] == c);
            assert(!is_ascii_digit(digits[i - start]));
            assert(!all_digits(digits));
            return None;
        }
        let ghost prev = s@.subrange(start as int, i as int);
        let ghost next = s@.subrange(start as int, i + 1);
        assert(next.drop_last() =~= prev);
        assert(next.last() == c);
        let d: u64 = (c as u32 - '0' as u32) as u64;
        if acc < DIGITS_CAP {
            let t = acc * 10 + d;
            acc = if t < DIGITS_CAP {
                t
            } else {
                DIGITS_CAP
            };
        }
        i += 1;
        assert(all_digits(next));
    }
    assert(s@.subrange(start as int, n as int) == digits);
    if negative {
        if acc <= 2147483648 {
            let v: i64 = -(acc as i64);
            Some(v as i32)
        } else {
            None
        }
    } else {
        if acc <= 2147483647 {
            Some(acc as i32)
        } else {
            None
        }
    }
}

/// The two fields of `s` when `s` holds exactly one colon.
fn split_once_on_colon(s: &Vec<char>) -> (r: Option<(Vec<char>, Vec<char>)>)
    ensures
        match r {
            Some((a, b)) => colon_fields(s@).len() == 2 && a@ == colon_fields(s@)[0] && b@
                == colon_fields(s@)[1],
            None => colon_fields(s@).len() != 2,
        },
{
    let mut first: Vec<char> = Vec::new();
    let mut second: Vec<char> = Vec::new();
    let mut colons: usize = 0;
    let mut i: usize = 0;
    assert(s@.take(0) =~= Seq::<char>::empty());
    while i < s.len()
        invariant
            i <= s.len(),
            colons <= 1,
            colon_fields(s@.take(i as int)).len() == colons + 1,
            first@ == colon_fields(s@.take(i as int))[0],
            colons == 1 ==> second@ == colon_fields(s@.take(i as int))[1],
            colons == 0 ==> second@ == Seq::<char>::empty(),
        decreases s.len() - i,
    {
        let c = s[i];
        let ghost t = s@.take(i + 1);
        assert(t.drop_last() =~= s@.take(i as int));
        assert(t.last() == c);
        if c == ':' {
            if colons == 1 {
                proof {
                    lemma_fields_grow(s@, i + 1);
                }
                return None;
            }
            colons = 1;
        } else if colons == 0 {
            first.push(c);
        } else {
            second.push(c);
        }
        i += 1;
    }
    assert(s@.take(s@.len() as int) =~= s@);
    if colons == 1 {
        Some((first, second))
    } else {
        None
    }
}

/// The hours and minutes fields of `value`, each parsed or 0, when it holds one colon.
fn time_fields(value: &str) -> (r: Option<(i32, i32)>)
    ensures
        match r {
            Some((h, m)) => colon_fields(value@).len() == 2 && h == parse_or_zero(
                colon_fields(value@)[0],
            ) && m == parse_or_zero(colon_fields(value@)[1]),
            None => colon_fields(value@).len() != 2,
        },
{
    let chars = chars_of(value);
    match split_once_on_colon(&chars) {
        Some((hours, minutes)) => {
            let h = match parse_i32_chars(&hours) {
                Some(v) => v,
                None => 0,
            };
            let m = match parse_i32_chars(&minutes) {
                Some(v) => v,
                None => 0,
            };
            Some((h, m))
        },
        None => None,
    }
}

/// Minutes since midnight of a time written `HH:mm`: `"09:30"` gives 570. A text that
/// holds no colon or more than one gives 0, and a field that is no integer counts as 0.
pub fn time_to_minutes(value: &str) -> (r: i32)
    requires
        minutes_fit(value@),
    ensures
        r == minutes_spec(value@),
{
    match time_fields(value) {
        Some((h, m)) => h * 60 + m,
        None => 0,
    }
}

/// `minutes_spec(value@)`, computed where it cannot overflow.
fn minutes_wide(value: &str) -> (r: (i64, bool))
    ensures
        r.0 == minutes_spec(value@),
        r.1 == minutes_fit(value@),
{
    match time_fields(value) {
        Some((h, m)) => {
            let hours: i64 = h as i64 * 60;
            let total: i64 = hours + m as i64;
            let fits = i32::MIN as i64 <= hours && hours <= i32::MAX as i64 && i32::MIN as i64
                <= total && total <= i32::MAX as i64;
            (total, fits)
        },
        None => (0, true),
    }
}

/// Whether the half-day rule can be computed on these times without overflow.
pub fn half_day_check_is_safe(check_in: &str, check_out: &str, start: &str, end: &str) -> (r:
    bool)
    ensures
        r == half_day_check_fits(check_in@, check_out@, start@, end@),
{
    let (ci, ci_ok) = minutes_wide(check_in);
    let (co, co_ok) = minutes_wide(check_out);
    let (st, st_ok) = minutes_wide(start);
    let (en, en_ok) = minutes_wide(end);
    if !(ci_ok && co_ok && st_ok && en_ok) {
        return false;
    }
    let worked = co - ci;
    let slot = en - st;
    let lo = i32::MIN as i64;
    let hi = i32::MAX as i64;
    lo <= worked && worked <= hi && lo <= slot && slot <= hi && slot / 2 + 15 <= hi
}

/// The half-day rule: whether the time worked goes beyond half of the office day
/// (rounded toward zero) and 15 minutes more.
pub fn exceeds_half_day_slot(check_in: &str, check_out: &str, start: &str, end: &str) -> (r:
    bool)
    requires
        half_day_check_fits(check_in@, check_out@, start@, end@),
    ensures
        r == exceeds_half_day(check_in@, check_out@, start@, end@),
{
    let worked = time_to_minutes(check_out) - time_to_minutes(check_in);
    let total = time_to_minutes(end) - time_to_minutes(start);
    worked > (total / 2) + 15
}

} // verus!
