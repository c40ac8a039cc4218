//! The office hours a user starts with.
use vstd::prelude::*;
use crate::models::OfficeHour;

verus! {

/// The default hours of day `day` (0 is Sunday): Saturday (6) is off, every other day
/// runs from 09:00 to 17:00.
pub open spec fn is_default_office_hour(h: OfficeHour, day: int) -> bool {
    &&& h.day_of_week == day
    &&& if day == 6 {
        &&& h.start_time is None
        &&& h.end_time is None
        &&& h.is_off_day
    } else {
        &&& h.start_time matches Some(s) && s@ == "09:00"@
        &&& h.end_time matches Some(e) && e@ == "17:00"@
        &&& !h.is_off_day
    }
}

/// The default hours of one day of the week.
pub fn default_office_hour(day: i32) -> (r: OfficeHour)
    requires
        0 <= day <= 6,
    ensures
        is_default_office_hour(r, day as int),
        r.day_of_week == day,
        r.is_off_day == (day == 6),
        day != 6 ==> (r.start_time matches Some(s) && s@ == "09:00"@),
        day != 6 ==> (r.end_time matches Some(e) && e@ == "17:00"@),
        day == 6 ==> r.start_time is None && r.end_time is None,
{
    if day == 6 {
        OfficeHour { day_of_week: day, start_time: None, end_time: None, is_off_day: true }
    } else {
        OfficeHour {
            day_of_week: day,
            start_time: Some("09:00".to_owned()),
            end_time: Some("17:00".to_owned()),
            is_off_day: false,
        }
    }
}

/// The office hours to write for a user who has `existing_count` of them on record: the
/// seven default days, Sunday first, for a user with none; nothing otherwise.
pub fn office_hours_to_seed(existing_count: u64) -> (r: Vec<OfficeHour>)
    ensures
        existing_count == 0 ==> r.len() == 7 && forall|i: int|
            0 <= i < 7 ==> is_default_office_hour(#[trigger] r@[i], i),
        existing_count == 0 ==> forall|i: int|
            0 <= i < 7 ==> (#[trigger] r@[i]).day_of_week == i && r@[i].is_off_day == (i == 6),
        existing_count == 0 ==> forall|i: int|
            0 <= i < 6 ==> ((#[trigger] r@[i]).start_time matches Some(s) && s@ == "09:00"@)
                && (r@[i].end_time matches Some(e) && e@ == "17:00"@),
        existing_count != 0 ==> r.len() == 0,
{
    let mut hours: Vec<OfficeHour> = Vec::new();
    if existing_count != 0 {
        return hours;
    }
    let mut day: i32 = 0;
    while day <= 6
        invariant
            0 <= day <= 7,
            hours.len() == day,
            forall|i: int| 0 <= i < day ==> is_default_office_hour(#[trigger] hours@[i], i),
        decreases 7 - day,
    {
        hours.push(default_office_hour(day));
        day += 1;
    }
    hours
}

/// Of the default week, Sunday to Friday (days 0 to 5) run from 09:00 to 17:00 and are
/// working days; Saturday (day 6) alone is off, with no hours.
pub proof fn only_saturday_is_off_by_default(h: OfficeHour, day: int)
    requires
        0 <= day <= 6,
        is_default_office_hour(h, day),
    ensures
        h.day_of_week == day,
        h.is_off_day <==> day == 6,
        day <= 5 ==> (h.start_time matches Some(s) && s@ == "09:00"@),
        day <= 5 ==> (h.end_time matches Some(e) && e@ == "17:00"@),
        day == 6 ==> h.start_time is None && h.end_time is None,
{
}

} // verus!
