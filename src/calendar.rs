use vstd::prelude::*;

verus! {

/// A calendar date with a 1-based month.
#[derive(Clone, Copy, Debug, PartialEq, Eq, Structural)]
pub struct CalendarDate {
    pub year: u32,
    pub month: u32,
    pub day: u32,
}

impl CalendarDate {
    pub open spec fn wf(&self) -> bool {
        1 <= self.month <= 12 && 1 <= self.day <= 31
    }

    /// Builds a date, or `None` when the month or the day is out of range.
    pub fn new(year: u32, month: u32, day: u32) -> (r: Option<CalendarDate>)
        ensures
            r is Some <==> (1 <= month <= 12 && 1 <= day <= 31),
            r is Some ==> r->0 == (CalendarDate { year, month, day }),
    {
        if 1 <= month && month <= 12 && 1 <= day && day <= 31 {
            Some(CalendarDate { year, month, day })
        } else {
            None
        }
    }
}

/// The seed of a round: `year * month * day + round_index`.
pub open spec fn seed_spec(date: CalendarDate, round_index: u32) -> int {
    date.year as int * date.month as int * date.day as int + round_index as int
}

/// Seed of the round `round_index` played on `date`.
pub fn seed(date: &CalendarDate, round_index: u32) -> (r: u64)
    requires
        date.wf(),
        round_index < 3,
    ensures
        r as int == seed_spec(*date, round_index),
{
    assert(date.month as int * date.day as int <= 372) by (nonlinear_arith)
        requires
            1 <= date.month <= 12,
            1 <= date.day <= 31,
    ;
    let md: u64 = date.month as u64 * date.day as u64;
    let y: u64 = date.year as u64;
    assert(y * md <= 0xffff_ffff * 372) by (nonlinear_arith)
        requires
            y <= 0xffff_ffff,
            md <= 372,
    ;
    let r: u64 = y * md + round_index as u64;
    assert(r as int == date.year as int * date.month as int * date.day as int + round_index as int)
        by (nonlinear_arith)
        requires
            r == y * md + round_index,
            y == date.year,
            md == date.month as int * date.day as int,
    ;
    r
}

} // verus!
