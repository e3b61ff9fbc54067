//! Resolving a day on which the sun does not rise or set by the nearest day
//! on which it does.
use vstd::math::abs;
use vstd::prelude::*;

verus! {

/// Number of days tried on either side of the date.
pub const NEAREST_DAY_REACH: u32 = 183;

/// The day offset tried at `step` (from 0) of the nearest-day search: one day
/// later, one day earlier, two days later, two days earlier, and so on.
pub open spec fn nearest_day_offset(step: int) -> int {
    if step % 2 == 0 {
        step / 2 + 1
    } else {
        -(step / 2 + 1)
    }
}

/// The search tries days in order of their distance from the date, never the
/// same day twice, and reaches every day within 183 days.
pub proof fn lemma_nearest_day_order(step: int, other: int)
    requires
        0 <= step < other,
    ensures
        abs(nearest_day_offset(step)) <= abs(nearest_day_offset(other)),
        nearest_day_offset(step) != nearest_day_offset(other),
        nearest_day_offset(step) != 0,
{
}

/// Every day within reach of the date, on either side, is tried at some step.
pub proof fn lemma_nearest_day_reaches(offset: int)
    requires
        1 <= abs(offset) <= NEAREST_DAY_REACH,
    ensures
        exists|step: int|
            0 <= step < 2 * NEAREST_DAY_REACH && #[trigger] nearest_day_offset(step) == offset,
{
    if offset > 0 {
        assert(nearest_day_offset(2 * (offset - 1)) == offset);
    } else {
        assert(nearest_day_offset(2 * (-offset - 1) + 1) == offset);
    }
}

/// Searches the days around a date, nearest first and the later of two
/// equally near days first, up to 183 days either way, for the first on
/// which `probe` finds the sun's times; gives its offset in days and what
/// `probe` found there, or nothing when no day within reach has them.
pub fn nearest_valid_day<T, F: Fn(i64) -> Option<T>>(probe: F) -> (found: Option<(i64, T)>)
    requires
        forall|offset: i64| #[trigger] call_requires(probe, (offset,)),
    ensures
        found matches Some(hit) ==> exists|step: int|
            #![trigger nearest_day_offset(step)]
            {
                &&& 0 <= step < 2 * NEAREST_DAY_REACH
                &&& hit.0 == nearest_day_offset(step)
                &&& call_ensures(probe, (hit.0,), Some(hit.1))
                &&& forall|earlier: int|
                    0 <= earlier < step ==> call_ensures(
                        probe,
                        (#[trigger] nearest_day_offset(earlier) as i64,),
                        None,
                    )
            },
        found is None ==> forall|step: int|
            0 <= step < 2 * NEAREST_DAY_REACH ==> call_ensures(
                probe,
                (#[trigger] nearest_day_offset(step) as i64,),
                None,
            ),
{
    let mut step: u32 = 0;
    while step < 2 * NEAREST_DAY_REACH
        invariant
            step <= 2 * NEAREST_DAY_REACH,
            forall|offset: i64| #[trigger] call_requires(probe, (offset,)),
            forall|earlier: int|
                0 <= earlier < step ==> call_ensures(
                    probe,
                    (#[trigger] nearest_day_offset(earlier) as i64,),
                    None,
                ),
        decreases 2 * NEAREST_DAY_REACH - step,
    {
        let days = (step / 2 + 1) as i64;
        let offset = if step % 2 == 0 {
            days
        } else {
            -days
        };
        assert(offset == nearest_day_offset(step as int));
        let result = probe(offset);
        match result {
            Some(value) => {
                return Some((offset, value));
            },
            None => {},
        }
        step = step + 1;
    }
    None
}

} // verus!
