//! How many scoops of ice cream are on offer at a given hour.

use vstd::prelude::*;

verus! {

/// Five scoops before 22:00, none at 22:00 and 23:00, and no answer for an
/// hour past 23, which is not a time of day.
pub fn maybe_icecream(hour_of_day: u16) -> (scoops: Option<u16>)
    ensures
        scoops == (if hour_of_day > 23 {
            Option::<u16>::None
        } else if hour_of_day >= 22 {
            Option::Some(0u16)
        } else {
            Option::Some(5u16)
        }),
{
    if hour_of_day > 23 {
        Option::None
    } else if hour_of_day >= 22 {
        Option::Some(0)
    } else {
        Option::Some(5)
    }
}

} // verus!
