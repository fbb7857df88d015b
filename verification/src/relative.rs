//! Coarse relative times: how far an airing lies from the present, in the
//! largest unit of which at least one whole has passed.

use vstd::prelude::*;
use vstd::string::*;
use crate::text::{decimal, push_decimal};

verus! {

/// Seconds in a minute.
pub const MINUTE: u64 = 60;

/// Seconds in an hour.
pub const HOUR: u64 = 3600;

/// Seconds in a day.
pub const DAY: u64 = 86400;

/// The distance between two integers.
pub open spec fn magnitude(diff: int) -> nat {
    if diff < 0 {
        (-diff) as nat
    } else {
        diff as nat
    }
}

/// The length in seconds of the unit in which a distance of `mag` seconds is
/// told: the largest of day, hour and minute that fits into it, and 0 where
/// not even a minute does.
pub open spec fn unit_of(mag: nat) -> nat {
    if mag >= DAY {
        DAY as nat
    } else if mag >= HOUR {
        HOUR as nat
    } else if mag >= MINUTE {
        MINUTE as nat
    } else {
        0
    }
}

/// The letter that stands for a unit.
pub open spec fn unit_letter(unit: nat) -> Seq<char> {
    if unit == DAY {
        "d"@
    } else if unit == HOUR {
        "h"@
    } else {
        "m"@
    }
}

/// The number of whole units in a distance: the quotient, rounded down.
pub open spec fn whole_units(mag: nat) -> nat {
    if unit_of(mag) == 0 {
        0
    } else {
        mag / unit_of(mag)
    }
}

/// The relative time of an airing that lies `diff` seconds after the present
/// (before it, where `diff` is negative).
pub open spec fn relative_text(diff: int) -> Seq<char> {
    let mag = magnitude(diff);
    if diff < 0 {
        if unit_of(mag) == 0 {
            "just now"@
        } else {
            decimal(whole_units(mag)) + unit_letter(unit_of(mag)) + " ago"@
        }
    } else {
        if unit_of(mag) == 0 {
            "now"@
        } else {
            "in "@ + decimal(whole_units(mag)) + unit_letter(unit_of(mag))
        }
    }
}

/// Renders airing times relative to a given present.
pub struct RelativeTimeFormatter;

impl RelativeTimeFormatter {
    /// The relative time of `airing_at` as seen from `now`, both in seconds
    /// since the epoch. Every pair of timestamps is accepted.
    pub fn format(airing_at: i64, now: i64) -> (s: String)
        ensures
            s@ == relative_text(airing_at - now),
    {
        let diff: i128 = airing_at as i128 - now as i128;
        let past = diff < 0;
        let mag: u64 = if past {
            (-diff) as u64
        } else {
            diff as u64
        };
        assert(mag == magnitude(airing_at - now));
        if mag < MINUTE {
            return if past {
                String::from_str("just now")
            } else {
                String::from_str("now")
            };
        }
        let (count, letter) = if mag >= DAY {
            (mag / DAY, "d")
        } else if mag >= HOUR {
            (mag / HOUR, "h")
        } else {
            (mag / MINUTE, "m")
        };
        assert(count == whole_units(mag as nat));
        assert(letter@ == unit_letter(unit_of(mag as nat)));
        let mut s = String::new();
        if past {
            push_decimal(&mut s, count);
            s.append(letter);
            s.append(" ago");
            assert(s@ =~= relative_text(airing_at - now));
        } else {
            s.append("in ");
            push_decimal(&mut s, count);
            s.append(letter);
            assert(s@ =~= relative_text(airing_at - now));
        }
        s
    }

    /// Whether the airing lies before the present.
    pub fn is_past(airing_at: i64, now: i64) -> (r: bool)
        ensures
            r == (airing_at < now),
    {
        airing_at < now
    }
}

/// Rounding is downward and a unit is shown only once it is complete: the
/// count shown is at least one, and the distance lies between that many units
/// and one unit more.
pub proof fn shown_count_is_floor(diff: int)
    requires
        unit_of(magnitude(diff)) != 0,
    ensures
        whole_units(magnitude(diff)) >= 1,
        whole_units(magnitude(diff)) * unit_of(magnitude(diff)) <= magnitude(diff),
        magnitude(diff) < (whole_units(magnitude(diff)) + 1) * unit_of(magnitude(diff)),
{
    let mag = magnitude(diff);
    let unit = unit_of(mag);
    let count = whole_units(mag);
    assert(unit > 0 && mag >= unit && count == mag / unit);
    assert(count >= 1 && count * unit <= mag && mag < (count + 1) * unit) by (nonlinear_arith)
        requires
            unit > 0,
            mag >= unit,
            count == mag / unit,
    ;
}

/// Below one minute no count is shown at all: an airing is "now" from the
/// present until 59 seconds ahead, and "just now" from 1 to 59 seconds back.
pub proof fn within_a_minute(diff: int)
    requires
        -60 < diff < 60,
    ensures
        diff >= 0 ==> relative_text(diff) == "now"@,
        diff < 0 ==> relative_text(diff) == "just now"@,
{
}

/// The unit changes exactly at 60, 3600 and 86400 seconds, on either side of
/// the present.
pub proof fn unit_boundaries(diff: int)
    ensures
        unit_of(magnitude(diff)) == 0 <==> -60 < diff < 60,
        unit_of(magnitude(diff)) == 60 <==> (60 <= diff < 3600 || -3600 < diff <= -60),
        unit_of(magnitude(diff)) == 3600 <==> (3600 <= diff < 86400 || -86400 < diff <= -3600),
        unit_of(magnitude(diff)) == 86400 <==> (86400 <= diff || diff <= -86400),
{
}

/// The relative time depends on the two timestamps only through their
/// difference: shifting both by the same amount changes nothing.
pub proof fn shift_invariant(airing_at: int, now: int, shift: int)
    ensures
        relative_text((airing_at + shift) - (now + shift)) == relative_text(airing_at - now),
{
}

/// The relative time is a function of the two timestamps: two texts for the
/// same pair are the same text.
pub proof fn relative_text_is_determined(airing_at: int, now: int, first: String, second: String)
    requires
        first@ == relative_text(airing_at - now),
        second@ == relative_text(airing_at - now),
    ensures
        first@ == second@,
{
}

} // verus!
