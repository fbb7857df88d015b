//! Weekdays by name, Monday = 0 to Sunday = 6.

use vstd::prelude::*;
use crate::calendar::{weekday_in, weekday_index, Instant};
use crate::text::{
    find_named, lookup, lookup_ignores_case, lookup_is_an_entry, same_ignoring_case, table_view,
    text_of,
};
use crate::timezone::TimezoneOffset;

verus! {

/// The weekday names that are understood, in full and in three letters, each
/// with its index.
pub open spec fn day_table() -> Seq<(Seq<char>, int)> {
    seq![
        ("monday"@, 0int),
        ("mon"@, 0int),
        ("tuesday"@, 1int),
        ("tue"@, 1int),
        ("wednesday"@, 2int),
        ("wed"@, 2int),
        ("thursday"@, 3int),
        ("thu"@, 3int),
        ("friday"@, 4int),
        ("fri"@, 4int),
        ("saturday"@, 5int),
        ("sat"@, 5int),
        ("sunday"@, 6int),
        ("sun"@, 6int),
    ]
}

/// The index of a weekday given by name; `None` for a text that names none.
/// The case of ASCII letters does not matter.
pub open spec fn named_day(token: Seq<char>) -> Option<int> {
    lookup(day_table(), token)
}

/// The weekday to show for a request made at the instant `now`: the one named
/// where a name is given and understood, and otherwise the weekday that UTC
/// has at `now`.
pub open spec fn resolved_day(token: Option<Seq<char>>, now: int) -> int {
    match token {
        Some(name) => match named_day(name) {
            Some(day) => day,
            None => weekday_index(now, 0),
        },
        None => weekday_index(now, 0),
    }
}

/// The table of weekday names, in memory.
fn days() -> (v: Vec<(&'static str, i32)>)
    ensures
        table_view(v@) == day_table(),
{
    let v = vec![
        ("monday", 0i32),
        ("mon", 0i32),
        ("tuesday", 1i32),
        ("tue", 1i32),
        ("wednesday", 2i32),
        ("wed", 2i32),
        ("thursday", 3i32),
        ("thu", 3i32),
        ("friday", 4i32),
        ("fri", 4i32),
        ("saturday", 5i32),
        ("sat", 5i32),
        ("sunday", 6i32),
        ("sun", 6i32),
    ];
    assert(table_view(v@) =~= day_table());
    v
}

/// Every named weekday is one of seven.
pub proof fn named_day_in_week(token: Seq<char>)
    ensures
        named_day(token) matches Some(day) ==> 0 <= day <= 6,
{
    lookup_is_an_entry(day_table(), token, 0);
}

/// The case of ASCII letters in a weekday name does not matter.
pub proof fn named_day_ignores_case(a: Seq<char>, b: Seq<char>)
    requires
        same_ignoring_case(a, b),
    ensures
        named_day(a) == named_day(b),
{
    lookup_ignores_case(day_table(), a, b, 0);
}

/// The resolved weekday is one of seven, whatever the request.
pub proof fn resolved_day_in_week(token: Option<Seq<char>>, now: int)
    ensures
        0 <= resolved_day(token, now) <= 6,
{
    if let Some(name) = token {
        named_day_in_week(name);
    }
}

/// The index of a weekday given by name, in full or in three letters; `None`
/// for a text that names none.
pub fn parse_day_of_week(token: &str) -> (r: Option<u32>)
    ensures
        r is Some <==> named_day(token@) is Some,
        r matches Some(day) ==> named_day(token@) == Some(day as int) && day <= 6,
{
    let table = days();
    proof {
        named_day_in_week(token@);
    }
    match find_named(&table, token) {
        Some(day) => Some(day as u32),
        None => None,
    }
}

/// Turns a requested weekday into its index.
pub struct DayResolver;

impl DayResolver {
    /// Resolves a requested weekday at the instant `now`. Without a request,
    /// and for a text that names no weekday, the answer is the weekday that
    /// UTC has at `now`; nothing is reported in either case.
    pub fn resolve(token: Option<&str>, now: Instant) -> (day: u32)
        ensures
            day == resolved_day(text_of(token), now@),
            day <= 6,
    {
        let today = weekday_in(now, TimezoneOffset::utc());
        match token {
            Some(name) => match parse_day_of_week(name) {
                Some(day) => day,
                None => today,
            },
            None => today,
        }
    }
}

/// Resolving a weekday is a function of the request and the instant: two
/// answers for the same inputs are the same weekday.
pub proof fn resolved_day_is_determined(token: Option<Seq<char>>, now: int, first: u32, second: u32)
    requires
        first == resolved_day(token, now),
        second == resolved_day(token, now),
    ensures
        first == second,
{
}

/// A name that is understood decides the weekday alone: the instant of the
/// request does not matter.
pub proof fn named_day_ignores_the_instant(name: Seq<char>, now: int, later: int)
    requires
        named_day(name) is Some,
    ensures
        resolved_day(Some(name), now) == resolved_day(Some(name), later),
{
}

} // verus!
