//! Fixed offsets from UTC and the names by which a user may ask for one.

use vstd::prelude::*;
use vstd::string::*;
use crate::text::{
    find_named, lookup, lookup_ignores_case, lookup_is_an_entry, same_ignoring_case, table_view,
    text_of,
};

verus! {

/// The largest distance from UTC, in seconds, that an offset may have: 14 hours.
pub const MAX_OFFSET: i32 = 50400;

/// Whether a number of seconds lies within 14 hours of UTC, either way.
pub open spec fn is_valid_offset(secs: int) -> bool {
    -MAX_OFFSET <= secs <= MAX_OFFSET
}

/// A fixed offset between a local time and UTC, never more than 14 hours.
///
/// Its view is the number of seconds to add to the local time to reach UTC:
/// negative where the local clock is ahead of UTC.
#[derive(Clone, Copy, Debug)]
pub struct TimezoneOffset {
    utc_minus_local: i32,
}

impl View for TimezoneOffset {
    type V = int;

    closed spec fn view(&self) -> int {
        self.utc_minus_local as int
    }
}

impl TimezoneOffset {
    #[verifier::type_invariant]
    spec fn within_bounds(self) -> bool {
        is_valid_offset(self.utc_minus_local as int)
    }

    /// UTC itself.
    pub fn utc() -> (r: Self)
        ensures
            r@ == 0,
    {
        TimezoneOffset { utc_minus_local: 0 }
    }

    /// The offset of a zone whose clock must be advanced by `secs` seconds to
    /// show UTC; `None` where that is more than 14 hours either way.
    pub fn from_utc_minus_local(secs: i32) -> (r: Option<Self>)
        ensures
            r is Some <==> is_valid_offset(secs as int),
            r matches Some(o) ==> o@ == secs,
    {
        if -MAX_OFFSET <= secs && secs <= MAX_OFFSET {
            Some(TimezoneOffset { utc_minus_local: secs })
        } else {
            None
        }
    }

    /// The offset of a zone whose clock is `secs` seconds ahead of UTC; `None`
    /// where that is more than 14 hours either way.
    pub fn from_local_minus_utc(secs: i32) -> (r: Option<Self>)
        ensures
            r is Some <==> is_valid_offset(secs as int),
            r matches Some(o) ==> o@ == -secs,
    {
        if -MAX_OFFSET <= secs && secs <= MAX_OFFSET {
            Some(TimezoneOffset { utc_minus_local: -secs })
        } else {
            None
        }
    }

    /// The seconds to add to the local time to reach UTC.
    pub fn utc_minus_local(&self) -> (r: i32)
        ensures
            r == self@,
            is_valid_offset(r as int),
    {
        proof {
            use_type_invariant(self);
        }
        self.utc_minus_local
    }

    /// The seconds to add to UTC to reach the local time.
    pub fn local_minus_utc(&self) -> (r: i32)
        ensures
            r == -self@,
            is_valid_offset(r as int),
    {
        proof {
            use_type_invariant(self);
        }
        -self.utc_minus_local
    }
}

/// The zone names that are understood, each with the seconds by which its
/// clock is ahead of UTC.
pub open spec fn zone_table() -> Seq<(Seq<char>, int)> {
    seq![
        ("UTC"@, 0int),
        ("GMT"@, 0int),
        ("WET"@, 0int),
        ("BST"@, 3600int),
        ("CET"@, 3600int),
        ("WAT"@, 3600int),
        ("CEST"@, 7200int),
        ("EET"@, 7200int),
        ("CAT"@, 7200int),
        ("SAST"@, 7200int),
        ("EEST"@, 10800int),
        ("MSK"@, 10800int),
        ("EAT"@, 10800int),
        ("GST"@, 14400int),
        ("PKT"@, 18000int),
        ("IST"@, 19800int),
        ("NPT"@, 20700int),
        ("ICT"@, 25200int),
        ("WIB"@, 25200int),
        ("HKT"@, 28800int),
        ("SGT"@, 28800int),
        ("PHT"@, 28800int),
        ("AWST"@, 28800int),
        ("JST"@, 32400int),
        ("KST"@, 32400int),
        ("ACST"@, 34200int),
        ("AEST"@, 36000int),
        ("AEDT"@, 39600int),
        ("NZST"@, 43200int),
        ("NZDT"@, 46800int),
        ("LINT"@, 50400int),
        ("BRT"@, -10800int),
        ("ART"@, -10800int),
        ("NST"@, -12600int),
        ("AST"@, -14400int),
        ("EDT"@, -14400int),
        ("EST"@, -18000int),
        ("CDT"@, -18000int),
        ("CST"@, -21600int),
        ("MDT"@, -21600int),
        ("MST"@, -25200int),
        ("PDT"@, -25200int),
        ("PST"@, -28800int),
        ("AKDT"@, -28800int),
        ("AKST"@, -32400int),
        ("HST"@, -36000int),
        ("SST"@, -39600int),
    ]
}

/// The offset that a zone name stands for, as seconds from local time to UTC;
/// `None` for a name that is not in the table. The case of ASCII letters does
/// not matter.
pub open spec fn named_offset(token: Seq<char>) -> Option<int> {
    match lookup(zone_table(), token) {
        Some(ahead) => Some(-ahead),
        None => None,
    }
}

/// The table of zone names, in memory.
fn zones() -> (v: Vec<(&'static str, i32)>)
    ensures
        table_view(v@) == zone_table(),
{
    let v = vec![
        ("UTC", 0i32),
        ("GMT", 0i32),
        ("WET", 0i32),
        ("BST", 3600i32),
        ("CET", 3600i32),
        ("WAT", 3600i32),
        ("CEST", 7200i32),
        ("EET", 7200i32),
        ("CAT", 7200i32),
        ("SAST", 7200i32),
        ("EEST", 10800i32),
        ("MSK", 10800i32),
        ("EAT", 10800i32),
        ("GST", 14400i32),
        ("PKT", 18000i32),
        ("IST", 19800i32),
        ("NPT", 20700i32),
        ("ICT", 25200i32),
        ("WIB", 25200i32),
        ("HKT", 28800i32),
        ("SGT", 28800i32),
        ("PHT", 28800i32),
        ("AWST", 28800i32),
        ("JST", 32400i32),
        ("KST", 32400i32),
        ("ACST", 34200i32),
        ("AEST", 36000i32),
        ("AEDT", 39600i32),
        ("NZST", 43200i32),
        ("NZDT", 46800i32),
        ("LINT", 50400i32),
        ("BRT", -10800i32),
        ("ART", -10800i32),
        ("NST", -12600i32),
        ("AST", -14400i32),
        ("EDT", -14400i32),
        ("EST", -18000i32),
        ("CDT", -18000i32),
        ("CST", -21600i32),
        ("MDT", -21600i32),
        ("MST", -25200i32),
        ("PDT", -25200i32),
        ("PST", -28800i32),
        ("AKDT", -28800i32),
        ("AKST", -32400i32),
        ("HST", -36000i32),
        ("SST", -39600i32),
    ];
    assert(table_view(v@) =~= zone_table());
    v
}

/// Every zone in the table lies within 14 hours of UTC.
pub proof fn zone_table_in_bounds()
    ensures
        forall|i: int|
            0 <= i < zone_table().len() ==> is_valid_offset((#[trigger] zone_table()[i]).1),
{
}

/// Every named offset lies within 14 hours of UTC.
pub proof fn named_offset_in_bounds(token: Seq<char>)
    ensures
        named_offset(token) matches Some(o) ==> is_valid_offset(o),
{
    zone_table_in_bounds();
    lookup_is_an_entry(zone_table(), token, 0);
}

/// The offset of a named zone; `None` for a name that is not in the table.
pub fn match_timezone(token: &str) -> (r: Option<TimezoneOffset>)
    ensures
        r is Some <==> named_offset(token@) is Some,
        r matches Some(o) ==> named_offset(token@) == Some(o@) && is_valid_offset(o@),
{
    let table = zones();
    proof {
        named_offset_in_bounds(token@);
    }
    match find_named(&table, token) {
        Some(ahead) => TimezoneOffset::from_local_minus_utc(ahead),
        None => None,
    }
}

/// The warning given for a zone name that is not understood.
pub open spec fn invalid_timezone_warning(token: Seq<char>) -> Seq<char> {
    "Invalid timezone: "@ + token + ". Using default timezone."@
}

/// The offset to use for a requested zone: that of the name where one is
/// given and understood, and otherwise the local offset.
pub open spec fn resolved_offset(token: Option<Seq<char>>, local: int) -> int {
    match token {
        Some(name) => match named_offset(name) {
            Some(o) => o,
            None => local,
        },
        None => local,
    }
}

/// The warning that goes with resolving a requested zone: one for a name that
/// is given and not understood, none otherwise.
pub open spec fn resolved_warning(token: Option<Seq<char>>) -> Option<Seq<char>> {
    match token {
        Some(name) => if named_offset(name) is None {
            Some(invalid_timezone_warning(name))
        } else {
            None
        },
        None => None,
    }
}

/// The outcome of resolving a requested zone: the offset to use, and a warning
/// for the user where the request was not understood.
pub struct Resolution {
    pub offset: TimezoneOffset,
    pub warning: Option<String>,
}

impl Resolution {
    /// The warning's characters, if there is a warning.
    pub open spec fn warning_text(self) -> Option<Seq<char>> {
        match self.warning {
            Some(w) => Some(w@),
            None => None,
        }
    }
}

/// Turns a requested zone into an offset.
pub struct TimezoneResolver;

impl TimezoneResolver {
    /// Resolves a requested zone against the local offset. Without a request
    /// the local offset is used. A name that is not understood is no failure:
    /// the local offset is used and a warning comes back with it. Whatever
    /// the request, the offset lies within 14 hours of UTC.
    pub fn resolve(token: Option<&str>, local: TimezoneOffset) -> (r: Resolution)
        ensures
            r.offset@ == resolved_offset(text_of(token), local@),
            r.warning_text() == resolved_warning(text_of(token)),
            is_valid_offset(r.offset@),
    {
        proof {
            use_type_invariant(&local);
        }
        match token {
            Some(name) => match match_timezone(name) {
                Some(offset) => Resolution { offset, warning: None },
                None => {
                    let mut warning = String::from_str("Invalid timezone: ");
                    warning.append(name);
                    warning.append(". Using default timezone.");
                    Resolution { offset: local, warning: Some(warning) }
                },
            },
            None => Resolution { offset: local, warning: None },
        }
    }
}

/// Resolving is a function of the request and the local offset: two outcomes
/// for the same inputs agree in offset and in warning.
pub proof fn resolution_is_determined(
    token: Option<Seq<char>>,
    local: int,
    first: Resolution,
    second: Resolution,
)
    requires
        first.offset@ == resolved_offset(token, local),
        first.warning_text() == resolved_warning(token),
        second.offset@ == resolved_offset(token, local),
        second.warning_text() == resolved_warning(token),
    ensures
        first.offset@ == second.offset@,
        first.warning_text() == second.warning_text(),
{
}

/// The resolved offset lies within 14 hours of UTC whenever the local offset
/// does, whether the request is understood, not understood or absent.
pub proof fn resolved_offset_in_bounds(token: Option<Seq<char>>, local: int)
    requires
        is_valid_offset(local),
    ensures
        is_valid_offset(resolved_offset(token, local)),
{
    if let Some(name) = token {
        named_offset_in_bounds(name);
    }
}

/// The case of ASCII letters in a zone name does not matter.
pub proof fn named_offset_ignores_case(a: Seq<char>, b: Seq<char>)
    requires
        same_ignoring_case(a, b),
    ensures
        named_offset(a) == named_offset(b),
{
    lookup_ignores_case(zone_table(), a, b, 0);
}

} // verus!
