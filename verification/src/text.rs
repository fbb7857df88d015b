//! Small text primitives shared by the resolvers and formatters: ASCII case
//! folding, comparison and tables of names without regard to case, decimal
//! rendering, and upper case.

use vstd::prelude::*;
use vstd::string::*;

verus! {

/// The characters of an optional text.
pub open spec fn text_of(token: Option<&str>) -> Option<Seq<char>> {
    match token {
        Some(t) => Some(t@),
        None => None,
    }
}

/// The characters of an optional owned text.
pub open spec fn owned_text_of(token: Option<String>) -> Option<Seq<char>> {
    match token {
        Some(t) => Some(t@),
        None => None,
    }
}

/// Borrows an optional owned text.
pub fn borrowed(token: &Option<String>) -> (r: Option<&str>)
    ensures
        text_of(r) == owned_text_of(*token),
{
    match token {
        Some(t) => Some(t.as_str()),
        None => None,
    }
}

/// The character with an ASCII capital letter replaced by its small letter.
pub open spec fn fold_char(c: char) -> char {
    if 'A' <= c && c <= 'Z' {
        ((c as int) + 32) as char
    } else {
        c
    }
}

/// A text with every ASCII capital letter replaced by its small letter.
pub open spec fn fold(s: Seq<char>) -> Seq<char> {
    Seq::new(s.len(), |i: int| fold_char(s[i]))
}

/// Two texts are the same up to the case of their ASCII letters.
pub open spec fn same_ignoring_case(a: Seq<char>, b: Seq<char>) -> bool {
    fold(a) == fold(b)
}

/// Folds one character.
pub fn fold_ascii(c: char) -> (r: char)
    ensures
        r == fold_char(c),
{
    if 'A' <= c && c <= 'Z' {
        let code: u8 = c as u8;
        (code + 32) as char
    } else {
        c
    }
}

/// Compares two texts without regard to the case of ASCII letters.
pub fn eq_ignoring_case(a: &str, b: &str) -> (r: bool)
    ensures
        r == same_ignoring_case(a@, b@),
{
    let n: usize = a.unicode_len();
    if b.unicode_len() != n {
        assert(fold(a@).len() != fold(b@).len());
        return false;
    }
    let mut i: usize = 0;
    while i < n
        invariant
            i <= n,
            n == a@.len(),
            n == b@.len(),
            forall|j: int| 0 <= j < i ==> fold_char(a@[j]) == fold_char(b@[j]),
        decreases n - i,
    {
        if fold_ascii(a.get_char(i)) != fold_ascii(b.get_char(i)) {
            assert(fold(a@)[i as int] != fold(b@)[i as int]);
            return false;
        }
        i += 1;
    }
    assert(fold(a@) =~= fold(b@));
    true
}

/// The character that writes the digit `d`.
pub open spec fn digit_char(d: int) -> char {
    (('0' as int) + d) as char
}

/// The decimal numeral of `n`, without sign and without leading zeros.
pub open spec fn decimal(n: nat) -> Seq<char>
    decreases n,
{
    if n < 10 {
        seq![digit_char(n as int)]
    } else {
        decimal(n / 10).push(digit_char((n % 10) as int))
    }
}

/// The numeral of `n` in exactly two digits, for `n` below one hundred.
pub open spec fn two_digits(n: nat) -> Seq<char> {
    seq![digit_char((n / 10) as int), digit_char((n % 10) as int)]
}

/// The one-character text of a digit.
fn digit_text(d: u8) -> (s: &'static str)
    requires
        d < 10,
    ensures
        s@ == seq![digit_char(d as int)],
{
    proof {
        reveal_strlit("0");
        reveal_strlit("1");
        reveal_strlit("2");
        reveal_strlit("3");
        reveal_strlit("4");
        reveal_strlit("5");
        reveal_strlit("6");
        reveal_strlit("7");
        reveal_strlit("8");
        reveal_strlit("9");
    }
    let s = if d == 0 {
        "0"
    } else if d == 1 {
        "1"
    } else if d == 2 {
        "2"
    } else if d == 3 {
        "3"
    } else if d == 4 {
        "4"
    } else if d == 5 {
        "5"
    } else if d == 6 {
        "6"
    } else if d == 7 {
        "7"
    } else if d == 8 {
        "8"
    } else {
        "9"
    };
    assert(s@ =~= seq![digit_char(d as int)]);
    s
}

/// Appends the decimal numeral of `n` to `out`.
pub fn push_decimal(out: &mut String, n: u64)
    ensures
        final(out)@ == old(out)@ + decimal(n as nat),
    decreases n,
{
    if n >= 10 {
        push_decimal(out, n / 10);
    }
    let ghost before = out@;
    out.append(digit_text((n % 10) as u8));
    proof {
        if n >= 10 {
            assert(out@ =~= old(out)@ + decimal((n / 10) as nat).push(
                digit_char((n % 10) as int),
            ));
        } else {
            assert(out@ =~= old(out)@ + decimal(n as nat));
        }
    }
}

/// Appends the two-digit numeral of `n` to `out`.
pub(crate) fn push_two_digits(out: &mut String, n: u8)
    requires
        n < 100,
    ensures
        final(out)@ == old(out)@ + two_digits(n as nat),
{
    out.append(digit_text(n / 10));
    out.append(digit_text(n % 10));
    assert(out@ =~= old(out)@ + two_digits(n as nat));
}

/// The decimal numeral of `n` as an owned text.
pub fn decimal_string(n: u64) -> (s: String)
    ensures
        s@ == decimal(n as nat),
{
    let mut s = String::new();
    push_decimal(&mut s, n);
    assert(s@ =~= decimal(n as nat));
    s
}

/// The value that a table of names gives for `token`: that of the first entry,
/// from position `from` on, whose name is `token` up to the case of ASCII
/// letters; `None` where there is no such entry.
pub open spec fn lookup_from(table: Seq<(Seq<char>, int)>, token: Seq<char>, from: int) -> Option<
    int,
>
    decreases table.len() - from,
{
    if from < 0 || from >= table.len() {
        None
    } else if same_ignoring_case(table[from].0, token) {
        Some(table[from].1)
    } else {
        lookup_from(table, token, from + 1)
    }
}

/// The value that a table of names gives for `token`.
pub open spec fn lookup(table: Seq<(Seq<char>, int)>, token: Seq<char>) -> Option<int> {
    lookup_from(table, token, 0)
}

/// What a table in memory stands for: names by their characters, values as
/// integers.
pub open spec fn table_view(table: Seq<(&'static str, i32)>) -> Seq<(Seq<char>, int)> {
    Seq::new(table.len(), |i: int| (table[i].0@, table[i].1 as int))
}

/// Looks `token` up in a table of names, without regard to the case of ASCII
/// letters. The first entry that matches wins.
pub fn find_named(table: &Vec<(&'static str, i32)>, token: &str) -> (r: Option<i32>)
    ensures
        r is Some <==> lookup(table_view(table@), token@) is Some,
        r matches Some(v) ==> lookup(table_view(table@), token@) == Some(v as int),
{
    let ghost spec_table = table_view(table@);
    let mut i: usize = 0;
    while i < table.len()
        invariant
            i <= table.len(),
            spec_table == table_view(table@),
            lookup(spec_table, token@) == lookup_from(spec_table, token@, i as int),
        decreases table.len() - i,
    {
        let entry = table[i];
        if eq_ignoring_case(entry.0, token) {
            assert(spec_table[i as int] == (entry.0@, entry.1 as int));
            return Some(entry.1);
        }
        assert(spec_table[i as int].0 == entry.0@);
        i += 1;
    }
    None
}

/// A value found in a table is the value of one of its entries.
pub proof fn lookup_is_an_entry(table: Seq<(Seq<char>, int)>, token: Seq<char>, from: int)
    requires
        0 <= from,
    ensures
        lookup_from(table, token, from) matches Some(v) ==> exists|i: int|
            from <= i < table.len() && (#[trigger] table[i]).1 == v && same_ignoring_case(
                table[i].0,
                token,
            ),
        lookup_from(table, token, from) is None ==> forall|i: int|
            from <= i < table.len() ==> !same_ignoring_case((#[trigger] table[i]).0, token),
    decreases table.len() - from,
{
    if from < table.len() && !same_ignoring_case(table[from].0, token) {
        lookup_is_an_entry(table, token, from + 1);
    }
}

/// Looking a name up does not depend on the case of its ASCII letters.
pub proof fn lookup_ignores_case(
    table: Seq<(Seq<char>, int)>,
    a: Seq<char>,
    b: Seq<char>,
    from: int,
)
    requires
        same_ignoring_case(a, b),
    ensures
        lookup_from(table, a, from) == lookup_from(table, b, from),
    decreases table.len() - from,
{
    if 0 <= from < table.len() {
        lookup_ignores_case(table, a, b, from + 1);
    }
}

/// A text in upper case, by the case mapping of Unicode.
pub uninterp spec fn uppercase_of(s: Seq<char>) -> Seq<char>;

/// A text in upper case, as `str::to_uppercase` of the standard library
/// returns it. The contract claims only that the result is a function of the
/// characters given.
#[verifier::external_body]
pub(crate) fn to_uppercase(s: &str) -> (r: String)
    ensures
        r@ == uppercase_of(s@),
{
    s.to_uppercase()
}

} // verus!
