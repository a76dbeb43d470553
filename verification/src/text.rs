//! Comparisons and measurements on string slices, stated over their
//! characters.

use vstd::prelude::*;

verus! {

/// The characters of a string slice, in order.
pub fn chars_of(s: &str) -> (v: Vec<char>)
    ensures
        v@ == s@,
{
    let mut v: Vec<char> = Vec::new();
    for c in it: s.chars()
        invariant
            it.seq() == s@,
            v@ == s@.subrange(0, it.index() as int),
    {
        v.push(c);
    }
    v
}

/// Whether two string slices hold the same characters.
pub fn str_eq(a: &str, b: &str) -> (r: bool)
    ensures
        r == (a@ == b@),
{
    let x = chars_of(a);
    let y = chars_of(b);
    if x.len() != y.len() {
        return false;
    }
    let mut i: usize = 0;
    while i < x.len()
        invariant
            x@ == a@,
            y@ == b@,
            x.len() == y.len(),
            i <= x.len(),
            x@.subrange(0, i as int) == y@.subrange(0, i as int),
        decreases x.len() - i,
    {
        if x[i] != y[i] {
            return false;
        }
        i += 1;
    }
    assert(x@ == x@.subrange(0, x.len() as int));
    assert(y@ == y@.subrange(0, y.len() as int));
    true
}

/// Whether a character is a decimal digit.
pub open spec fn is_decimal(c: char) -> bool {
    '0' <= c && c <= '9'
}

/// The number of decimal digits that stand in a row directly before
/// position `i`.
pub open spec fn digit_run(s: Seq<char>, i: int) -> nat
    decreases i,
{
    if i <= 0 || i > s.len() || !is_decimal(s[i - 1]) {
        0
    } else {
        1 + digit_run(s, i - 1)
    }
}

/// No more than `limit` decimal digits stand in a row anywhere in `s`.
pub open spec fn digit_runs_within(s: Seq<char>, limit: nat) -> bool {
    forall|i: int| 0 <= i <= s.len() ==> #[trigger] digit_run(s, i) <= limit
}

/// Whether no more than `limit` decimal digits stand in a row anywhere in a
/// text.
pub fn has_digit_runs_within(text: &str, limit: usize) -> (r: bool)
    ensures
        r == digit_runs_within(text@, limit as nat),
{
    let chars = chars_of(text);
    let mut run: usize = 0;
    let mut i: usize = 0;
    while i < chars.len()
        invariant
            chars@ == text@,
            i <= chars.len(),
            run == digit_run(text@, i as int),
            run <= limit,
            forall|k: int| 0 <= k <= i ==> #[trigger] digit_run(text@, k) <= limit,
        decreases chars.len() - i,
    {
        let c = chars[i];
        if '0' <= c && c <= '9' {
            if run == limit {
                assert(digit_run(text@, i + 1) == limit + 1);
                return false;
            }
            run += 1;
        } else {
            run = 0;
        }
        i += 1;
    }
    true
}

/// The sixteen digits, in order of their value.
pub open spec fn digits() -> Seq<char> {
    seq![
        '0', '1', '2', '3', '4', '5', '6', '7', '8', '9', 'a', 'b', 'c', 'd', 'e', 'f',
    ]
}

/// The digit of a value below sixteen, as a string of one character.
pub fn digit(n: u8) -> (s: &'static str)
    requires
        n < 16,
    ensures
        s@ == seq![digits()[n as int]],
{
    proof {
        reveal_strlit("0");
        reveal_strlit("1");
        reveal_strlit("2");
        reveal_strlit("3");
        reveal_strlit("4");
        reveal_strlit("5");
        reveal_strlit("6");
        reveal_strlit("7");
        reveal_strlit("8");
        reveal_strlit("9");
        reveal_strlit("a");
        reveal_strlit("b");
        reveal_strlit("c");
        reveal_strlit("d");
        reveal_strlit("e");
        reveal_strlit("f");
    }
    match n {
        0 => "0",
        1 => "1",
        2 => "2",
        3 => "3",
        4 => "4",
        5 => "5",
        6 => "6",
        7 => "7",
        8 => "8",
        9 => "9",
        10 => "a",
        11 => "b",
        12 => "c",
        13 => "d",
        14 => "e",
        _ => "f",
    }
}

} // verus!
