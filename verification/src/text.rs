//! Text helpers that the naming and job-planning rules share: comparisons of
//! string slices, the last dot of a name, and decimal numerals.

use vstd::prelude::*;
use vstd::string::*;

verus! {

/// An ASCII capital letter turned into its small letter; any other character
/// unchanged.
pub open spec fn fold_case(c: char) -> char {
    if 'A' <= c && c <= 'Z' {
        ((c as u8) + 32) as u8 as char
    } else {
        c
    }
}

/// A text with every ASCII capital letter turned into its small letter.
pub open spec fn folded(text: Seq<char>) -> Seq<char> {
    Seq::new(text.len(), |i: int| fold_case(text[i]))
}

/// Whether `text`, with its ASCII capitals made small, ends with `suffix`.
pub open spec fn ends_with_folded(text: Seq<char>, suffix: Seq<char>) -> bool {
    &&& suffix.len() <= text.len()
    &&& forall|i: int|
        0 <= i < suffix.len() ==> fold_case(#[trigger] text[text.len() - suffix.len() + i])
            == suffix[i]
}

/// The position of the last `.` in a text, or -1 where it has none.
pub open spec fn last_dot(text: Seq<char>) -> int
    decreases text.len(),
{
    if text.len() == 0 {
        -1
    } else if text.last() == '.' {
        text.len() - 1
    } else {
        last_dot(text.drop_last())
    }
}

/// What stands before the last `.` of a name; the whole name where it has none.
pub open spec fn stem(name: Seq<char>) -> Seq<char> {
    if last_dot(name) < 0 {
        name
    } else {
        name.subrange(0, last_dot(name))
    }
}

/// What stands after the last `.` of a name; the whole name where it has none.
pub open spec fn after_last_dot(name: Seq<char>) -> Seq<char> {
    if last_dot(name) < 0 {
        name
    } else {
        name.subrange(last_dot(name) + 1, name.len() as int)
    }
}

/// The decimal digit for a number below ten.
pub open spec fn digit_char(d: nat) -> char {
    if d == 0 {
        '0'
    } else if d == 1 {
        '1'
    } else if d == 2 {
        '2'
    } else if d == 3 {
        '3'
    } else if d == 4 {
        '4'
    } else if d == 5 {
        '5'
    } else if d == 6 {
        '6'
    } else if d == 7 {
        '7'
    } else if d == 8 {
        '8'
    } else {
        '9'
    }
}

/// The decimal numeral of a number, without leading zeros.
pub open spec fn decimal_digits(n: nat) -> Seq<char>
    decreases n,
{
    if n < 10 {
        seq![digit_char(n)]
    } else {
        decimal_digits(n / 10).push(digit_char(n % 10))
    }
}

/// The last dot of a text is a dot with none after it; -1 says there is none.
pub proof fn lemma_last_dot(text: Seq<char>)
    ensures
        -1 <= last_dot(text) < text.len(),
        last_dot(text) >= 0 ==> text[last_dot(text)] == '.',
        forall|j: int| last_dot(text) < j < text.len() ==> text[j] != '.',
    decreases text.len(),
{
    if text.len() > 0 && text.last() != '.' {
        let front = text.drop_last();
        lemma_last_dot(front);
        assert forall|j: int| last_dot(text) < j < text.len() implies text[j] != '.' by {
            if j < front.len() {
                assert(front[j] == text[j]);
            }
        }
    }
}

/// A dot with no dot after it is the last dot.
pub proof fn lemma_last_dot_at(text: Seq<char>, k: int)
    requires
        0 <= k < text.len(),
        text[k] == '.',
        forall|j: int| k < j < text.len() ==> text[j] != '.',
    ensures
        last_dot(text) == k,
{
    lemma_last_dot(text);
}

/// Whether two string slices hold the same characters.
pub fn same_text(a: &str, b: &str) -> (same: bool)
    ensures
        same == (a@ == b@),
{
    let n: usize = a.unicode_len();
    if n != b.unicode_len() {
        return false;
    }
    let mut i: usize = 0;
    while i < n
        invariant
            i <= n,
            n == a@.len(),
            n == b@.len(),
            forall|j: int| 0 <= j < i ==> a@[j] == b@[j],
        decreases n - i,
    {
        if a.get_char(i) != b.get_char(i) {
            return false;
        }
        i += 1;
    }
    proof {
        assert(a@ =~= b@);
    }
    true
}

/// An ASCII capital letter made small; any other character as it is.
pub fn to_folded(c: char) -> (small: char)
    ensures
        small == fold_case(c),
{
    if 'A' <= c && c <= 'Z' {
        ((c as u8) + 32) as char
    } else {
        c
    }
}

/// Whether `text` ends with `suffix` once the ASCII capitals of `text` are made
/// small. The suffix is compared as it stands.
pub fn ends_with_ignoring_case(text: &str, suffix: &str) -> (found: bool)
    ensures
        found == ends_with_folded(text@, suffix@),
{
    let n: usize = text.unicode_len();
    let m: usize = suffix.unicode_len();
    if m > n {
        return false;
    }
    let offset: usize = n - m;
    let mut i: usize = 0;
    while i < m
        invariant
            i <= m,
            m <= n,
            offset == n - m,
            n == text@.len(),
            m == suffix@.len(),
            forall|j: int|
                0 <= j < i ==> fold_case(#[trigger] text@[text@.len() - suffix@.len() + j])
                    == suffix@[j],
        decreases m - i,
    {
        if to_folded(text.get_char(offset + i)) != suffix.get_char(i) {
            assert(fold_case(text@[text@.len() - suffix@.len() + i]) != suffix@[i as int]);
            return false;
        }
        i += 1;
    }
    true
}

/// The position of the last `.` in a name, where it has one.
pub fn find_last_dot(name: &str) -> (position: Option<usize>)
    ensures
        match position {
            Some(k) => last_dot(name@) == k && k < name@.len(),
            None => last_dot(name@) == -1,
        },
{
    let n: usize = name.unicode_len();
    let mut i: usize = n;
    while i > 0
        invariant
            i <= n,
            n == name@.len(),
            forall|j: int| i <= j < n ==> name@[j] != '.',
        decreases i,
    {
        if name.get_char(i - 1) == '.' {
            proof {
                lemma_last_dot_at(name@, i - 1);
            }
            return Some(i - 1);
        }
        i -= 1;
    }
    proof {
        lemma_last_dot(name@);
    }
    None
}

/// The decimal digit for a number below ten, as a string slice.
fn digit_text(d: u64) -> (text: &'static str)
    requires
        d < 10,
    ensures
        text@ == seq![digit_char(d as nat)],
{
    proof {
        reveal_strlit("0");
        reveal_strlit("1");
        reveal_strlit("2");
        reveal_strlit("3");
        reveal_strlit("4");
        reveal_strlit("5");
        reveal_strlit("6");
        reveal_strlit("7");
        reveal_strlit("8");
        reveal_strlit("9");
    }
    let text: &'static str = if d == 0 {
        "0"
    } else if d == 1 {
        "1"
    } else if d == 2 {
        "2"
    } else if d == 3 {
        "3"
    } else if d == 4 {
        "4"
    } else if d == 5 {
        "5"
    } else if d == 6 {
        "6"
    } else if d == 7 {
        "7"
    } else if d == 8 {
        "8"
    } else {
        "9"
    };
    proof {
        assert(text@ =~= seq![digit_char(d as nat)]);
    }
    text
}

/// The decimal numeral of a number, without leading zeros.
pub fn decimal(n: u64) -> (numeral: String)
    ensures
        numeral@ == decimal_digits(n as nat),
    decreases n,
{
    if n < 10 {
        String::from_str(digit_text(n))
    } else {
        let mut numeral: String = decimal(n / 10);
        numeral.append(digit_text(n % 10));
        proof {
            assert(numeral@ =~= decimal_digits(n as nat / 10).push(digit_char(n as nat % 10)));
        }
        numeral
    }
}

} // verus!
