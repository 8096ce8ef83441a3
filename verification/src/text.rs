//! Small string operations with contracts over character sequences.

use vstd::prelude::*;

verus! {

/// `phrase` occurs in `text` starting at position `at`.
pub open spec fn occurs_at(text: Seq<char>, phrase: Seq<char>, at: int) -> bool {
    &&& 0 <= at
    &&& at + phrase.len() <= text.len()
    &&& text.subrange(at, at + phrase.len()) == phrase
}

/// `phrase` occurs somewhere in `text`.
pub open spec fn occurs_in(text: Seq<char>, phrase: Seq<char>) -> bool {
    exists|at: int| occurs_at(text, phrase, at)
}

/// `text` begins with `prefix`.
pub open spec fn starts_with(text: Seq<char>, prefix: Seq<char>) -> bool {
    prefix.len() <= text.len() && text.subrange(0, prefix.len() as int) == prefix
}

/// A concatenation begins with its first part.
pub proof fn lemma_concat_starts_with(prefix: Seq<char>, rest: Seq<char>)
    ensures
        starts_with(prefix + rest, prefix),
{
    assert((prefix + rest).subrange(0, prefix.len() as int) =~= prefix);
}

/// The characters of `s`, in order.
pub fn chars_of(s: &str) -> (out: Vec<char>)
    ensures
        out@ == s@,
{
    let n: usize = s.unicode_len();
    let mut out: Vec<char> = Vec::new();
    let mut i: usize = 0;
    while i < n
        invariant
            n == s@.len(),
            i <= n,
            out@ == s@.subrange(0, i as int),
        decreases n - i,
    {
        let c = s.get_char(i);
        out.push(c);
        i += 1;
        assert(out@ == s@.subrange(0, i as int));
    }
    assert(s@.subrange(0, n as int) == s@);
    out
}

/// Whether `phrase` starts at position `at` of `text`.
fn matches_at(text: &Vec<char>, phrase: &Vec<char>, at: usize) -> (r: bool)
    requires
        at + phrase.len() <= text.len(),
    ensures
        r == occurs_at(text@, phrase@, at as int),
{
    let m: usize = phrase.len();
    let mut j: usize = 0;
    while j < m
        invariant
            m == phrase.len(),
            at + m <= text.len(),
            j <= m,
            forall|k: int| 0 <= k < j ==> text@[at + k] == phrase@[k],
        decreases m - j,
    {
        if text[at + j] != phrase[j] {
            assert(text@.subrange(at as int, at + m)[j as int] == text@[at + j]);
            return false;
        }
        j += 1;
    }
    assert(text@.subrange(at as int, at + m) =~= phrase@);
    true
}

/// Substring test: true exactly when `phrase` occurs in `text`.
pub fn contains_phrase(text: &str, phrase: &str) -> (r: bool)
    ensures
        r == occurs_in(text@, phrase@),
{
    let t = chars_of(text);
    let p = chars_of(phrase);
    if p.len() > t.len() {
        return false;
    }
    let last: usize = t.len() - p.len();
    let mut i: usize = 0;
    loop
        invariant
            last == t.len() - p.len(),
            p.len() <= t.len(),
            i <= last,
            t@ == text@,
            p@ == phrase@,
            forall|at: int| 0 <= at < i ==> !occurs_at(t@, p@, at),
        decreases last - i,
    {
        if matches_at(&t, &p, i) {
            return true;
        }
        if i == last {
            return false;
        }
        i += 1;
    }
}

/// Whether two strings hold the same characters.
pub fn same_text(a: &str, b: &str) -> (r: bool)
    ensures
        r == (a@ == b@),
{
    let x = String::from_str(a);
    let y = String::from_str(b);
    x == y
}

/// `a` followed by `b`.
pub fn concat2(a: &str, b: &str) -> (out: String)
    ensures
        out@ == a@ + b@,
{
    let mut out = String::from_str(a);
    out.append(b);
    out
}

/// `a`, then `b`, then `c`.
pub fn concat3(a: &str, b: &str, c: &str) -> (out: String)
    ensures
        out@ == a@ + b@ + c@,
{
    let mut out = String::from_str(a);
    out.append(b);
    out.append(c);
    out
}

/// The character of a decimal digit.
pub open spec fn digit_char(digit: nat) -> char {
    if digit == 0 {
        '0'
    } else if digit == 1 {
        '1'
    } else if digit == 2 {
        '2'
    } else if digit == 3 {
        '3'
    } else if digit == 4 {
        '4'
    } else if digit == 5 {
        '5'
    } else if digit == 6 {
        '6'
    } else if digit == 7 {
        '7'
    } else if digit == 8 {
        '8'
    } else {
        '9'
    }
}

/// The decimal numeral of `n`, without leading zeros.
pub open spec fn spec_decimal(n: nat) -> Seq<char>
    decreases n,
{
    if n < 10 {
        seq![digit_char(n)]
    } else {
        spec_decimal(n / 10).push(digit_char(n % 10))
    }
}

/// The one-character string of a decimal digit.
fn digit_text(digit: usize) -> (out: &'static str)
    requires
        digit < 10,
    ensures
        out@ == seq![digit_char(digit as nat)],
{
    proof {
        reveal_strlit("0");
        reveal_strlit("1");
        reveal_strlit("2");
        reveal_strlit("3");
        reveal_strlit("4");
        reveal_strlit("5");
        reveal_strlit("6");
        reveal_strlit("7");
        reveal_strlit("8");
        reveal_strlit("9");
    }
    let out = if digit == 0 {
        "0"
    } else if digit == 1 {
        "1"
    } else if digit == 2 {
        "2"
    } else if digit == 3 {
        "3"
    } else if digit == 4 {
        "4"
    } else if digit == 5 {
        "5"
    } else if digit == 6 {
        "6"
    } else if digit == 7 {
        "7"
    } else if digit == 8 {
        "8"
    } else {
        "9"
    };
    assert(out@ =~= seq![digit_char(digit as nat)]);
    out
}

/// The decimal numeral of `n`.
pub fn decimal(n: usize) -> (out: String)
    ensures
        out@ == spec_decimal(n as nat),
    decreases n,
{
    if n < 10 {
        String::from_str(digit_text(n))
    } else {
        let mut out = decimal(n / 10);
        out.append(digit_text(n % 10));
        out
    }
}

} // verus!
