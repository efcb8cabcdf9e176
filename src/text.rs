//! Character-level helpers shared by the router and the record framing.

use vstd::prelude::*;
use vstd::string::*;

verus! {

/// The blank characters that separate a command keyword from its argument.
pub open spec fn is_blank(c: char) -> bool {
    c == ' ' || c == '\t' || c == '\n' || c == '\r'
}

/// Number of blank characters at the start of `s`.
pub open spec fn lead_blanks(s: Seq<char>) -> nat
    decreases s.len(),
{
    if s.len() > 0 && is_blank(s[0]) {
        1 + lead_blanks(s.drop_first())
    } else {
        0
    }
}

/// Number of blank characters at the end of `s`.
pub open spec fn trail_blanks(s: Seq<char>) -> nat
    decreases s.len(),
{
    if s.len() > 0 && is_blank(s.last()) {
        1 + trail_blanks(s.drop_last())
    } else {
        0
    }
}

/// `s` without blanks at either end.
pub open spec fn trimmed(s: Seq<char>) -> Seq<char> {
    let a = lead_blanks(s) as int;
    let rest = s.subrange(a, s.len() as int);
    rest.subrange(0, rest.len() - trail_blanks(rest))
}

proof fn lemma_lead_blanks(s: Seq<char>, i: int)
    requires
        0 <= i <= s.len(),
        forall|j: int| 0 <= j < i ==> is_blank(#[trigger] s[j]),
        i == s.len() || !is_blank(s[i]),
    ensures
        lead_blanks(s) == i,
    decreases i,
{
    if i > 0 {
        lemma_lead_blanks(s.drop_first(), i - 1);
    }
}

proof fn lemma_trail_blanks(s: Seq<char>, k: int)
    requires
        0 <= k <= s.len(),
        forall|j: int| k <= j < s.len() ==> is_blank(#[trigger] s[j]),
        k == 0 || !is_blank(s[k - 1]),
    ensures
        trail_blanks(s) == s.len() - k,
    decreases s.len() - k,
{
    if k < s.len() {
        lemma_trail_blanks(s.drop_last(), k);
    }
}

/// Whether two texts hold the same characters.
pub fn eq_text(a: &str, b: &str) -> (r: bool)
    ensures
        r == (a@ == b@),
{
    let n = a.unicode_len();
    if n != b.unicode_len() {
        return false;
    }
    let mut i: usize = 0;
    while i < n
        invariant
            n == a@.len() == b@.len(),
            i <= n,
            a@.subrange(0, i as int) == b@.subrange(0, i as int),
        decreases n - i,
    {
        if a.get_char(i) != b.get_char(i) {
            assert(a@[i as int] != b@[i as int]);
            return false;
        }
        assert(a@.subrange(0, i + 1) == a@.subrange(0, i as int).push(a@[i as int]));
        assert(b@.subrange(0, i + 1) == b@.subrange(0, i as int).push(b@[i as int]));
        i = i + 1;
    }
    assert(a@ == a@.subrange(0, n as int));
    assert(b@ == b@.subrange(0, n as int));
    true
}

/// The part of `s` between its leading and trailing blanks.
pub fn trim_spaces(s: &str) -> (r: &str)
    ensures
        r@ == trimmed(s@),
{
    let n = s.unicode_len();
    let mut a: usize = 0;
    while a < n && is_blank_char(s.get_char(a))
        invariant
            n == s@.len(),
            a <= n,
            forall|j: int| 0 <= j < a ==> is_blank(#[trigger] s@[j]),
        decreases n - a,
    {
        a = a + 1;
    }
    proof {
        lemma_lead_blanks(s@, a as int);
    }
    let mut b: usize = n;
    while b > a && is_blank_char(s.get_char(b - 1))
        invariant
            n == s@.len(),
            a <= b <= n,
            forall|j: int| b <= j < n ==> is_blank(#[trigger] s@[j]),
        decreases b,
    {
        b = b - 1;
    }
    proof {
        let rest = s@.subrange(a as int, n as int);
        lemma_trail_blanks(rest, b - a);
        assert(rest.subrange(0, b - a) == s@.subrange(a as int, b as int));
    }
    s.substring_char(a, b)
}

/// Whether `c` is a blank character.
pub fn is_blank_char(c: char) -> (r: bool)
    ensures
        r == is_blank(c),
{
    c == ' ' || c == '\t' || c == '\n' || c == '\r'
}

} // verus!
