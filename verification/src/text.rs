//! Small verified string helpers: ASCII-whitespace trimming and
//! character-for-character equality over `Seq<char>` views.

use vstd::prelude::*;
use vstd::string::StrSliceExecFns;

verus! {

/// ASCII whitespace, the characters trimmed from names read from the
/// command line.
pub open spec fn is_space(c: char) -> bool {
    c == ' ' || c == '\t' || c == '\n' || c == '\r'
}

/// How many leading characters of `s` are whitespace.
pub open spec fn leading_spaces(s: Seq<char>) -> int
    decreases s.len(),
{
    if s.len() == 0 {
        0
    } else if is_space(s[0]) {
        1 + leading_spaces(s.drop_first())
    } else {
        0
    }
}

/// How many trailing characters of `s` are whitespace.
pub open spec fn trailing_spaces(s: Seq<char>) -> int
    decreases s.len(),
{
    if s.len() == 0 {
        0
    } else if is_space(s.last()) {
        1 + trailing_spaces(s.drop_last())
    } else {
        0
    }
}

/// `s` with leading and trailing whitespace removed.
pub open spec fn spec_trim(s: Seq<char>) -> Seq<char> {
    let lo = leading_spaces(s);
    let hi = s.len() - trailing_spaces(s);
    if lo >= hi {
        Seq::empty()
    } else {
        s.subrange(lo, hi)
    }
}

proof fn lemma_leading_spaces_at(s: Seq<char>, i: int)
    requires
        0 <= i <= s.len(),
        forall|j: int| 0 <= j < i ==> is_space(#[trigger] s[j]),
        i < s.len() ==> !is_space(s[i]),
    ensures
        leading_spaces(s) == i,
    decreases s.len(),
{
    if s.len() > 0 && i > 0 {
        lemma_leading_spaces_at(s.drop_first(), i - 1);
    }
}

proof fn lemma_trailing_spaces_at(s: Seq<char>, i: int)
    requires
        0 <= i <= s.len(),
        forall|j: int| i <= j < s.len() ==> is_space(#[trigger] s[j]),
        i > 0 ==> !is_space(s[i - 1]),
    ensures
        trailing_spaces(s) == s.len() - i,
    decreases s.len(),
{
    if s.len() > 0 && i < s.len() {
        assert(forall|j: int| i <= j < s.drop_last().len() ==> is_space(#[trigger] s.drop_last()[j]));
        lemma_trailing_spaces_at(s.drop_last(), i);
    }
}

/// Whether `c` is trimmed as whitespace.
fn is_space_char(c: char) -> (r: bool)
    ensures
        r == is_space(c),
{
    c == ' ' || c == '\t' || c == '\n' || c == '\r'
}

/// `s` with leading and trailing ASCII whitespace removed.
pub fn trim_spaces<'a>(s: &'a str) -> (r: &'a str)
    ensures
        r@ == spec_trim(s@),
{
    let n = s.unicode_len();
    let mut lo: usize = 0;
    while lo < n
        invariant
            lo <= n,
            n == s@.len(),
            forall|j: int| 0 <= j < lo ==> is_space(#[trigger] s@[j]),
        ensures
            lo <= n,
            forall|j: int| 0 <= j < lo ==> is_space(#[trigger] s@[j]),
            lo < n ==> !is_space(s@[lo as int]),
        decreases n - lo,
    {
        if !is_space_char(s.get_char(lo)) {
            break;
        }
        lo = lo + 1;
    }
    proof {
        lemma_leading_spaces_at(s@, lo as int);
    }
    let mut hi: usize = n;
    while hi > lo
        invariant
            lo <= hi <= n,
            n == s@.len(),
            forall|j: int| hi <= j < n ==> is_space(#[trigger] s@[j]),
        ensures
            lo <= hi <= n,
            forall|j: int| hi <= j < n ==> is_space(#[trigger] s@[j]),
            hi > lo ==> !is_space(s@[hi - 1]),
        decreases hi,
    {
        if !is_space_char(s.get_char(hi - 1)) {
            break;
        }
        hi = hi - 1;
    }
    if lo >= hi {
        proof {
            lemma_trailing_spaces_at(s@, 0);
            assert(s@.subrange(0, 0) =~= Seq::<char>::empty());
        }
        let r = s.substring_char(0, 0);
        proof {
            assert(r@ =~= spec_trim(s@));
        }
        r
    } else {
        proof {
            lemma_trailing_spaces_at(s@, hi as int);
        }
        s.substring_char(lo, hi)
    }
}

/// Character-for-character string equality.
pub fn str_eq(a: &str, b: &str) -> (r: bool)
    ensures
        r == (a@ == b@),
{
    let na = a.unicode_len();
    let nb = b.unicode_len();
    if na != nb {
        return false;
    }
    let mut i: usize = 0;
    while i < na
        invariant
            i <= na,
            na == a@.len(),
            nb == b@.len(),
            na == nb,
            forall|j: int| 0 <= j < i ==> a@[j] == b@[j],
        decreases na - i,
    {
        if a.get_char(i) != b.get_char(i) {
            return false;
        }
        i = i + 1;
    }
    proof {
        assert(a@ =~= b@);
    }
    true
}

} // verus!
