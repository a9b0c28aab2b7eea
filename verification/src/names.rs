//! Recognition and selection of backup and seed files by name: which
//! directory entries are backups of the database, what backup name such a
//! file carries, and how a user's typed choice among the listed backups
//! is read.

use vstd::prelude::*;
use vstd::string::StrSliceExecFns;
use crate::text::{spec_trim, str_eq, trim_spaces};
use crate::backup::has_sql_ext;

verus! {

/// Case-insensitive equality of two ASCII letters; other characters must
/// match exactly.
pub open spec fn eq_ic(a: char, b: char) -> bool {
    ||| a == b
    ||| (65 <= a as u32 <= 90 && a as u32 + 32 == b as u32)
    ||| (65 <= b as u32 <= 90 && b as u32 + 32 == a as u32)
}

/// Character-for-character equality without regard to ASCII case.
pub open spec fn str_eq_ic_spec(a: Seq<char>, b: Seq<char>) -> bool {
    a.len() == b.len() && forall|i: int| 0 <= i < a.len() ==> eq_ic(a[i], #[trigger] b[i])
}

/// Whether two characters match without regard to ASCII case.
fn char_eq_ic(a: char, b: char) -> (r: bool)
    ensures
        r == eq_ic(a, b),
{
    if a == b {
        return true;
    }
    let au = a as u32;
    let bu = b as u32;
    (65 <= au && au <= 90 && au + 32 == bu) || (65 <= bu && bu <= 90 && bu + 32 == au)
}

/// String equality without regard to ASCII case.
pub fn str_eq_ic(a: &str, b: &str) -> (r: bool)
    ensures
        r == str_eq_ic_spec(a@, b@),
{
    let na = a.unicode_len();
    let nb = b.unicode_len();
    if na != nb {
        return false;
    }
    let mut i: usize = 0;
    while i < na
        invariant
            i <= na,
            na == a@.len(),
            nb == b@.len(),
            na == nb,
            forall|j: int| 0 <= j < i ==> eq_ic(a@[j], #[trigger] b@[j]),
        decreases na - i,
    {
        if !char_eq_ic(a.get_char(i), b.get_char(i)) {
            return false;
        }
        i = i + 1;
    }
    true
}

/// `s` starts with `prefix`, character for character.
pub open spec fn starts_with(s: Seq<char>, prefix: Seq<char>) -> bool {
    s.len() >= prefix.len() && forall|i: int| 0 <= i < prefix.len() ==> s[i] == #[trigger] prefix[i]
}

/// `s` starts with `prefix` without regard to ASCII case.
pub open spec fn starts_with_ic(s: Seq<char>, prefix: Seq<char>) -> bool {
    s.len() >= prefix.len() && forall|i: int| 0 <= i < prefix.len() ==> eq_ic(s[i], #[trigger] prefix[i])
}

/// `s` ends with `suffix` without regard to ASCII case.
pub open spec fn ends_with_ic(s: Seq<char>, suffix: Seq<char>) -> bool {
    s.len() >= suffix.len() && forall|i: int| 0 <= i < suffix.len()
        ==> eq_ic(s[s.len() - suffix.len() + i], #[trigger] suffix[i])
}

/// `s` starts with `prefix`, executed.
pub fn check_starts_with(s: &str, prefix: &str) -> (r: bool)
    ensures
        r == starts_with(s@, prefix@),
{
    let n = s.unicode_len();
    let m = prefix.unicode_len();
    if n < m {
        return false;
    }
    let mut i: usize = 0;
    while i < m
        invariant
            i <= m,
            m <= n,
            n == s@.len(),
            m == prefix@.len(),
            forall|j: int| 0 <= j < i ==> s@[j] == #[trigger] prefix@[j],
        decreases m - i,
    {
        if s.get_char(i) != prefix.get_char(i) {
            return false;
        }
        i = i + 1;
    }
    true
}

/// `s` starts with `prefix` without regard to ASCII case, executed.
fn check_starts_with_ic(s: &str, prefix: &str) -> (r: bool)
    ensures
        r == starts_with_ic(s@, prefix@),
{
    let n = s.unicode_len();
    let m = prefix.unicode_len();
    if n < m {
        return false;
    }
    let mut i: usize = 0;
    while i < m
        invariant
            i <= m,
            m <= n,
            n == s@.len(),
            m == prefix@.len(),
            forall|j: int| 0 <= j < i ==> eq_ic(s@[j], #[trigger] prefix@[j]),
        decreases m - i,
    {
        if !char_eq_ic(s.get_char(i), prefix.get_char(i)) {
            return false;
        }
        i = i + 1;
    }
    true
}

/// `s` ends with `suffix` without regard to ASCII case, executed.
fn check_ends_with_ic(s: &str, suffix: &str) -> (r: bool)
    ensures
        r == ends_with_ic(s@, suffix@),
{
    let n = s.unicode_len();
    let m = suffix.unicode_len();
    if n < m {
        return false;
    }
    let mut i: usize = 0;
    while i < m
        invariant
            i <= m,
            m <= n,
            n == s@.len(),
            m == suffix@.len(),
            forall|j: int| 0 <= j < i ==> eq_ic(s@[n - m + j], #[trigger] suffix@[j]),
        decreases m - i,
    {
        if !char_eq_ic(s.get_char(n - m + i), suffix.get_char(i)) {
            return false;
        }
        i = i + 1;
    }
    true
}

/// Whether a directory entry is a backup of the database: its name
/// starts with the database file name and carries a `.bak` extension
/// (extension compared without regard to case).
pub open spec fn spec_is_backup_file(file_name: Seq<char>, db_file_name: Seq<char>) -> bool {
    starts_with(file_name, db_file_name) && file_name.len() > 4
        && ends_with_ic(file_name, ".bak"@)
}

/// See [`spec_is_backup_file`].
pub fn is_backup_file(file_name: &str, db_file_name: &str) -> (r: bool)
    ensures
        r == spec_is_backup_file(file_name@, db_file_name@),
{
    check_starts_with(file_name, db_file_name) && file_name.unicode_len() > 4
        && check_ends_with_ic(file_name, ".bak")
}

/// The backup name a directory entry carries, if it is one: between the
/// `<db_file_name>.` prefix (matched without regard to case) and the
/// `.bak` suffix, and nonempty.
pub open spec fn spec_backup_name_of(file: Seq<char>, db_file_name: Seq<char>) -> Option<Seq<char>> {
    let prefix = db_file_name + "."@;
    if starts_with_ic(file, prefix) && ends_with_ic(file, ".bak"@)
        && file.len() > prefix.len() + 4 {
        Some(file.subrange(prefix.len() as int, file.len() - 4))
    } else {
        None
    }
}

/// See [`spec_backup_name_of`]. The name keeps the case it has in the
/// file name, though the prefix and suffix are matched without regard to
/// case.
pub fn backup_name_of(file_name: &str, db_file_name: &str) -> (r: Option<String>)
    ensures
        r is Some <==> spec_backup_name_of(file_name@, db_file_name@) is Some,
        r is Some ==> Some(r->0@) == spec_backup_name_of(file_name@, db_file_name@),
{
    let mut prefix = db_file_name.to_owned();
    prefix.append(".");
    let n = file_name.unicode_len();
    let m = prefix.unicode_len();
    if !check_starts_with_ic(file_name, prefix.as_str()) {
        return None;
    }
    if !check_ends_with_ic(file_name, ".bak") {
        return None;
    }
    proof {
        reveal_strlit(".bak");
    }
    if n - 4 <= m {
        return None;
    }
    let name = file_name.substring_char(m, n - 4);
    Some(name.to_owned())
}

/// The stem of a seed file: its name without the `.sql` extension
/// (compared without regard to case); nothing for other files.
pub fn sql_file_stem(file_name: &str) -> (r: Option<String>)
    ensures
        r is Some <==> has_sql_ext(file_name@),
        r is Some ==> r->0@ == file_name@.subrange(0, file_name@.len() - 4),
{
    let n = file_name.unicode_len();
    if n < 4 {
        return None;
    }
    let c0 = file_name.get_char(n - 4);
    let c1 = file_name.get_char(n - 3);
    let c2 = file_name.get_char(n - 2);
    let c3 = file_name.get_char(n - 1);
    if c0 == '.' && (c1 == 's' || c1 == 'S') && (c2 == 'q' || c2 == 'Q')
        && (c3 == 'l' || c3 == 'L') {
        Some(file_name.substring_char(0, n - 4).to_owned())
    } else {
        None
    }
}

/// Whether a string holds nothing but whitespace (an empty seed script,
/// for example, is skipped rather than executed).
pub fn is_blank(s: &str) -> (r: bool)
    ensures
        r == (spec_trim(s@).len() == 0),
{
    let t = trim_spaces(s);
    t.unicode_len() == 0
}

/// Whether a typed confirmation means yes: nothing at all, `y` or `yes`,
/// in any ASCII case, after trimming.
pub fn answer_is_yes(input: &str) -> (r: bool)
    ensures
        r == {
            let t = spec_trim(input@);
            t.len() == 0 || str_eq_ic_spec(t, "y"@) || str_eq_ic_spec(t, "yes"@)
        },
{
    let t = trim_spaces(input);
    t.unicode_len() == 0 || str_eq_ic(t, "y") || str_eq_ic(t, "yes")
}

/// The value of a run of decimal digits folded left onto `acc`, or
/// nothing if a non-digit appears.
pub open spec fn digits_val_acc(s: Seq<char>, acc: int) -> Option<int>
    decreases s.len(),
{
    if s.len() == 0 {
        Some(acc)
    } else if 48 <= s[0] as u32 <= 57 {
        digits_val_acc(s.drop_first(), acc * 10 + (s[0] as u32 - 48))
    } else {
        None
    }
}

/// The number a nonempty string of decimal digits denotes, an optional
/// leading `+` allowed; nothing for any other string.
pub open spec fn spec_parse_index(s: Seq<char>) -> Option<int> {
    if s.len() == 0 {
        None
    } else if s[0] == '+' {
        if s.len() == 1 {
            None
        } else {
            digits_val_acc(s.drop_first(), 0)
        }
    } else {
        digits_val_acc(s, 0)
    }
}

proof fn lemma_digits_val_ge(s: Seq<char>, acc: int)
    requires
        acc >= 0,
    ensures
        digits_val_acc(s, acc) is Some ==> digits_val_acc(s, acc)->0 >= acc,
    decreases s.len(),
{
    if s.len() > 0 && 48 <= s[0] as u32 <= 57 {
        lemma_digits_val_ge(s.drop_first(), acc * 10 + (s[0] as u32 - 48));
    }
}

/// Parse a selection number: decimal digits, an optional leading `+`
/// allowed; a value too large for `usize` is rejected.
fn parse_index(s: &str) -> (r: Option<usize>)
    ensures
        r is Some <==> (spec_parse_index(s@) is Some && spec_parse_index(s@)->0 <= usize::MAX),
        r is Some ==> Some(r->0 as int) == spec_parse_index(s@),
{
    let n = s.unicode_len();
    if n == 0 {
        return None;
    }
    let start: usize = if s.get_char(0) == '+' { 1 } else { 0 };
    if n == start {
        return None;
    }
    proof {
        if start == 1 {
            assert(s@.subrange(1, n as int) =~= s@.drop_first());
        } else {
            assert(s@.subrange(0, n as int) =~= s@);
        }
    }
    let mut acc: usize = 0;
    let mut i: usize = start;
    while i < n
        invariant
            start <= i <= n,
            n == s@.len(),
            spec_parse_index(s@) == digits_val_acc(s@.subrange(i as int, n as int), acc as int),
        decreases n - i,
    {
        let ghost rest = s@.subrange(i as int, n as int);
        let c = s.get_char(i);
        let cu = c as u32;
        if cu < 48 || cu > 57 {
            return None;
        }
        let d: usize = (cu - 48) as usize;
        proof {
            assert(rest[0] == s@[i as int]);
            assert(rest.drop_first() =~= s@.subrange(i + 1, n as int));
        }
        let next = match acc.checked_mul(10) {
            Some(m) => m.checked_add(d),
            None => None,
        };
        match next {
            Some(v) => {
                acc = v;
            },
            None => {
                proof {
                    lemma_digits_val_ge(s@.subrange(i + 1, n as int), acc as int * 10 + d);
                }
                return None;
            },
        }
        i = i + 1;
    }
    proof {
        assert(s@.subrange(n as int, n as int) =~= Seq::<char>::empty());
    }
    Some(acc)
}

/// What a typed backup selection means: quit, the backup at an index of
/// the listed names, or nothing recognisable.
#[derive(Debug, Clone, Copy, PartialEq, Eq, Structural)]
pub enum BackupChoice {
    Quit,
    Pick(usize),
    Invalid,
}

/// Whether some listed name reads exactly like `t`.
pub open spec fn some_name_matches(names: Seq<String>, t: Seq<char>) -> bool {
    exists|j: int| 0 <= j < names.len() && (#[trigger] names[j])@ == t
}

/// Read a typed selection among the listed backup names: `q`/`quit` (any
/// case) quits; an empty answer picks the newest (first) name; an exact
/// name wins over a number; `#n` or `n` picks the n-th name,
/// one-based; anything else is invalid.
pub fn interpret_backup_choice(input: &str, names: &Vec<String>) -> (r: BackupChoice)
    requires
        names@.len() >= 1,
    ensures
        ({
            let t = spec_trim(input@);
            let quit = str_eq_ic_spec(t, "q"@) || str_eq_ic_spec(t, "quit"@);
            let u = if t.len() > 0 && t[0] == '#' { t.drop_first() } else { t };
            &&& quit ==> r == BackupChoice::Quit
            &&& !quit && t.len() == 0 ==> r == BackupChoice::Pick(0usize)
            &&& !quit && t.len() > 0 && some_name_matches(names@, t) ==> r is Pick
                && r->0 < names@.len() && names@[r->0 as int]@ == t
                && (forall|j: int| 0 <= j < r->0 ==> (#[trigger] names@[j])@ != t)
            &&& !quit && t.len() > 0 && !some_name_matches(names@, t) ==> {
                if spec_parse_index(u) is Some && 1 <= spec_parse_index(u)->0 <= names@.len() {
                    r is Pick && r->0 == spec_parse_index(u)->0 - 1
                } else {
                    r == BackupChoice::Invalid
                }
            }
        }),
{
    let t = trim_spaces(input);
    if str_eq_ic(t, "q") || str_eq_ic(t, "quit") {
        return BackupChoice::Quit;
    }
    let n = t.unicode_len();
    if n == 0 {
        return BackupChoice::Pick(0);
    }
    let count = names.len();
    let mut j: usize = 0;
    while j < count
        invariant
            j <= count,
            count == names@.len(),
            t@ == spec_trim(input@),
            t@.len() > 0,
            !str_eq_ic_spec(t@, "q"@),
            !str_eq_ic_spec(t@, "quit"@),
            forall|jj: int| 0 <= jj < j ==> (#[trigger] names@[jj])@ != t@,
        decreases count - j,
    {
        if str_eq(names[j].as_str(), t) {
            return BackupChoice::Pick(j);
        }
        j = j + 1;
    }
    let u = if t.get_char(0) == '#' {
        let stripped = t.substring_char(1, n);
        proof {
            assert(stripped@ =~= t@.drop_first());
        }
        stripped
    } else {
        t
    };
    match parse_index(u) {
        Some(v) => {
            if 1 <= v && v <= count {
                BackupChoice::Pick(v - 1)
            } else {
                BackupChoice::Invalid
            }
        },
        None => {
            proof {
                if spec_parse_index(u@) is Some {
                    assert(spec_parse_index(u@)->0 > usize::MAX);
                }
            }
            BackupChoice::Invalid
        },
    }
}

/// The views of a list of strings.
pub open spec fn views_of_strings(l: Seq<String>) -> Seq<Seq<char>> {
    l.map_values(|s: String| s@)
}

/// The list with later repetitions of a name removed: each name keeps
/// its first occurrence and the order is otherwise unchanged.
pub open spec fn spec_dedup(vs: Seq<Seq<char>>) -> Seq<Seq<char>>
    decreases vs.len(),
{
    if vs.len() == 0 {
        Seq::empty()
    } else {
        let pre = spec_dedup(vs.drop_last());
        if pre.contains(vs.last()) {
            pre
        } else {
            pre.push(vs.last())
        }
    }
}

/// Whether some element of `out` reads the same as `name`.
fn contains_name(out: &Vec<String>, name: &str) -> (r: bool)
    ensures
        r == views_of_strings(out@).contains(name@),
{
    let n = out.len();
    let mut i: usize = 0;
    while i < n
        invariant
            i <= n,
            n == out@.len(),
            forall|j: int| 0 <= j < i ==> views_of_strings(out@)[j] != name@,
        decreases n - i,
    {
        if str_eq(out[i].as_str(), name) {
            proof {
                assert(views_of_strings(out@)[i as int] == name@);
            }
            return true;
        }
        i = i + 1;
    }
    proof {
        assert(!views_of_strings(out@).contains(name@));
    }
    false
}

/// Remove later repetitions: each name keeps its first occurrence, in
/// order.
pub fn dedup_names(names: &Vec<String>) -> (r: Vec<String>)
    ensures
        views_of_strings(r@) == spec_dedup(views_of_strings(names@)),
{
    let n = names.len();
    let mut out: Vec<String> = Vec::new();
    proof {
        assert(views_of_strings(names@.take(0)) =~= Seq::<Seq<char>>::empty());
        assert(views_of_strings(out@) =~= Seq::<Seq<char>>::empty());
    }
    let mut k: usize = 0;
    while k < n
        invariant
            k <= n,
            n == names@.len(),
            views_of_strings(out@) == spec_dedup(views_of_strings(names@.take(k as int))),
        decreases n - k,
    {
        let ghost pre = views_of_strings(names@.take(k as int));
        let ghost pre1 = views_of_strings(names@.take(k as int + 1));
        proof {
            assert(pre1.drop_last() =~= pre);
            assert(pre1.last() == names@[k as int]@);
        }
        if !contains_name(&out, names[k].as_str()) {
            out.push(names[k].clone());
            proof {
                assert(views_of_strings(out@) =~= spec_dedup(pre1));
            }
        }
        k = k + 1;
    }
    proof {
        assert(views_of_strings(names@.take(n as int)) =~= views_of_strings(names@));
    }
    out
}

} // verus!
