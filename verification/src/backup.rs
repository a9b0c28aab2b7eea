//! Decision logic of the database maintenance commands: backup names,
//! backup and seed file paths, and the interpretation of a user's backup
//! choice. Paths are modelled as plain strings whose final component
//! follows the last `/`; the surrounding command layer probes the file
//! system and performs the renames and copies these functions plan.

use vstd::prelude::*;
use vstd::string::StrSliceExecFns;
use vstd::string::StringExecFns;
use crate::text::{spec_trim, str_eq, trim_spaces};

verus! {

/// What disqualifies a backup name: being empty after trimming, naming
/// the current or parent directory, holding a path separator, or holding
/// a NUL character.
#[derive(Debug, Clone, Copy, PartialEq, Eq, Structural)]
pub enum BackupNameError {
    Empty,
    Reserved,
    Separator,
    Nul,
}

/// A trimmed backup name is acceptable as a file-name infix: nonempty,
/// not `.` or `..`, and free of path separators and NUL.
pub open spec fn valid_backup_name(name: Seq<char>) -> bool {
    &&& name.len() > 0
    &&& name != "."@
    &&& name != ".."@
    &&& forall|i: int| 0 <= i < name.len()
        ==> #[trigger] name[i] != '/' && name[i] != '\\' && name[i] != '\u{0}'
}

/// Check a backup name after trimming whitespace: empty, reserved
/// (`.`/`..`), separator-bearing and NUL-bearing names are rejected, in
/// that order of precedence.
pub fn validate_backup_name(name: &str) -> (r: Result<(), BackupNameError>)
    ensures
        r is Ok <==> valid_backup_name(spec_trim(name@)),
        spec_trim(name@).len() == 0 ==> r == Err::<(), BackupNameError>(BackupNameError::Empty),
{
    let t = trim_spaces(name);
    let n = t.unicode_len();
    if n == 0 {
        return Err(BackupNameError::Empty);
    }
    if str_eq(t, ".") || str_eq(t, "..") {
        return Err(BackupNameError::Reserved);
    }
    let mut i: usize = 0;
    while i < n
        invariant
            i <= n,
            n == t@.len(),
            t@ == spec_trim(name@),
            forall|j: int| 0 <= j < i
                ==> #[trigger] t@[j] != '/' && t@[j] != '\\' && t@[j] != '\u{0}',
        decreases n - i,
    {
        let c = t.get_char(i);
        if c == '/' || c == '\\' {
            proof {
                assert(spec_trim(name@)[i as int] == '/' || spec_trim(name@)[i as int] == '\\');
            }
            return Err(BackupNameError::Separator);
        }
        if c == '\u{0}' {
            proof {
                assert(spec_trim(name@)[i as int] == '\u{0}');
            }
            return Err(BackupNameError::Nul);
        }
        i = i + 1;
    }
    Ok(())
}

/// Parse a backup name given on the command line: trim it, reject it for
/// the same reasons as [`validate_backup_name`], and hand the trimmed
/// name back.
pub fn parse_backup_name_arg(arg: &str) -> (r: Result<String, BackupNameError>)
    ensures
        r is Ok <==> valid_backup_name(spec_trim(arg@)),
        r is Ok ==> r->Ok_0@ == spec_trim(arg@),
        spec_trim(arg@).len() == 0 ==> r == Err::<String, BackupNameError>(BackupNameError::Empty),
{
    match validate_backup_name(arg) {
        Ok(_) => {
            let t = trim_spaces(arg);
            Ok(t.to_owned())
        },
        Err(e) => Err(e),
    }
}

/// The backup name an operation will use: the parsed command-line name
/// when one was given, otherwise the supplied default (in practice a
/// millisecond timestamp), which is taken as it is.
pub fn resolve_backup_name(name: Option<String>, default_name: &str) -> (r: Result<
    String,
    BackupNameError,
>)
    ensures
        name is Some ==> {
            &&& r is Ok <==> valid_backup_name(spec_trim(name->Some_0@))
            &&& r is Ok ==> r->Ok_0@ == spec_trim(name->Some_0@)
        },
        name is None ==> r is Ok && r->Ok_0@ == default_name@,
{
    match name {
        Some(n) => parse_backup_name_arg(n.as_str()),
        None => Ok(default_name.to_owned()),
    }
}

/// What stops a backup from being planned: a database file that exists
/// but is not a regular file, a path with no final file-name component,
/// or a backup name whose destination files already exist.
#[derive(Debug, Clone, PartialEq)]
pub enum BackupFsError {
    NotAFile(String),
    NoFileName(String),
    NameInUse(Vec<String>),
}

/// Where the final path component of `p` starts: just after the last
/// `/`, or 0 when there is none.
pub open spec fn file_name_start(p: Seq<char>) -> int
    decreases p.len(),
{
    if p.len() == 0 {
        0
    } else if p.last() == '/' {
        p.len() as int
    } else {
        file_name_start(p.drop_last())
    }
}

/// Whether `p` ends in a usable file name: a nonempty final component
/// that is not `.` or `..`.
pub open spec fn has_file_name(p: Seq<char>) -> bool {
    let base = p.subrange(file_name_start(p), p.len() as int);
    base.len() > 0 && base != "."@ && base != ".."@
}

/// The path of the backup of `p` under `name`: the file name gains a
/// `.name.bak` suffix.
pub open spec fn backup_path_of(p: Seq<char>, name: Seq<char>) -> Seq<char> {
    p + "."@ + name + ".bak"@
}

proof fn lemma_file_name_start_at(s: Seq<char>, i: int)
    requires
        0 <= i <= s.len(),
        forall|j: int| i <= j < s.len() ==> #[trigger] s[j] != '/',
        i > 0 ==> s[i - 1] == '/',
    ensures
        file_name_start(s) == i,
    decreases s.len(),
{
    if s.len() > 0 && i < s.len() {
        lemma_file_name_start_at(s.drop_last(), i);
    }
}

/// The backup path for `path` under `backup_name`: the file name with a
/// `.backup_name.bak` suffix. A path with no usable final component (it
/// is empty, or ends in `/`, `/.` or `/..`) is rejected.
pub fn backup_path_for(path: &str, backup_name: &str) -> (r: Result<String, BackupFsError>)
    ensures
        r is Ok <==> has_file_name(path@),
        r is Ok ==> r->Ok_0@ == backup_path_of(path@, backup_name@),
        r is Err ==> r->Err_0 is NoFileName && r->Err_0->NoFileName_0@ == path@,
{
    let n = path.unicode_len();
    let mut start: usize = n;
    while start > 0
        invariant
            start <= n,
            n == path@.len(),
            forall|j: int| start <= j < n ==> #[trigger] path@[j] != '/',
        ensures
            start <= n,
            forall|j: int| start <= j < n ==> #[trigger] path@[j] != '/',
            start > 0 ==> path@[start - 1] == '/',
        decreases start,
    {
        if path.get_char(start - 1) == '/' {
            break;
        }
        start = start - 1;
    }
    proof {
        lemma_file_name_start_at(path@, start as int);
    }
    let base = path.substring_char(start, n);
    if base.unicode_len() == 0 || str_eq(base, ".") || str_eq(base, "..") {
        return Err(BackupFsError::NoFileName(path.to_owned()));
    }
    let mut out = path.to_owned();
    out.append(".");
    out.append(backup_name);
    out.append(".bak");
    proof {
        assert(out@ =~= backup_path_of(path@, backup_name@));
    }
    Ok(out)
}

/// The four file paths a database at `p` may occupy: the database itself
/// and its write-ahead log, shared-memory and rollback-journal side
/// files.
pub open spec fn spec_db_paths(p: Seq<char>) -> Seq<Seq<char>> {
    seq![p, p + "-wal"@, p + "-shm"@, p + "-journal"@]
}

/// See [`spec_db_paths`].
pub fn db_file_paths(db_path: &str) -> (r: Vec<String>)
    ensures
        r@.len() == 4,
        forall|i: int| 0 <= i < 4 ==> #[trigger] r@[i]@ == spec_db_paths(db_path@)[i],
{
    let mut out: Vec<String> = Vec::new();
    out.push(db_path.to_owned());
    let mut wal = db_path.to_owned();
    wal.append("-wal");
    out.push(wal);
    let mut shm = db_path.to_owned();
    shm.append("-shm");
    out.push(shm);
    let mut journal = db_path.to_owned();
    journal.append("-journal");
    out.push(journal);
    proof {
        assert forall|i: int| 0 <= i < 4 implies #[trigger] out@[i]@ == spec_db_paths(db_path@)[i] by {
            assert(spec_db_paths(db_path@)[i] == out@[i]@);
        }
    }
    out
}

/// The (source, backup destination) pairs a backup under `name` will
/// move, in database-path order: one pair for each of the four database
/// files that exists.
pub open spec fn spec_plan_prefix(
    p: Seq<char>,
    name: Seq<char>,
    ex: Seq<bool>,
    k: int,
) -> Seq<(Seq<char>, Seq<char>)>
    decreases k,
{
    if k <= 0 {
        Seq::empty()
    } else {
        let pre = spec_plan_prefix(p, name, ex, k - 1);
        if ex[k - 1] {
            pre.push((spec_db_paths(p)[k - 1], backup_path_of(spec_db_paths(p)[k - 1], name)))
        } else {
            pre
        }
    }
}

/// Plan the backup of the database files at `db_path` under
/// `backup_name`. `exists[i]` and `is_file[i]` report what the file
/// system says of the i-th database file path. A path that exists but is
/// not a regular file, or that lacks a file-name component, aborts the
/// plan; files that do not exist are skipped.
pub fn plan_backup_pairs(
    db_path: &str,
    backup_name: &str,
    exists: &Vec<bool>,
    is_file: &Vec<bool>,
) -> (r: Result<Vec<(String, String)>, BackupFsError>)
    requires
        exists@.len() == 4,
        is_file@.len() == 4,
    ensures
        r is Ok <==> (forall|i: int| 0 <= i < 4 ==> (#[trigger] exists@[i] ==> is_file@[i]
            && has_file_name(spec_db_paths(db_path@)[i]))),
        r is Ok ==> {
            let expected = spec_plan_prefix(db_path@, backup_name@, exists@, 4);
            &&& r->Ok_0@.len() == expected.len()
            &&& forall|i: int|
                #![trigger r->Ok_0@[i]]
                0 <= i < expected.len() ==> r->Ok_0@[i].0@ == expected[i].0
                    && r->Ok_0@[i].1@ == expected[i].1
        },
        r is Err && r->Err_0 is NotAFile ==> exists|i: int| 0 <= i < 4 && #[trigger] exists@[i]
            && !is_file@[i] && r->Err_0->NotAFile_0@ == spec_db_paths(db_path@)[i],
        r is Err && r->Err_0 is NoFileName ==> exists|i: int| 0 <= i < 4 && #[trigger] exists@[i]
            && !has_file_name(spec_db_paths(db_path@)[i]),
        r is Err ==> r->Err_0 is NotAFile || r->Err_0 is NoFileName,
{
    let paths = db_file_paths(db_path);
    let mut out: Vec<(String, String)> = Vec::new();
    let mut i: usize = 0;
    while i < 4
        invariant
            i <= 4,
            paths@.len() == 4,
            exists@.len() == 4,
            is_file@.len() == 4,
            forall|j: int| 0 <= j < 4 ==> #[trigger] paths@[j]@ == spec_db_paths(db_path@)[j],
            forall|j: int| 0 <= j < i ==> (#[trigger] exists@[j] ==> is_file@[j]
                && has_file_name(spec_db_paths(db_path@)[j])),
            out@.len() == spec_plan_prefix(db_path@, backup_name@, exists@, i as int).len(),
            forall|j: int|
                #![trigger out@[j]]
                0 <= j < out@.len() ==> out@[j].0@
                    == spec_plan_prefix(db_path@, backup_name@, exists@, i as int)[j].0
                    && out@[j].1@
                    == spec_plan_prefix(db_path@, backup_name@, exists@, i as int)[j].1,
        decreases 4 - i,
    {
        if exists[i] {
            if !is_file[i] {
                return Err(BackupFsError::NotAFile(paths[i].clone()));
            }
            let dest = match backup_path_for(paths[i].as_str(), backup_name) {
                Ok(d) => d,
                Err(e) => {
                    return Err(e);
                },
            };
            out.push((paths[i].clone(), dest));
        }
        i = i + 1;
    }
    Ok(out)
}

/// The backup destinations that already exist among the planned pairs,
/// in plan order.
pub open spec fn spec_collision_list(
    planned: Seq<(String, String)>,
    ex: Seq<bool>,
    k: int,
) -> Seq<Seq<char>>
    decreases k,
{
    if k <= 0 {
        Seq::empty()
    } else {
        let pre = spec_collision_list(planned, ex, k - 1);
        if ex[k - 1] {
            pre.push(planned[k - 1].1@)
        } else {
            pre
        }
    }
}

/// Check the planned backup destinations before moving anything.
/// `backup_exists[i]` and `backup_is_file[i]` report what the file
/// system says of the i-th destination. Without permission to
/// overwrite, any existing destination is a collision and the whole
/// list of collisions is reported; with it, a destination may exist but
/// must be a regular file.
pub fn preflight_backup_collisions(
    planned: &Vec<(String, String)>,
    overwrite: bool,
    backup_exists: &Vec<bool>,
    backup_is_file: &Vec<bool>,
) -> (r: Result<(), BackupFsError>)
    requires
        backup_exists@.len() == planned@.len(),
        backup_is_file@.len() == planned@.len(),
    ensures
        overwrite ==> {
            &&& (r is Ok <==> forall|i: int| 0 <= i < planned@.len()
                ==> (#[trigger] backup_exists@[i] ==> backup_is_file@[i]))
            &&& (r is Err ==> r->Err_0 is NotAFile && exists|i: int| 0 <= i < planned@.len()
                && #[trigger] backup_exists@[i] && !backup_is_file@[i]
                && r->Err_0->NotAFile_0@ == planned@[i].1@)
        },
        !overwrite ==> {
            &&& (r is Ok <==> forall|i: int| 0 <= i < planned@.len()
                ==> !(#[trigger] backup_exists@[i]))
            &&& (r is Err ==> r->Err_0 is NameInUse && {
                let cl = spec_collision_list(planned@, backup_exists@, planned@.len() as int);
                &&& r->Err_0->NameInUse_0@.len() == cl.len()
                &&& forall|i: int|
                    #![trigger r->Err_0->NameInUse_0@[i]]
                    0 <= i < cl.len() ==> r->Err_0->NameInUse_0@[i]@ == cl[i]
            })
        },
{
    let n = planned.len();
    let mut collisions: Vec<String> = Vec::new();
    let mut i: usize = 0;
    while i < n
        invariant
            i <= n,
            n == planned@.len(),
            backup_exists@.len() == n,
            backup_is_file@.len() == n,
            overwrite ==> collisions@.len() == 0,
            overwrite ==> forall|j: int| 0 <= j < i
                ==> (#[trigger] backup_exists@[j] ==> backup_is_file@[j]),
            !overwrite ==> {
                &&& collisions@.len() == spec_collision_list(planned@, backup_exists@, i as int).len()
                &&& forall|j: int|
                    #![trigger collisions@[j]]
                    0 <= j < collisions@.len() ==> collisions@[j]@
                        == spec_collision_list(planned@, backup_exists@, i as int)[j]
            },
        decreases n - i,
    {
        if backup_exists[i] {
            if !overwrite {
                collisions.push(planned[i].1.clone());
            } else if !backup_is_file[i] {
                return Err(BackupFsError::NotAFile(planned[i].1.clone()));
            }
        }
        i = i + 1;
    }
    if collisions.len() > 0 {
        proof {
            assert(!(forall|i: int| 0 <= i < planned@.len() ==> !(#[trigger] backup_exists@[i])))
                by {
                if forall|i: int| 0 <= i < planned@.len() ==> !(#[trigger] backup_exists@[i]) {
                    lemma_collision_list_empty(planned@, backup_exists@, planned@.len() as int);
                }
            }
        }
        return Err(BackupFsError::NameInUse(collisions));
    }
    proof {
        if !overwrite {
            lemma_collision_list_all_clear(planned@, backup_exists@, planned@.len() as int);
        }
    }
    Ok(())
}

proof fn lemma_collision_list_empty(planned: Seq<(String, String)>, ex: Seq<bool>, k: int)
    requires
        k <= ex.len(),
        forall|i: int| 0 <= i < ex.len() ==> !(#[trigger] ex[i]),
    ensures
        spec_collision_list(planned, ex, k).len() == 0,
    decreases k,
{
    if k > 0 {
        lemma_collision_list_empty(planned, ex, k - 1);
    }
}

proof fn lemma_collision_list_all_clear(planned: Seq<(String, String)>, ex: Seq<bool>, k: int)
    requires
        k <= ex.len(),
        spec_collision_list(planned, ex, k).len() == 0,
    ensures
        forall|i: int| 0 <= i < k ==> !(#[trigger] ex[i]),
    decreases k,
{
    if k > 0 {
        assert(spec_collision_list(planned, ex, k - 1).len()
            <= spec_collision_list(planned, ex, k).len());
        lemma_collision_list_all_clear(planned, ex, k - 1);
    }
}

/// The directory seed files live in, under the manifest directory.
pub fn seeds_dir(manifest_dir: &str) -> (r: String)
    ensures
        r@ == manifest_dir@ + "/db/seeds"@,
{
    let mut out = manifest_dir.to_owned();
    out.append("/db/seeds");
    out
}

/// Where the database file lives: under the bundle identifier inside the
/// user's local data directory.
pub fn resolve_db_path(data_dir: &str, bundle_id: &str) -> (r: String)
    ensures
        r@ == data_dir@ + "/"@ + bundle_id@ + "/db/worth.sqlite"@,
{
    let mut out = data_dir.to_owned();
    out.append("/");
    out.append(bundle_id);
    out.append("/db/worth.sqlite");
    proof {
        assert(out@ =~= data_dir@ + "/"@ + bundle_id@ + "/db/worth.sqlite"@);
    }
    out
}

/// Whether the name ends in a `.sql` extension, compared without regard
/// to ASCII case.
pub open spec fn has_sql_ext(s: Seq<char>) -> bool {
    &&& s.len() >= 4
    &&& s[s.len() - 4] == '.'
    &&& (s[s.len() - 3] == 's' || s[s.len() - 3] == 'S')
    &&& (s[s.len() - 2] == 'q' || s[s.len() - 2] == 'Q')
    &&& (s[s.len() - 1] == 'l' || s[s.len() - 1] == 'L')
}

/// The path a seed argument names: the argument itself when it already
/// is a file on disk (`arg_is_file`); otherwise a file under the seeds
/// directory, with `.sql` appended unless the argument already carries
/// that extension.
pub fn resolve_seed_path(seed_arg: &str, seeds_dir_path: &str, arg_is_file: bool) -> (r: String)
    ensures
        arg_is_file ==> r@ == seed_arg@,
        !arg_is_file && has_sql_ext(seed_arg@)
            ==> r@ == seeds_dir_path@ + "/"@ + seed_arg@,
        !arg_is_file && !has_sql_ext(seed_arg@)
            ==> r@ == seeds_dir_path@ + "/"@ + seed_arg@ + ".sql"@,
{
    if arg_is_file {
        return seed_arg.to_owned();
    }
    let n = seed_arg.unicode_len();
    let with_ext = if n >= 4 {
        let c0 = seed_arg.get_char(n - 4);
        let c1 = seed_arg.get_char(n - 3);
        let c2 = seed_arg.get_char(n - 2);
        let c3 = seed_arg.get_char(n - 1);
        c0 == '.' && (c1 == 's' || c1 == 'S') && (c2 == 'q' || c2 == 'Q')
            && (c3 == 'l' || c3 == 'L')
    } else {
        false
    };
    let mut out = seeds_dir_path.to_owned();
    out.append("/");
    out.append(seed_arg);
    if !with_ext {
        out.append(".sql");
        proof {
            assert(out@ =~= seeds_dir_path@ + "/"@ + seed_arg@ + ".sql"@);
        }
    } else {
        proof {
            assert(out@ =~= seeds_dir_path@ + "/"@ + seed_arg@);
        }
    }
    out
}

} // verus!
