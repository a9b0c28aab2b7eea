//! Backup-name validation, path planning and name/choice interpretation.

use worth_core::backup::{
    backup_path_for, db_file_paths, parse_backup_name_arg, plan_backup_pairs,
    preflight_backup_collisions, resolve_backup_name, resolve_db_path, resolve_seed_path,
    seeds_dir, validate_backup_name, BackupFsError, BackupNameError,
};
use worth_core::names::{
    answer_is_yes, backup_name_of, dedup_names, interpret_backup_choice, is_backup_file, is_blank,
    sql_file_stem, BackupChoice,
};
use worth_core::text::trim_spaces;

#[test]
fn trim_removes_surrounding_whitespace() {
    assert_eq!(trim_spaces("  hello \t\n"), "hello");
    assert_eq!(trim_spaces("hello"), "hello");
    assert_eq!(trim_spaces("   "), "");
    assert_eq!(trim_spaces(""), "");
    assert_eq!(trim_spaces(" a b "), "a b");
}

#[test]
fn backup_names_are_validated_after_trimming() {
    assert_eq!(validate_backup_name("nightly"), Ok(()));
    assert_eq!(validate_backup_name("  nightly  "), Ok(()));
    assert_eq!(validate_backup_name(""), Err(BackupNameError::Empty));
    assert_eq!(validate_backup_name("   "), Err(BackupNameError::Empty));
    assert_eq!(validate_backup_name("."), Err(BackupNameError::Reserved));
    assert_eq!(validate_backup_name(".."), Err(BackupNameError::Reserved));
    assert_eq!(validate_backup_name("a/b"), Err(BackupNameError::Separator));
    assert_eq!(validate_backup_name("a\\b"), Err(BackupNameError::Separator));
    assert_eq!(validate_backup_name("a\u{0}b"), Err(BackupNameError::Nul));
}

#[test]
fn parse_backup_name_arg_returns_the_trimmed_name() {
    assert_eq!(parse_backup_name_arg(" 173 "), Ok("173".to_string()));
    assert_eq!(parse_backup_name_arg(" "), Err(BackupNameError::Empty));
}

#[test]
fn resolve_backup_name_defaults_when_no_name_is_given() {
    assert_eq!(resolve_backup_name(None, "1700000000000"), Ok("1700000000000".to_string()));
    assert_eq!(
        resolve_backup_name(Some(" tagged ".to_string()), "fallback"),
        Ok("tagged".to_string())
    );
    assert_eq!(
        resolve_backup_name(Some("a/b".to_string()), "fallback"),
        Err(BackupNameError::Separator)
    );
}

#[test]
fn backup_path_appends_name_and_extension_to_the_file_name() {
    assert_eq!(
        backup_path_for("data/db/worth.sqlite", "173"),
        Ok("data/db/worth.sqlite.173.bak".to_string())
    );
    assert_eq!(backup_path_for("worth.sqlite", "x"), Ok("worth.sqlite.x.bak".to_string()));
    assert_eq!(
        backup_path_for("data/db/", "x"),
        Err(BackupFsError::NoFileName("data/db/".to_string()))
    );
    assert_eq!(backup_path_for("", "x"), Err(BackupFsError::NoFileName("".to_string())));
    assert_eq!(
        backup_path_for("a/..", "x"),
        Err(BackupFsError::NoFileName("a/..".to_string()))
    );
}

#[test]
fn db_file_paths_cover_the_side_files() {
    let paths = db_file_paths("d/worth.sqlite");
    assert_eq!(
        paths,
        vec![
            "d/worth.sqlite".to_string(),
            "d/worth.sqlite-wal".to_string(),
            "d/worth.sqlite-shm".to_string(),
            "d/worth.sqlite-journal".to_string(),
        ]
    );
}

#[test]
fn plan_includes_only_existing_files() {
    let exists = vec![true, false, false, true];
    let is_file = vec![true, false, false, true];
    let plan = plan_backup_pairs("d/worth.sqlite", "n", &exists, &is_file).unwrap();
    assert_eq!(
        plan,
        vec![
            ("d/worth.sqlite".to_string(), "d/worth.sqlite.n.bak".to_string()),
            ("d/worth.sqlite-journal".to_string(), "d/worth.sqlite-journal.n.bak".to_string()),
        ]
    );
}

#[test]
fn plan_rejects_a_database_path_that_is_not_a_file() {
    let exists = vec![true, true, false, false];
    let is_file = vec![true, false, false, false];
    assert_eq!(
        plan_backup_pairs("d/worth.sqlite", "n", &exists, &is_file),
        Err(BackupFsError::NotAFile("d/worth.sqlite-wal".to_string()))
    );
}

#[test]
fn preflight_lists_all_collisions_without_overwrite() {
    let planned = vec![
        ("a".to_string(), "a.n.bak".to_string()),
        ("b".to_string(), "b.n.bak".to_string()),
        ("c".to_string(), "c.n.bak".to_string()),
    ];
    let r = preflight_backup_collisions(
        &planned,
        false,
        &vec![true, false, true],
        &vec![true, true, true],
    );
    assert_eq!(
        r,
        Err(BackupFsError::NameInUse(vec!["a.n.bak".to_string(), "c.n.bak".to_string()]))
    );
    let clear = preflight_backup_collisions(
        &planned,
        false,
        &vec![false, false, false],
        &vec![false, false, false],
    );
    assert_eq!(clear, Ok(()));
}

#[test]
fn preflight_with_overwrite_only_rejects_non_files() {
    let planned = vec![("a".to_string(), "a.n.bak".to_string())];
    assert_eq!(preflight_backup_collisions(&planned, true, &vec![true], &vec![true]), Ok(()));
    assert_eq!(
        preflight_backup_collisions(&planned, true, &vec![true], &vec![false]),
        Err(BackupFsError::NotAFile("a.n.bak".to_string()))
    );
}

#[test]
fn seed_and_db_paths_are_joined_from_their_parts() {
    assert_eq!(seeds_dir("/proj/src-tauri"), "/proj/src-tauri/db/seeds");
    assert_eq!(
        resolve_db_path("/home/u/.local/share", "com.example.worth"),
        "/home/u/.local/share/com.example.worth/db/worth.sqlite"
    );
}

#[test]
fn seed_arguments_resolve_to_sql_files() {
    assert_eq!(resolve_seed_path("any", "s", true), "any");
    assert_eq!(resolve_seed_path("dev", "/seeds", false), "/seeds/dev.sql");
    assert_eq!(resolve_seed_path("dev.sql", "/seeds", false), "/seeds/dev.sql");
    assert_eq!(resolve_seed_path("dev.SQL", "/seeds", false), "/seeds/dev.SQL");
    assert_eq!(resolve_seed_path("dev.txt", "/seeds", false), "/seeds/dev.txt.sql");
}

#[test]
fn backup_files_are_recognised_by_prefix_and_extension() {
    assert!(is_backup_file("worth.sqlite.173.bak", "worth.sqlite"));
    assert!(is_backup_file("worth.sqlite-wal.173.BAK", "worth.sqlite"));
    assert!(!is_backup_file("other.sqlite.173.bak", "worth.sqlite"));
    assert!(!is_backup_file("worth.sqlite.173", "worth.sqlite"));
}

#[test]
fn backup_name_is_the_middle_of_the_file_name() {
    assert_eq!(
        backup_name_of("worth.sqlite.173.bak", "worth.sqlite"),
        Some("173".to_string())
    );
    assert_eq!(
        backup_name_of("WORTH.SQLITE.Nightly.BAK", "worth.sqlite"),
        Some("Nightly".to_string())
    );
    assert_eq!(backup_name_of("worth.sqlite.bak", "worth.sqlite"), None);
    assert_eq!(backup_name_of("elsewhere.173.bak", "worth.sqlite"), None);
    assert_eq!(backup_name_of("worth.sqlite.173", "worth.sqlite"), None);
}

#[test]
fn dedup_keeps_first_occurrences_in_order() {
    let names = vec!["b".to_string(), "a".to_string(), "b".to_string(), "c".to_string()];
    assert_eq!(dedup_names(&names), vec!["b".to_string(), "a".to_string(), "c".to_string()]);
}

#[test]
fn backup_choice_understands_quit_default_and_numbers() {
    let names = vec!["300".to_string(), "200".to_string(), "100".to_string()];
    assert_eq!(interpret_backup_choice("q", &names), BackupChoice::Quit);
    assert_eq!(interpret_backup_choice(" QUIT ", &names), BackupChoice::Quit);
    assert_eq!(interpret_backup_choice("", &names), BackupChoice::Pick(0));
    assert_eq!(interpret_backup_choice("  ", &names), BackupChoice::Pick(0));
    assert_eq!(interpret_backup_choice("2", &names), BackupChoice::Pick(1));
    assert_eq!(interpret_backup_choice("#3", &names), BackupChoice::Pick(2));
    assert_eq!(interpret_backup_choice("+2", &names), BackupChoice::Pick(1));
    assert_eq!(interpret_backup_choice("0", &names), BackupChoice::Invalid);
    assert_eq!(interpret_backup_choice("4", &names), BackupChoice::Invalid);
    assert_eq!(interpret_backup_choice("nope", &names), BackupChoice::Invalid);
}

#[test]
fn an_exact_name_wins_over_an_index() {
    let names = vec!["2".to_string(), "x".to_string()];
    assert_eq!(interpret_backup_choice("2", &names), BackupChoice::Pick(0));
    assert_eq!(interpret_backup_choice("x", &names), BackupChoice::Pick(1));
    assert_eq!(interpret_backup_choice("#2", &names), BackupChoice::Pick(1));
}

#[test]
fn confirmations_default_to_yes() {
    assert!(answer_is_yes(""));
    assert!(answer_is_yes("  "));
    assert!(answer_is_yes("y"));
    assert!(answer_is_yes("Y"));
    assert!(answer_is_yes("YES"));
    assert!(answer_is_yes(" yes "));
    assert!(!answer_is_yes("n"));
    assert!(!answer_is_yes("no"));
    assert!(!answer_is_yes("yess"));
}

#[test]
fn seed_scripts_are_recognised_and_blank_ones_detected() {
    assert_eq!(sql_file_stem("dev.sql"), Some("dev".to_string()));
    assert_eq!(sql_file_stem("dev.SQL"), Some("dev".to_string()));
    assert_eq!(sql_file_stem("readme.md"), None);
    assert_eq!(sql_file_stem("sql"), None);
    assert!(is_blank("  \n\t "));
    assert!(!is_blank(" select 1; "));
}
