use rechifina::answer::{answer_of, parse_answer};
use rechifina::session::{
    case_entry_outcome, case_outcome, directory_step, entry_outcome, failure_message, file_outcome,
    is_hidden, names_current_dir, plan, rename_step, resolve_path, show_lower_or_upper_name,
    CaseOutcome, DirectoryStep, EntryOutcome, Failure, FileOutcome, PathKind, Plan, RenameStep,
};

#[test]
fn plan_without_arguments_misses_path() {
    assert_eq!(plan(0, false, false, PathKind::File), Plan::Fail(Failure::MissingPath));
    assert_eq!(plan(0, true, false, PathKind::Missing), Plan::Fail(Failure::MissingPath));
}

#[test]
fn plan_missing_path() {
    assert_eq!(plan(3, false, false, PathKind::Missing), Plan::Fail(Failure::PathNotFound));
    assert_eq!(plan(1, true, false, PathKind::Missing), Plan::Fail(Failure::PathNotFound));
}

#[test]
fn plan_case_change() {
    assert_eq!(plan(1, true, false, PathKind::File), Plan::CaseFile);
    assert_eq!(plan(3, false, true, PathKind::Dir), Plan::CaseDir);
    assert_eq!(plan(1, false, true, PathKind::Other), Plan::Fail(Failure::NotFileOrDir));
}

#[test]
fn plan_replace() {
    assert_eq!(plan(3, false, false, PathKind::File), Plan::ReplaceFile);
    assert_eq!(plan(3, false, false, PathKind::Dir), Plan::ReplaceDir);
    assert_eq!(plan(3, false, false, PathKind::Other), Plan::Fail(Failure::MissingChars));
}

#[test]
fn plan_too_few_characters() {
    assert_eq!(plan(1, false, false, PathKind::File), Plan::Fail(Failure::NotFileOrDir));
    assert_eq!(plan(2, false, false, PathKind::Dir), Plan::Fail(Failure::NotFileOrDir));
}

#[test]
fn failure_messages() {
    assert_eq!(
        failure_message(Failure::MissingPath),
        "Missing path argument. The path to the file or directory must be the first argument."
    );
    assert_eq!(failure_message(Failure::PathNotFound), "Path doesn`t exist or you don`t have access");
    assert_eq!(failure_message(Failure::NotFileOrDir), "Path is not a file or directory");
    assert_eq!(
        failure_message(Failure::MissingChars),
        "Missing command or at least one required argument: [CHAR_TO_REPLACE] [NEW_CHAR]"
    );
}

#[test]
fn dot_stands_for_current_dir() {
    assert_eq!(resolve_path(".", "/home/me"), "/home/me");
    assert_eq!(resolve_path("./", "/home/me"), "/home/me");
    assert_eq!(resolve_path("docs", "/home/me"), "docs");
    assert_eq!(resolve_path("..", "/home/me"), "..");
}

#[test]
fn file_is_renamed() {
    assert_eq!(file_outcome("a b.txt", " ", "_"), FileOutcome::Rename("a_b.txt".to_string()));
}

#[test]
fn file_without_char_is_unchanged() {
    assert_eq!(file_outcome("abc.txt", " ", "_"), FileOutcome::Unchanged);
}

#[test]
fn file_with_empty_new_name() {
    assert_eq!(file_outcome("a", "a", ""), FileOutcome::EmptyName);
}

#[test]
fn file_without_name() {
    assert_eq!(file_outcome("/", "a", "b"), FileOutcome::NoStem);
}

#[test]
fn file_with_trailing_dot_and_without_char_is_unchanged() {
    assert_eq!(file_outcome("ab.", "x", "y"), FileOutcome::Unchanged);
    assert_eq!(file_outcome("abc", "x", "y"), FileOutcome::Unchanged);
}

#[test]
fn entries_that_are_not_files_are_skipped() {
    assert_eq!(entry_outcome("dir/sub dir", false, false, false, " ", "_"), EntryOutcome::Skip);
}

#[test]
fn hidden_entries_and_symlinks_are_skipped() {
    assert_eq!(entry_outcome("dir/.a b", true, false, false, " ", "_"), EntryOutcome::Skip);
    assert_eq!(entry_outcome("dir/a b.txt", true, true, false, " ", "_"), EntryOutcome::Skip);
    assert!(is_hidden("dir/.bashrc"));
    assert!(!is_hidden("dir/a.txt"));
    assert!(!is_hidden("/"));
}

#[test]
fn entries_are_renamed_in_their_directory() {
    assert_eq!(
        entry_outcome("dir/a b.txt", true, false, false, " ", "_"),
        EntryOutcome::Rename("dir/a_b.txt".to_string())
    );
}

#[test]
fn entries_with_same_or_empty_name_are_skipped() {
    assert_eq!(entry_outcome("dir/abc.txt", true, false, false, " ", "_"), EntryOutcome::Skip);
    assert_eq!(entry_outcome("a", true, false, false, "a", ""), EntryOutcome::Skip);
    assert_eq!(entry_outcome("/", true, false, false, "a", "b"), EntryOutcome::NoStem);
}

#[test]
fn case_change_renames_the_file_name() {
    assert_eq!(show_lower_or_upper_name("dir/File.txt", true, false), "dir/FILE.TXT");
    assert_eq!(show_lower_or_upper_name("dir/File.TXT", false, true), "dir/file.txt");
    assert_eq!(show_lower_or_upper_name("File.txt", true, true), "FILE.TXT");
    assert_eq!(show_lower_or_upper_name("/", true, false), "/");
    assert_eq!(
        case_outcome("dir/File.txt", true, false),
        CaseOutcome::Convert("dir/FILE.TXT".to_string())
    );
    assert_eq!(case_outcome("FILE.TXT", true, false), CaseOutcome::Unchanged);
}

#[test]
fn case_change_of_entries() {
    assert_eq!(
        case_entry_outcome("d/Ab.txt", true, false, false, false, true),
        EntryOutcome::Rename("d/ab.txt".to_string())
    );
    assert_eq!(case_entry_outcome("d/ab.txt", true, false, false, false, true), EntryOutcome::Skip);
    assert_eq!(case_entry_outcome("d/.Ab", true, false, false, false, true), EntryOutcome::Skip);
    assert_eq!(case_entry_outcome("d/Ab", true, true, false, false, true), EntryOutcome::Skip);
    assert_eq!(case_entry_outcome("d/Ab", false, false, false, false, true), EntryOutcome::Skip);
}

#[test]
fn entries_with_hidden_attribute_are_skipped() {
    assert_eq!(entry_outcome("dir/a b.txt", true, false, true, " ", "_"), EntryOutcome::Skip);
    assert_eq!(case_entry_outcome("d/Ab.txt", true, false, true, false, true), EntryOutcome::Skip);
}

#[test]
fn plain_file_with_new_name_is_renamed() {
    assert_eq!(file_outcome("a_b", "_", "-"), FileOutcome::Rename("a-b".to_string()));
}

#[test]
fn directory_steps() {
    assert_eq!(directory_step(true), DirectoryStep::Walk);
    assert_eq!(directory_step(false), DirectoryStep::Quit);
}

#[test]
fn current_dir_argument() {
    assert!(names_current_dir("."));
    assert!(names_current_dir("./"));
    assert!(!names_current_dir("a"));
}

#[test]
fn rename_steps() {
    assert_eq!(rename_step(true, None), RenameStep::Rename);
    assert_eq!(rename_step(true, Some(false)), RenameStep::Rename);
    assert_eq!(rename_step(false, None), RenameStep::Ask);
    assert_eq!(rename_step(false, Some(true)), RenameStep::Rename);
    assert_eq!(rename_step(false, Some(false)), RenameStep::Decline);
}

#[test]
fn answers() {
    assert_eq!(answer_of("yes"), Some(true));
    assert_eq!(answer_of("y"), Some(true));
    assert_eq!(answer_of("no"), Some(false));
    assert_eq!(answer_of("n"), Some(false));
    assert_eq!(answer_of("Y"), None);
    assert_eq!(answer_of("ye"), None);
}

#[test]
fn typed_answers_are_trimmed_and_lowercased() {
    assert_eq!(parse_answer("Y\n"), Some(true));
    assert_eq!(parse_answer("  YES  \r\n"), Some(true));
    assert_eq!(parse_answer("No\n"), Some(false));
    assert_eq!(parse_answer("n"), Some(false));
    assert_eq!(parse_answer("maybe\n"), None);
    assert_eq!(parse_answer("\n"), None);
    assert_eq!(parse_answer("y e s"), None);
}
