//! The decisions of a renaming run: what to do with the arguments, with the
//! file or directory they name, and with each entry of a directory. The
//! caller does the file-system work and hands the facts back.
use vstd::prelude::*;
use crate::paths::{
    extension_of, file_name_of, get_new_name, in_parent, lemma_plain_name_recomposed,
    lands_in, new_name_of_path, new_part_of_path, or_empty, parent_of, path_file_name, path_parent, paths_equal,
    place_in_parent, plain_name, recomposed, same_path, stem_of, NameError,
};
use crate::replace::{contains_seq, lemma_absent_pattern_unchanged};
use crate::text::{chars_of, lowercase_of, lowercased, uppercase_of, uppercased};

verus! {

/// What the file system says about the path that was given.
#[derive(Debug, Clone, Copy, PartialEq, Eq, Structural)]
pub enum PathKind {
    /// Nothing exists at the path, or it cannot be reached.
    Missing,
    /// A regular file.
    File,
    /// A directory.
    Dir,
    /// Something that exists but is neither.
    Other,
}

/// Why a run stops with an error.
#[derive(Debug, Clone, Copy, PartialEq, Eq, Structural)]
pub enum Failure {
    /// No path argument was given.
    MissingPath,
    /// The path does not exist or is not accessible.
    PathNotFound,
    /// The path is neither a file nor a directory, or the arguments do not
    /// fit the path.
    NotFileOrDir,
    /// The path is not a file or directory while both characters were given.
    MissingChars,
}

/// The work that the arguments call for.
#[derive(Debug, Clone, Copy, PartialEq, Eq, Structural)]
pub enum Plan {
    /// Stop with the given error.
    Fail(Failure),
    /// Change the case of the name of the file.
    CaseFile,
    /// Change the case of the names of the files in the directory, after
    /// asking.
    CaseDir,
    /// Replace characters in the name of the file.
    ReplaceFile,
    /// Replace characters in the names of the files in the directory,
    /// after asking.
    ReplaceDir,
}

/// The plan for `arg_count` positional arguments (path, character to
/// replace, new character), the case flags, and the kind of the path.
pub open spec fn plan_spec(arg_count: nat, case_flag: bool, kind: PathKind) -> Plan {
    if arg_count == 0 {
        Plan::Fail(Failure::MissingPath)
    } else if kind == PathKind::Missing {
        Plan::Fail(Failure::PathNotFound)
    } else if case_flag {
        match kind {
            PathKind::File => Plan::CaseFile,
            PathKind::Dir => Plan::CaseDir,
            _ => Plan::Fail(Failure::NotFileOrDir),
        }
    } else if arg_count == 3 {
        match kind {
            PathKind::File => Plan::ReplaceFile,
            PathKind::Dir => Plan::ReplaceDir,
            _ => Plan::Fail(Failure::MissingChars),
        }
    } else {
        Plan::Fail(Failure::NotFileOrDir)
    }
}

/// Decides what to do. `kind` describes the first argument (after `.` has
/// been resolved); it is not looked at when there are no arguments.
pub fn plan(arg_count: usize, uppercase_flag: bool, lowercase_flag: bool, kind: PathKind) -> (res: Plan)
    ensures
        res == plan_spec(arg_count as nat, uppercase_flag || lowercase_flag, kind),
        arg_count == 0 ==> res == Plan::Fail(Failure::MissingPath),
        arg_count > 0 && kind == PathKind::Missing ==> res == Plan::Fail(Failure::PathNotFound),
        arg_count > 0 && (uppercase_flag || lowercase_flag) && kind == PathKind::File ==> res == Plan::CaseFile,
        arg_count > 0 && (uppercase_flag || lowercase_flag) && kind == PathKind::Dir ==> res == Plan::CaseDir,
        arg_count == 3 && !uppercase_flag && !lowercase_flag && kind == PathKind::File ==> res == Plan::ReplaceFile,
        arg_count == 3 && !uppercase_flag && !lowercase_flag && kind == PathKind::Dir ==> res == Plan::ReplaceDir,
        res == Plan::ReplaceFile || res == Plan::ReplaceDir ==> arg_count == 3 && !uppercase_flag && !lowercase_flag,
        res == Plan::CaseFile || res == Plan::CaseDir ==> arg_count > 0 && (uppercase_flag || lowercase_flag),
{
    if arg_count == 0 {
        return Plan::Fail(Failure::MissingPath);
    }
    match kind {
        PathKind::Missing => Plan::Fail(Failure::PathNotFound),
        PathKind::File => {
            if uppercase_flag || lowercase_flag {
                Plan::CaseFile
            } else if arg_count == 3 {
                Plan::ReplaceFile
            } else {
                Plan::Fail(Failure::NotFileOrDir)
            }
        },
        PathKind::Dir => {
            if uppercase_flag || lowercase_flag {
                Plan::CaseDir
            } else if arg_count == 3 {
                Plan::ReplaceDir
            } else {
                Plan::Fail(Failure::NotFileOrDir)
            }
        },
        PathKind::Other => {
            if uppercase_flag || lowercase_flag {
                Plan::Fail(Failure::NotFileOrDir)
            } else if arg_count == 3 {
                Plan::Fail(Failure::MissingChars)
            } else {
                Plan::Fail(Failure::NotFileOrDir)
            }
        },
    }
}

/// The error message for a failure.
pub open spec fn failure_text(f: Failure) -> Seq<char> {
    match f {
        Failure::MissingPath => "Missing path argument. The path to the file or directory must be the first argument."@,
        Failure::PathNotFound => "Path doesn`t exist or you don`t have access"@,
        Failure::NotFileOrDir => "Path is not a file or directory"@,
        Failure::MissingChars => "Missing command or at least one required argument: [CHAR_TO_REPLACE] [NEW_CHAR]"@,
    }
}

/// The error message that is logged for a failure.
pub fn failure_message(f: Failure) -> (res: String)
    ensures
        res@ == failure_text(f),
{
    match f {
        Failure::MissingPath => String::from_str(
            "Missing path argument. The path to the file or directory must be the first argument.",
        ),
        Failure::PathNotFound => String::from_str("Path doesn`t exist or you don`t have access"),
        Failure::NotFileOrDir => String::from_str("Path is not a file or directory"),
        Failure::MissingChars => String::from_str(
            "Missing command or at least one required argument: [CHAR_TO_REPLACE] [NEW_CHAR]",
        ),
    }
}

/// Whether the argument `arg` names the current directory (`.`).
pub fn names_current_dir(arg: &str) -> (res: bool)
    ensures
        res == paths_equal(arg@, "."@),
{
    same_path(arg, ".")
}

/// The path that an argument stands for: `.` stands for the current
/// directory.
pub fn resolve_path(arg: &str, current_dir: &str) -> (res: String)
    ensures
        res@ == (if paths_equal(arg@, "."@) { current_dir@ } else { arg@ }),
{
    if same_path(arg, ".") {
        String::from_str(current_dir)
    } else {
        String::from_str(arg)
    }
}

/// What happens to a single file whose name is to change.
#[derive(Debug, PartialEq, Eq)]
pub enum FileOutcome {
    /// The path has no file name: the run stops with an error.
    NoStem,
    /// The new name would be empty: the run fails with invalid data.
    EmptyName,
    /// The new name is the old path: nothing to do.
    Unchanged,
    /// Rename the file to this path.
    Rename(String),
}

/// The outcome for a file, given the new name that its path gives.
pub open spec fn file_outcome_spec(path: Seq<char>, new_name: Option<Seq<char>>) -> FileOutcomeView {
    match new_name {
        None => FileOutcomeView::NoStem,
        Some(n) => if n.len() == 0 {
            FileOutcomeView::EmptyName
        } else if paths_equal(path, n) {
            FileOutcomeView::Unchanged
        } else {
            FileOutcomeView::Rename(n)
        },
    }
}

/// A file outcome with the new name seen as characters.
pub enum FileOutcomeView {
    NoStem,
    EmptyName,
    Unchanged,
    Rename(Seq<char>),
}

impl View for FileOutcome {
    type V = FileOutcomeView;

    open spec fn view(&self) -> FileOutcomeView {
        match self {
            FileOutcome::NoStem => FileOutcomeView::NoStem,
            FileOutcome::EmptyName => FileOutcomeView::EmptyName,
            FileOutcome::Unchanged => FileOutcomeView::Unchanged,
            FileOutcome::Rename(s) => FileOutcomeView::Rename(s@),
        }
    }
}

/// Decides what to do with the file at `path` when `replace_char` is to be
/// replaced by `new_char` in its name.
/// A file given by a plain name whose stem lacks the (non-empty) text to
/// replace is left alone; one whose new name is a different plain name is
/// renamed to it.
pub fn file_outcome(path: &str, replace_char: &str, new_char: &str) -> (res: FileOutcome)
    ensures
        res@ == file_outcome_spec(path@, new_name_of_path(path@, replace_char@, new_char@)),
        plain_name(path@) && replace_char@.len() > 0 && !contains_seq(stem_of(path@), replace_char@)
            ==> res == FileOutcome::Unchanged,
        plain_name(path@) && plain_name(new_part_of_path(path@, replace_char@, new_char@))
            && new_part_of_path(path@, replace_char@, new_char@) != path@
            ==> res@ == FileOutcomeView::Rename(new_part_of_path(path@, replace_char@, new_char@)),
        new_name_of_path(path@, replace_char@, new_char@) matches Some(n) ==> (n.len() > 0 && !paths_equal(path@, n)
            ==> res@ == FileOutcomeView::Rename(n)),
        res matches FileOutcome::Rename(q) ==> (plain_name(new_part_of_path(path@, replace_char@, new_char@))
            ==> lands_in(q@, or_empty(path_parent(path@)), new_part_of_path(path@, replace_char@, new_char@))),
{
    match get_new_name(replace_char, new_char, path) {
        Err(NameError::NoFileStem) => FileOutcome::NoStem,
        Ok(name) => {
            proof {
                if plain_name(path@) && replace_char@.len() > 0 && !contains_seq(stem_of(path@), replace_char@) {
                    lemma_absent_pattern_unchanged(stem_of(path@), replace_char@, new_char@);
                    lemma_plain_name_recomposed(path@);
                    assert(name@ == recomposed(Seq::<char>::empty(), stem_of(path@), extension_of(path@)));
                    assert(name@ == path@);
                }
            }
            if name.unicode_len() == 0 {
                FileOutcome::EmptyName
            } else if same_path(path, name.as_str()) {
                FileOutcome::Unchanged
            } else {
                FileOutcome::Rename(name)
            }
        },
    }
}

/// What happens to one entry of a directory.
#[derive(Debug, PartialEq, Eq)]
pub enum EntryOutcome {
    /// Leave the entry alone.
    Skip,
    /// The entry has no file name: the run stops with an error.
    NoStem,
    /// Rename the entry to this path.
    Rename(String),
}

/// An entry outcome with the new name seen as characters.
pub enum EntryOutcomeView {
    Skip,
    NoStem,
    Rename(Seq<char>),
}

impl View for EntryOutcome {
    type V = EntryOutcomeView;

    open spec fn view(&self) -> EntryOutcomeView {
        match self {
            EntryOutcome::Skip => EntryOutcomeView::Skip,
            EntryOutcome::NoStem => EntryOutcomeView::NoStem,
            EntryOutcome::Rename(s) => EntryOutcomeView::Rename(s@),
        }
    }
}

/// A hidden entry: its file name starts with a `.`.
pub open spec fn hidden_spec(path: Seq<char>) -> bool {
    path_file_name(path) matches Some(n) && n.len() > 0 && n[0] == '.'
}

/// Whether the entry at `path` is hidden (its name starts with a `.`).
pub fn is_hidden(path: &str) -> (res: bool)
    ensures
        res == hidden_spec(path@),
{
    match file_name_of(path) {
        Some(n) => {
            let c = chars_of(n.as_str());
            c.len() > 0 && c[0] == '.'
        },
        None => false,
    }
}

/// Whether a directory entry takes part in a run at all: only regular
/// files that are neither symbolic links nor hidden do; directories,
/// symbolic links and hidden files are skipped. A file is hidden when its
/// name starts with a `.` or when the file system marks it hidden
/// (`hidden_attribute`, the hidden attribute on Windows).
pub open spec fn entry_considered(entry: Seq<char>, is_file: bool, is_symlink: bool, hidden_attribute: bool) -> bool {
    is_file && !is_symlink && !hidden_attribute && !hidden_spec(entry)
}

/// The outcome for a directory entry: entries that are skipped (see
/// `entry_considered`), whose new name would be empty, or whose new name is
/// their path, are left alone.
pub open spec fn entry_outcome_spec(
    entry: Seq<char>,
    is_file: bool,
    is_symlink: bool,
    hidden_attribute: bool,
    new_name: Option<Seq<char>>,
) -> EntryOutcomeView {
    if !entry_considered(entry, is_file, is_symlink, hidden_attribute) {
        EntryOutcomeView::Skip
    } else {
        match new_name {
            None => EntryOutcomeView::NoStem,
            Some(n) => if n.len() == 0 || paths_equal(entry, n) {
                EntryOutcomeView::Skip
            } else {
                EntryOutcomeView::Rename(n)
            },
        }
    }
}

/// Decides what to do with the directory entry at `entry`, given whether it
/// is a regular file (following symbolic links), whether it is itself a
/// symbolic link, and whether the file system marks it hidden. A renamed
/// entry stays in its directory, under its new file name.
pub fn entry_outcome(
    entry: &str,
    is_file: bool,
    is_symlink: bool,
    hidden_attribute: bool,
    replace_char: &str,
    new_char: &str,
) -> (res: EntryOutcome)
    ensures
        res@ == entry_outcome_spec(
            entry@,
            is_file,
            is_symlink,
            hidden_attribute,
            new_name_of_path(entry@, replace_char@, new_char@),
        ),
        res matches EntryOutcome::Rename(q) ==> (plain_name(new_part_of_path(entry@, replace_char@, new_char@))
            ==> lands_in(q@, or_empty(path_parent(entry@)), new_part_of_path(entry@, replace_char@, new_char@))),
        is_file && !is_symlink && !hidden_attribute
            && !(path_file_name(entry@) matches Some(f) && f.len() > 0 && f[0] == '.')
            ==> (new_name_of_path(entry@, replace_char@, new_char@) matches Some(n)
                ==> (n.len() > 0 && !paths_equal(entry@, n) ==> res@ == EntryOutcomeView::Rename(n))),
        res matches EntryOutcome::Rename(q) ==> is_file && !is_symlink && !hidden_attribute
            && !(path_file_name(entry@) matches Some(f) && f.len() > 0 && f[0] == '.')
            && new_name_of_path(entry@, replace_char@, new_char@) == Some(q@)
            && q@.len() > 0 && !paths_equal(entry@, q@),
{
    if !is_file || is_symlink || hidden_attribute || is_hidden(entry) {
        return EntryOutcome::Skip;
    }
    match get_new_name(replace_char, new_char, entry) {
        Err(NameError::NoFileStem) => EntryOutcome::NoStem,
        Ok(name) => {
            if name.unicode_len() == 0 {
                EntryOutcome::Skip
            } else if same_path(entry, name.as_str()) {
                EntryOutcome::Skip
            } else {
                EntryOutcome::Rename(name)
            }
        },
    }
}

/// A file name in upper case (when `upper`) or in lower case.
pub open spec fn case_changed(name: Seq<char>, upper: bool) -> Seq<char> {
    if upper {
        uppercased(name)
    } else {
        lowercased(name)
    }
}

/// The path with the case of its file name changed, in the same parent; a
/// path without a file name stays as it is.
pub open spec fn case_name_spec(path: Seq<char>, upper: bool) -> Seq<char> {
    match path_file_name(path) {
        Some(f) => in_parent(or_empty(path_parent(path)), case_changed(f, upper)),
        None => path,
    }
}

/// The path that changing the case of the file name at `path` gives: upper
/// case when `uppercase_flag` is set, lower case otherwise (so upper case
/// wins when both flags are given).
pub fn show_lower_or_upper_name(path: &str, uppercase_flag: bool, lowercase_flag: bool) -> (res: String)
    ensures
        res@ == case_name_spec(path@, uppercase_flag),
        plain_name(path@) ==> res@ == case_changed(path@, uppercase_flag),
        path_file_name(path@) matches Some(f) ==> (plain_name(case_changed(f, uppercase_flag))
            ==> lands_in(res@, or_empty(path_parent(path@)), case_changed(f, uppercase_flag))),
        path_file_name(path@) is None ==> res@ == path@,
{
    match file_name_of(path) {
        None => String::from_str(path),
        Some(f) => {
            let changed = if uppercase_flag {
                uppercase_of(f.as_str())
            } else {
                lowercase_of(f.as_str())
            };
            let parent = match parent_of(path) {
                Some(p) => p,
                None => String::new(),
            };
            place_in_parent(parent.as_str(), changed.as_str())
        },
    }
}

/// What happens when the case of a name is to change.
#[derive(Debug, PartialEq, Eq)]
pub enum CaseOutcome {
    /// The new name is the old path: nothing to do.
    Unchanged,
    /// Rename to this path.
    Convert(String),
}

/// Decides what to do when the case of the file name at `path` is to
/// change.
pub fn case_outcome(path: &str, uppercase_flag: bool, lowercase_flag: bool) -> (res: CaseOutcome)
    ensures
        match res {
            CaseOutcome::Unchanged => paths_equal(path@, case_name_spec(path@, uppercase_flag)),
            CaseOutcome::Convert(n) => n@ == case_name_spec(path@, uppercase_flag)
                && !paths_equal(path@, n@),
        },
        res matches CaseOutcome::Convert(n) ==> (path_file_name(path@) matches Some(f) ==> (
            plain_name(case_changed(f, uppercase_flag))
            ==> lands_in(n@, or_empty(path_parent(path@)), case_changed(f, uppercase_flag)))),
{
    let name = show_lower_or_upper_name(path, uppercase_flag, lowercase_flag);
    if same_path(path, name.as_str()) {
        CaseOutcome::Unchanged
    } else {
        CaseOutcome::Convert(name)
    }
}

/// Decides what to do with a directory entry when the case of names is to
/// change: entries that are skipped (see `entry_considered`) or whose name
/// would not change are left alone.
pub fn case_entry_outcome(
    entry: &str,
    is_file: bool,
    is_symlink: bool,
    hidden_attribute: bool,
    uppercase_flag: bool,
    lowercase_flag: bool,
) -> (res: EntryOutcome)
    ensures
        res@ == (if !entry_considered(entry@, is_file, is_symlink, hidden_attribute)
            || paths_equal(entry@, case_name_spec(entry@, uppercase_flag)) {
            EntryOutcomeView::Skip
        } else {
            EntryOutcomeView::Rename(case_name_spec(entry@, uppercase_flag))
        }),
        res matches EntryOutcome::Rename(n) ==> (path_file_name(entry@) matches Some(f) ==> (
            plain_name(case_changed(f, uppercase_flag))
            ==> lands_in(n@, or_empty(path_parent(entry@)), case_changed(f, uppercase_flag)))),
{
    if !is_file || is_symlink || hidden_attribute || is_hidden(entry) {
        return EntryOutcome::Skip;
    }
    match case_outcome(entry, uppercase_flag, lowercase_flag) {
        CaseOutcome::Unchanged => EntryOutcome::Skip,
        CaseOutcome::Convert(n) => EntryOutcome::Rename(n),
    }
}

/// What to do after asking whether to work through a whole directory.
#[derive(Debug, Clone, Copy, PartialEq, Eq, Structural)]
pub enum DirectoryStep {
    /// Go through the entries.
    Walk,
    /// Say that nothing is done and end the run successfully.
    Quit,
}

/// A confirmed directory question walks the directory; a declined one ends
/// the run.
pub fn directory_step(confirmed: bool) -> (res: DirectoryStep)
    ensures
        res == (if confirmed { DirectoryStep::Walk } else { DirectoryStep::Quit }),
{
    if confirmed {
        DirectoryStep::Walk
    } else {
        DirectoryStep::Quit
    }
}

/// The next step when a file is to be renamed.
#[derive(Debug, Clone, Copy, PartialEq, Eq, Structural)]
pub enum RenameStep {
    /// Rename the file now and report it.
    Rename,
    /// Ask the user first.
    Ask,
    /// The user declined: say so and leave the file alone.
    Decline,
}

/// With `all_flag` a file is renamed without asking; otherwise the user is
/// asked, and the answer decides.
pub open spec fn rename_step_spec(all_flag: bool, answer: Option<bool>) -> RenameStep {
    if all_flag {
        RenameStep::Rename
    } else {
        match answer {
            None => RenameStep::Ask,
            Some(true) => RenameStep::Rename,
            Some(false) => RenameStep::Decline,
        }
    }
}

/// Decides the next step of renaming one file, given the answer to the
/// question if it was asked.
pub fn rename_step(all_flag: bool, answer: Option<bool>) -> (res: RenameStep)
    ensures
        res == rename_step_spec(all_flag, answer),
{
    if all_flag {
        RenameStep::Rename
    } else {
        match answer {
            None => RenameStep::Ask,
            Some(true) => RenameStep::Rename,
            Some(false) => RenameStep::Decline,
        }
    }
}

} // verus!
