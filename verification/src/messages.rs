//! The texts that the program shows: prompts, notices and reports.
use vstd::prelude::*;
use crate::paths::{file_name_of, path_file_name};
use crate::style::{
    bold, bold_text, bright_green, bright_green_text, dimmed, dimmed_text, green, green_text, italic,
    italic_text, purple, purple_text, red, red_text, yellow, yellow_text,
};

verus! {

/// `[🤨] The filename wouldn`t change 💥`, the marker dimmed and the
/// sentence bold purple.
pub open spec fn unchanged_text() -> Seq<char> {
    dimmed_text("[🤨]"@) + " "@ + bold_text(purple_text("The filename wouldn`t change"@)) + " "@ + "💥"@
}

/// Shown when a new name would be the old one.
pub fn unchanged_notice() -> (res: String)
    ensures
        res@ == unchanged_text(),
{
    let mut m = dimmed("[🤨]");
    m.append(" ");
    let p = purple("The filename wouldn`t change");
    let b = bold(p.as_str());
    m.append(b.as_str());
    m.append(" ");
    m.append("💥");
    m
}

/// `[❌] Nevermind then`, all dimmed, the sentence bold.
pub open spec fn nevermind_text() -> Seq<char> {
    dimmed_text("[❌]"@) + " "@ + dimmed_text(bold_text("Nevermind then"@))
}

/// Shown when the user declines.
pub fn nevermind_notice() -> (res: String)
    ensures
        res@ == nevermind_text(),
{
    let mut m = dimmed("[❌]");
    m.append(" ");
    let b = bold("Nevermind then");
    let d = dimmed(b.as_str());
    m.append(d.as_str());
    m
}

/// `text` between yellow `[ '` and `' ]`.
pub open spec fn quoted(text: Seq<char>) -> Seq<char> {
    yellow_text("[ \'"@) + text + yellow_text("\' ]"@)
}

fn quote(text: &str) -> (res: String)
    ensures
        res@ == quoted(text@),
{
    let mut m = yellow("[ \'");
    m.append(text);
    let close = yellow("\' ]");
    m.append(close.as_str());
    m
}

fn warn_word(text: &str) -> (res: String)
    ensures
        res@ == bold_text(red_text(text@)),
{
    let r = red(text);
    bold(r.as_str())
}

/// The question asked before changing the case of all files in a directory.
pub open spec fn case_dir_prompt_text(path: Seq<char>, upper: bool) -> Seq<char> {
    dimmed_text("[❓]"@) + " "@ + bold_text(red_text("Do you really want to change all files in"@)) + " "@
        + quoted(italic_text(path)) + " "@
        + bold_text(red_text(if upper { "to uppercase? (y/n)"@ } else { "to lowercase? (y/n)"@ }))
}

/// The question asked before changing the case of all files in `path`.
pub fn case_dir_prompt(path: &str, upper: bool) -> (res: String)
    ensures
        res@ == case_dir_prompt_text(path@, upper),
{
    let mut m = dimmed("[❓]");
    m.append(" ");
    let w = warn_word("Do you really want to change all files in");
    m.append(w.as_str());
    m.append(" ");
    let it = italic(path);
    let q = quote(it.as_str());
    m.append(q.as_str());
    m.append(" ");
    let tail = if upper { warn_word("to uppercase? (y/n)") } else { warn_word("to lowercase? (y/n)") };
    m.append(tail.as_str());
    m
}

/// The question asked before replacing `replace_char` by `new_char` in the
/// names of all files in a directory.
pub open spec fn replace_dir_prompt_text(replace_char: Seq<char>, new_char: Seq<char>, path: Seq<char>) -> Seq<char> {
    dimmed_text("[❓]"@) + " "@ + bold_text(red_text("Do you really want to replace all"@)) + " "@
        + quoted(replace_char) + " "@ + bold_text(red_text("with"@)) + " "@
        + quoted(new_char) + " "@ + bold_text(red_text("in all files in"@)) + " "@
        + quoted(italic_text(path)) + " "@ + bold_text(red_text("? (y/n)"@))
}

/// The question asked before replacing characters in all files in `path`.
pub fn replace_dir_prompt(replace_char: &str, new_char: &str, path: &str) -> (res: String)
    ensures
        res@ == replace_dir_prompt_text(replace_char@, new_char@, path@),
{
    let mut m = dimmed("[❓]");
    m.append(" ");
    let w = warn_word("Do you really want to replace all");
    m.append(w.as_str());
    m.append(" ");
    let q = quote(replace_char);
    m.append(q.as_str());
    m.append(" ");
    let w = warn_word("with");
    m.append(w.as_str());
    m.append(" ");
    let q = quote(new_char);
    m.append(q.as_str());
    m.append(" ");
    let w = warn_word("in all files in");
    m.append(w.as_str());
    m.append(" ");
    let it = italic(path);
    let q = quote(it.as_str());
    m.append(q.as_str());
    m.append(" ");
    let w = warn_word("? (y/n)");
    m.append(w.as_str());
    m
}

/// The two lines naming the old and the new file name; `open` and `close`
/// surround each name, `sep` stands between them and the name.
pub open spec fn names_text(
    old_name: Seq<char>,
    new_name: Seq<char>,
    open: Seq<char>,
    close: Seq<char>,
    sep: Seq<char>,
) -> Seq<char> {
    dimmed_text(" ↪  "@) + " "@ + dimmed_text("Old name:"@) + " "@ + yellow_text(open) + sep
        + dimmed_text(italic_text(old_name)) + sep + yellow_text(close) + "\n"@
        + dimmed_text(" ↪  "@) + " "@ + bright_green_text("New name:"@) + " "@ + yellow_text(open) + sep
        + italic_text(new_name) + sep + yellow_text(close)
}

fn names_lines(old_name: &str, new_name: &str, open: &str, close: &str, sep: &str) -> (res: String)
    ensures
        res@ == names_text(old_name@, new_name@, open@, close@, sep@),
{
    let mut m = dimmed(" ↪  ");
    m.append(" ");
    let t = dimmed("Old name:");
    m.append(t.as_str());
    m.append(" ");
    let t = yellow(open);
    m.append(t.as_str());
    m.append(sep);
    let t = italic(old_name);
    let t = dimmed(t.as_str());
    m.append(t.as_str());
    m.append(sep);
    let t = yellow(close);
    m.append(t.as_str());
    m.append("\n");
    let t = dimmed(" ↪  ");
    m.append(t.as_str());
    m.append(" ");
    let t = bright_green("New name:");
    m.append(t.as_str());
    m.append(" ");
    let t = yellow(open);
    m.append(t.as_str());
    m.append(sep);
    let t = italic(new_name);
    m.append(t.as_str());
    m.append(sep);
    let t = yellow(close);
    m.append(t.as_str());
    m
}

/// The question asked before renaming one file.
pub open spec fn rename_prompt_text(
    replace_char: Seq<char>,
    new_char: Seq<char>,
    old_name: Seq<char>,
    new_name: Seq<char>,
) -> Seq<char> {
    dimmed_text("[❓]"@) + " "@ + bold_text(red_text("Do you really want to replace all"@)) + " "@
        + quoted(replace_char) + " "@ + bold_text(red_text("with"@)) + " "@
        + quoted(new_char) + " "@ + bold_text(red_text("in the file? (y/n)"@)) + "\n"@
        + names_text(old_name, new_name, "[ \'"@, "\' ]"@, ""@)
}

/// The question asked before renaming the file `old_name` to `new_name`.
pub fn rename_prompt(replace_char: &str, new_char: &str, old_name: &str, new_name: &str) -> (res: String)
    ensures
        res@ == rename_prompt_text(replace_char@, new_char@, old_name@, new_name@),
{
    let mut m = dimmed("[❓]");
    m.append(" ");
    let w = warn_word("Do you really want to replace all");
    m.append(w.as_str());
    m.append(" ");
    let q = quote(replace_char);
    m.append(q.as_str());
    m.append(" ");
    let w = warn_word("with");
    m.append(w.as_str());
    m.append(" ");
    let q = quote(new_char);
    m.append(q.as_str());
    m.append(" ");
    let w = warn_word("in the file? (y/n)");
    m.append(w.as_str());
    m.append("\n");
    let n = names_lines(old_name, new_name, "[ \'", "\' ]", "");
    m.append(n.as_str());
    m
}

/// The report of a successful rename.
pub open spec fn rename_success_text(old_name: Seq<char>, new_name: Seq<char>) -> Seq<char> {
    dimmed_text("[✔] "@) + " "@ + bold_text(green_text("Successfully renamed"@)) + "\n"@
        + names_text(old_name, new_name, "["@, "]"@, " "@)
}

/// Reports that `old_name` was renamed to `new_name`.
pub fn rename_success(old_name: &str, new_name: &str) -> (res: String)
    ensures
        res@ == rename_success_text(old_name@, new_name@),
{
    let mut m = dimmed("[✔] ");
    m.append(" ");
    let g = green("Successfully renamed");
    let b = bold(g.as_str());
    m.append(b.as_str());
    m.append("\n");
    let n = names_lines(old_name, new_name, "[", "]", " ");
    m.append(n.as_str());
    m
}

/// The question asked before renaming the file at `path` to `new_path`,
/// naming both by their final components; `None` when either path has no
/// final component.
pub fn rename_question(replace_char: &str, new_char: &str, path: &str, new_path: &str) -> (res: Option<String>)
    ensures
        match res {
            Some(m) => path_file_name(path@) matches Some(a) && path_file_name(new_path@) matches Some(b)
                && m@ == rename_prompt_text(replace_char@, new_char@, a, b),
            None => path_file_name(path@) is None || path_file_name(new_path@) is None,
        },
{
    match (file_name_of(path), file_name_of(new_path)) {
        (Some(a), Some(b)) => Some(rename_prompt(replace_char, new_char, a.as_str(), b.as_str())),
        _ => None,
    }
}

/// The report that the file at `path` was renamed to `new_path`, naming
/// both by their final components; `None` when either path has no final
/// component.
pub fn rename_report(path: &str, new_path: &str) -> (res: Option<String>)
    ensures
        match res {
            Some(m) => path_file_name(path@) matches Some(a) && path_file_name(new_path@) matches Some(b)
                && m@ == rename_success_text(a, b),
            None => path_file_name(path@) is None || path_file_name(new_path@) is None,
        },
{
    match (file_name_of(path), file_name_of(new_path)) {
        (Some(a), Some(b)) => Some(rename_success(a.as_str(), b.as_str())),
        _ => None,
    }
}

/// The question asked before changing the case of one file's name.
pub open spec fn case_prompt_text(old_name: Seq<char>, new_name: Seq<char>, upper: bool) -> Seq<char> {
    dimmed_text("[❓]"@) + " "@
        + bold_text(red_text(if upper {
            "Do you really want to change the filename to uppercase? (y/n)"@
        } else {
            "Do you really want to change the filename to lowercase? (y/n)"@
        })) + "\n"@ + names_text(old_name, new_name, "[ \'"@, "\' ]"@, ""@)
}

/// The question asked before changing the case of the name of the file at
/// `path` to give `new_path`, naming both by their final components;
/// `None` when either path has no final component.
pub fn case_question(path: &str, new_path: &str, upper: bool) -> (res: Option<String>)
    ensures
        match res {
            Some(m) => path_file_name(path@) matches Some(a) && path_file_name(new_path@) matches Some(b)
                && m@ == case_prompt_text(a, b, upper),
            None => path_file_name(path@) is None || path_file_name(new_path@) is None,
        },
{
    match (file_name_of(path), file_name_of(new_path)) {
        (Some(a), Some(b)) => {
            let mut m = dimmed("[❓]");
            m.append(" ");
            let w = if upper {
                warn_word("Do you really want to change the filename to uppercase? (y/n)")
            } else {
                warn_word("Do you really want to change the filename to lowercase? (y/n)")
            };
            m.append(w.as_str());
            m.append("\n");
            let n = names_lines(a.as_str(), b.as_str(), "[ \'", "\' ]", "");
            m.append(n.as_str());
            Some(m)
        },
        _ => None,
    }
}

/// The warning logged for an empty directory.
pub open spec fn empty_dir_text(path: Seq<char>) -> Seq<char> {
    "The given Directory "@ + italic_text(path) + " is empty"@
}

/// Warns that the directory `path` is empty.
pub fn empty_dir_warning(path: &str) -> (res: String)
    ensures
        res@ == empty_dir_text(path@),
{
    let mut m = String::from_str("The given Directory ");
    let it = italic(path);
    m.append(it.as_str());
    m.append(" is empty");
    m
}

/// The error logged when renaming a file fails.
pub open spec fn rename_failed_text(path: Seq<char>, error: Seq<char>) -> Seq<char> {
    "Unable to rename "@ + italic_text(path) + ". Error: "@ + error
}

/// Reports that renaming in `path` failed with `error`.
pub fn rename_failed(path: &str, error: &str) -> (res: String)
    ensures
        res@ == rename_failed_text(path@, error@),
{
    let mut m = String::from_str("Unable to rename ");
    let it = italic(path);
    m.append(it.as_str());
    m.append(". Error: ");
    m.append(error);
    m
}

/// The notice shown when the user interrupts the program.
pub open spec fn interrupted_text() -> Seq<char> {
    red_text(bold_text("Received Ctrl-C!"@)) + " "@ + "🤬"@ + " "@
        + red_text(bold_text("Exit program!"@)) + " "@ + "☠"@
}

/// Shown when the user presses Ctrl-C.
pub fn interrupted_notice() -> (res: String)
    ensures
        res@ == interrupted_text(),
{
    let b = bold("Received Ctrl-C!");
    let mut m = red(b.as_str());
    m.append(" ");
    m.append("🤬");
    m.append(" ");
    let b = bold("Exit program!");
    let r = red(b.as_str());
    m.append(r.as_str());
    m.append(" ");
    m.append("☠");
    m
}

/// The heading above the log file's content.
pub open spec fn logs_heading_text() -> Seq<char> {
    yellow_text(bold_text("Available logs:"@))
}

/// The heading shown above the log.
pub fn logs_heading() -> (res: String)
    ensures
        res@ == logs_heading_text(),
{
    let b = bold("Available logs:");
    yellow(b.as_str())
}

/// The report on the log file at `log_path`: its location and content when
/// it exists, otherwise a notice that there is none.
pub open spec fn log_report_text(log_path: Seq<char>, content: Option<Seq<char>>) -> Seq<char> {
    match content {
        Some(c) => dimmed_text(italic_text("Log location:"@)) + " "@ + log_path + "\n"@ + c,
        None => bold_text(red_text("No log file found:"@)) + " "@ + log_path,
    }
}

/// Describes the log file at `log_path`, given its content if it exists.
pub fn log_report(log_path: &str, content: Option<&str>) -> (res: String)
    ensures
        res@ == log_report_text(log_path@, match content { Some(c) => Some(c@), None => None }),
{
    match content {
        Some(c) => {
            let i = italic("Log location:");
            let mut m = dimmed(i.as_str());
            m.append(" ");
            m.append(log_path);
            m.append("\n");
            m.append(c);
            m
        },
        None => {
            let mut m = warn_word("No log file found:");
            m.append(" ");
            m.append(log_path);
            m
        },
    }
}

} // verus!
