use owo_colors::OwoColorize;
use rechifina::config::{log_file_path, program_dir_under};
use rechifina::messages::{
    case_dir_prompt, case_question, empty_dir_warning, interrupted_notice, log_report, logs_heading,
    nevermind_notice, rename_failed, rename_prompt, rename_question, rename_report, rename_success,
    replace_dir_prompt,
    unchanged_notice,
};

#[test]
fn unchanged_notice_text() {
    let expected = format!(
        "{} {} {}",
        "[🤨]".dimmed(),
        "The filename wouldn`t change".purple().bold(),
        "💥",
    );
    assert_eq!(unchanged_notice(), expected);
    assert_eq!(
        unchanged_notice(),
        "\u{1b}[2m[🤨]\u{1b}[0m \u{1b}[1m\u{1b}[35mThe filename wouldn`t change\u{1b}[39m\u{1b}[0m 💥"
    );
}

#[test]
fn nevermind_notice_text() {
    let expected = format!("{} {}", "[❌]".dimmed(), "Nevermind then".bold().dimmed());
    assert_eq!(nevermind_notice(), expected);
}

#[test]
fn case_dir_prompt_text() {
    let path = "/tmp/some dir";
    for (upper, tail) in [(true, "to uppercase? (y/n)"), (false, "to lowercase? (y/n)")] {
        let expected = format!(
            "{} {} {}{}{} {}",
            "[❓]".dimmed(),
            "Do you really want to change all files in".red().bold(),
            "[ \'".yellow(),
            path.to_string().italic(),
            "\' ]".yellow(),
            tail.red().bold(),
        );
        assert_eq!(case_dir_prompt(path, upper), expected);
    }
}

#[test]
fn replace_dir_prompt_text() {
    let expected = format!(
        "{} {} {}{}{} {} {}{}{} {} {}{}{} {}",
        "[❓]".dimmed(),
        "Do you really want to replace all".red().bold(),
        "[ \'".yellow(),
        " ",
        "\' ]".yellow(),
        "with".red().bold(),
        "[ \'".yellow(),
        "_",
        "\' ]".yellow(),
        "in all files in".red().bold(),
        "[ \'".yellow(),
        "docs".to_string().italic(),
        "\' ]".yellow(),
        "? (y/n)".red().bold(),
    );
    assert_eq!(replace_dir_prompt(" ", "_", "docs"), expected);
}

#[test]
fn rename_prompt_text() {
    let expected = format!(
        "{} {} {}{}{} {} {}{}{} {}\n{} {} {}{}{}\n{} {} {}{}{}",
        "[❓]".dimmed(),
        "Do you really want to replace all".red().bold(),
        "[ \'".yellow(),
        "a",
        "\' ]".yellow(),
        "with".red().bold(),
        "[ \'".yellow(),
        "b",
        "\' ]".yellow(),
        "in the file? (y/n)".red().bold(),
        " ↪  ".dimmed(),
        "Old name:".dimmed(),
        "[ \'".yellow(),
        "a.txt".italic().dimmed(),
        "\' ]".yellow(),
        " ↪  ".dimmed(),
        "New name:".bright_green(),
        "[ \'".yellow(),
        "b.txt".italic(),
        "\' ]".yellow(),
    );
    assert_eq!(rename_prompt("a", "b", "a.txt", "b.txt"), expected);
}

#[test]
fn rename_success_text() {
    let expected = format!(
        "{} {}\n{} {} {} {} {}\n{} {} {} {} {}",
        "[✔] ".dimmed(),
        "Successfully renamed".green().bold(),
        " ↪  ".dimmed(),
        "Old name:".dimmed(),
        "[".yellow(),
        "a b.txt".italic().dimmed(),
        "]".yellow(),
        " ↪  ".dimmed(),
        "New name:".bright_green(),
        "[".yellow(),
        "a_b.txt".italic(),
        "]".yellow()
    );
    assert_eq!(rename_success("a b.txt", "a_b.txt"), expected);
}

#[test]
fn log_messages() {
    assert_eq!(
        empty_dir_warning("docs"),
        format!("The given Directory {} is empty", "docs".to_string().italic())
    );
    assert_eq!(
        rename_failed("docs", "permission denied"),
        format!("Unable to rename {}. Error: {}", "docs".to_string().italic(), "permission denied")
    );
}

#[test]
fn interrupted_notice_text() {
    let expected = format!(
        "{} {} {} {}",
        "Received Ctrl-C!".bold().red(),
        "🤬",
        "Exit program!".bold().red(),
        "☠",
    );
    assert_eq!(interrupted_notice(), expected);
}

#[test]
fn log_report_texts() {
    assert_eq!(logs_heading(), format!("{}", "Available logs:".bold().yellow()));
    assert_eq!(
        log_report("/c/rechifina.log", Some("line 1\n")),
        format!("{} {}\n{}", "Log location:".italic().dimmed(), "/c/rechifina.log", "line 1\n")
    );
    assert_eq!(
        log_report("/c/rechifina.log", None),
        format!("{} {}", "No log file found:".red().bold().to_string(), "/c/rechifina.log")
    );
}

#[test]
fn config_paths() {
    assert_eq!(
        program_dir_under(Some("/home/alice/.config".to_string())),
        Some("/home/alice/.config/rechifina".to_string())
    );
    assert_eq!(program_dir_under(None), None);
    assert_eq!(log_file_path("/home/alice/.config/rechifina"), "/home/alice/.config/rechifina/rechifina.log");
}

#[test]
fn rename_texts_name_final_components() {
    assert_eq!(
        rename_question("a", "b", "dir/a.txt", "dir/b.txt"),
        Some(rename_prompt("a", "b", "a.txt", "b.txt"))
    );
    assert_eq!(rename_report("dir/a b.txt", "a_b.txt"), Some(rename_success("a b.txt", "a_b.txt")));
    assert_eq!(rename_question("a", "b", "/", "b.txt"), None);
    assert_eq!(rename_report("a.txt", "x/.."), None);
}

#[test]
fn case_question_text() {
    let expected = format!(
        "{} {}\n{} {} {}{}{}\n{} {} {}{}{}",
        "[❓]".dimmed(),
        "Do you really want to change the filename to uppercase? (y/n)".red().bold(),
        " ↪  ".dimmed(),
        "Old name:".dimmed(),
        "[ \'".yellow(),
        "a.txt".italic().dimmed(),
        "\' ]".yellow(),
        " ↪  ".dimmed(),
        "New name:".bright_green(),
        "[ \'".yellow(),
        "A.TXT".italic(),
        "\' ]".yellow(),
    );
    assert_eq!(case_question("d/a.txt", "d/A.TXT", true), Some(expected));
    assert_eq!(case_question("/", "A", false), None);
}
