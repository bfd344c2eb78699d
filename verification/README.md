# rechifina

Replaces a given character (or text) in file names with another one, for a
single file or for every file of a directory (not recursively), asking for
confirmation unless `--all` is given.

- `src/` is the verified library: text replacement (`replace`), the new file
  name built from a path's parts (`paths`), the decisions of a run
  (`session`), reading yes/no answers (`answer`), terminal styling and the
  program's messages (`style`, `messages`), and where the log lives
  (`config`).
- `app/main.rs` is the command-line program around it: argument parsing,
  the file system, the terminal and the log file.
- `tests/` runs the library on concrete values.
