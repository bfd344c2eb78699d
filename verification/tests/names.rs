use rechifina::paths::{compose_new_name, get_new_name, NameError};
use rechifina::replace::replace_all;
use rechifina::text::{chars_of, trim};

#[test]
fn replace_space_with_underscore() {
    assert_eq!(replace_all("this is the testfile", " ", "_"), "this_is_the_testfile");
}

#[test]
fn replace_absent_char_keeps_text() {
    assert_eq!(replace_all("testfile", " ", "_"), "testfile");
}

#[test]
fn replace_char_by_itself_keeps_text() {
    assert_eq!(replace_all("a b c", " ", " "), "a b c");
}

#[test]
fn replace_empty_pattern_fills_every_gap() {
    assert_eq!(replace_all("abc", "", "x"), "xaxbxcx");
    assert_eq!(replace_all("", "", "x"), "x");
    assert_eq!(replace_all("ab", "", "").len(), 2);
}

#[test]
fn replace_is_leftmost_and_non_overlapping() {
    assert_eq!(replace_all("aaa", "aa", "b"), "ba");
    assert_eq!(replace_all("aaaa", "aa", "b"), "bb");
    assert_eq!(replace_all("abab", "ba", "X"), "aXb");
}

#[test]
fn replace_by_empty_removes() {
    assert_eq!(replace_all("a-b-c", "-", ""), "abc");
}

#[test]
fn replace_round_trip() {
    let once = replace_all("my file name", " ", "_");
    assert_eq!(once, "my_file_name");
    assert_eq!(replace_all(&once, "_", " "), "my file name");
}

#[test]
fn replace_multibyte_chars() {
    assert_eq!(replace_all("größe ä.txt", "ä", "ae"), "größe ae.txt");
    assert_eq!(replace_all("日本 語", " ", "·"), "日本·語");
}

#[test]
fn replace_agrees_with_str_replace() {
    let inputs = ["", "a", "aaa", "abcabc", "a b  c ", "xyx yx", "ääbä", "the file.tar.gz"];
    let patterns = ["", "a", " ", "ab", "aa", "x", "ä", "."];
    let targets = ["", "_", "zz", "ä"];
    for s in inputs.iter() {
        for p in patterns.iter() {
            for t in targets.iter() {
                assert_eq!(replace_all(s, p, t), s.replace(p, t), "{:?} {:?} {:?}", s, p, t);
            }
        }
    }
}

#[test]
fn chars_of_splits_into_characters() {
    assert_eq!(chars_of("aä日"), vec!['a', 'ä', '日']);
    assert_eq!(chars_of(""), Vec::<char>::new());
}

#[test]
fn new_name_of_readme_example() {
    assert_eq!(
        get_new_name(" ", "_", "this is the testfile.txt"),
        Ok("this_is_the_testfile.txt".to_string())
    );
}

#[test]
fn new_name_stays_in_its_directory() {
    assert_eq!(get_new_name(" ", "_", "dir/a b.txt"), Ok("dir/a_b.txt".to_string()));
    let new_name = get_new_name(" ", "_", "d/sub/a b.txt").unwrap();
    assert_eq!(std::path::Path::new(&new_name).parent(), std::path::Path::new("d/sub/a b.txt").parent());
}

#[test]
fn new_name_without_extension() {
    assert_eq!(get_new_name("a", "b", "banana"), Ok("bbnbnb".to_string()));
}

#[test]
fn new_name_only_in_stem() {
    assert_eq!(get_new_name("t", "T", "test.txt"), Ok("TesT.txt".to_string()));
}

#[test]
fn new_name_of_hidden_file() {
    assert_eq!(get_new_name(".", "_", ".bashrc"), Ok("_bashrc".to_string()));
}

#[test]
fn new_name_keeps_empty_extension() {
    assert_eq!(get_new_name("o", "0", "foo."), Ok("f00.".to_string()));
    assert_eq!(get_new_name("x", "y", "ab."), Ok("ab.".to_string()));
}

#[test]
fn new_name_uses_last_dot() {
    assert_eq!(get_new_name(".", "-", "a.tar.gz"), Ok("a-tar.gz".to_string()));
}

#[test]
fn new_name_without_file_name_fails() {
    assert_eq!(get_new_name("a", "b", "/"), Err(NameError::NoFileStem));
    assert_eq!(get_new_name("a", "b", "x/.."), Err(NameError::NoFileStem));
    assert_eq!(get_new_name("a", "b", ""), Err(NameError::NoFileStem));
}

#[test]
fn compose_puts_parts_together() {
    assert_eq!(compose_new_name("", "a b", None, " ", "_"), "a_b");
    assert_eq!(compose_new_name("p", "a b", Some("md"), " ", "_"), "p/a_b.md");
    assert_eq!(compose_new_name("p", "ab", None, "x", "y"), "p/ab");
    assert_eq!(compose_new_name("", "ab", Some(""), "x", "y"), "ab.");
}

#[test]
fn name_without_char_is_put_back_together() {
    assert_eq!(compose_new_name("p", "abc", Some("txt"), "z", "y"), "p/abc.txt");
    assert_eq!(compose_new_name("p", "a b", Some("txt"), " ", " "), "p/a b.txt");
}

#[test]
fn trim_agrees_with_str_trim() {
    let inputs = [
        "", " ", "  a b  ", "\t\n yes \r\n", "\u{a0}x\u{3000}", "\u{2028}\u{85}y\u{2009}",
        "\u{1680}\u{200a}\u{202f}\u{205f}", "no", "\u{b}\u{c}z", "\u{200b}w\u{200b}",
    ];
    for s in inputs.iter() {
        assert_eq!(trim(s), s.trim(), "{:?}", s);
    }
}

#[test]
fn new_name_round_trip_on_plain_names() {
    for name in ["my file.txt", "a b c", "x y.tar.gz", "ab.", ".a b", "plain"] {
        let q = get_new_name(" ", "_", name).unwrap();
        assert_eq!(get_new_name("_", " ", &q), Ok(name.to_string()), "{:?}", name);
    }
}

#[test]
fn new_name_twice_is_new_name_once() {
    for name in ["my file.txt", "a b c", "x y.tar.gz", "ab.", ".a b", "plain"] {
        let q = get_new_name(" ", "_", name).unwrap();
        assert_eq!(get_new_name(" ", "_", &q), Ok(q.clone()), "{:?}", name);
    }
}

#[test]
fn renamed_entries_keep_their_directory_and_get_the_new_name() {
    for path in ["d/a b.txt", "d/sub/x y", "/abs/dir/m n.md", "./a b"] {
        let q = get_new_name(" ", "_", path).unwrap();
        let old = std::path::Path::new(path);
        let new = std::path::Path::new(&q);
        assert_eq!(new.parent(), old.parent(), "{:?}", path);
        assert_eq!(
            new.file_name().unwrap().to_str().unwrap(),
            old.file_name().unwrap().to_str().unwrap().replace(' ', "_")
        );
    }
}
