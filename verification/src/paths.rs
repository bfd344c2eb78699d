//! What the standard library's `Path` reports about a path, and the new
//! file name that a replacement gives.
use vstd::prelude::*;
use std::path::Path;
use crate::replace::{
    contains_seq, lemma_absent_pattern_unchanged, lemma_replace_by_itself,
    lemma_single_char_is_pointwise, lemma_single_char_removed, lemma_single_char_round_trip,
    replaced, replace_all, swap_char,
};
use crate::text::is_empty_str;

verus! {

/// A string option seen by its characters.
pub open spec fn opt_view(o: Option<String>) -> Option<Seq<char>> {
    match o {
        Some(s) => Some(s@),
        None => None,
    }
}

/// The text `..`, which no file name can have a stem of in the usual way.
pub open spec fn dot_dot() -> Seq<char> {
    seq!['.', '.']
}

/// The index of the last `c` in `s`, or -1 when `c` does not occur.
pub open spec fn last_index_of(s: Seq<char>, c: char) -> int
    decreases s.len(),
{
    if s.len() == 0 {
        -1
    } else if s.last() == c {
        s.len() - 1
    } else {
        last_index_of(s.drop_last(), c)
    }
}

/// The stem of a file name: the part before the last `.`, unless the name
/// has no `.` after its first character, in which case it is the whole name.
pub open spec fn stem_of(name: Seq<char>) -> Seq<char> {
    let k = last_index_of(name, '.');
    if k > 0 {
        name.take(k)
    } else {
        name
    }
}

/// The extension of a file name: the part after the last `.`, if there is a
/// `.` after the first character.
pub open spec fn extension_of(name: Seq<char>) -> Option<Seq<char>> {
    let k = last_index_of(name, '.');
    if k > 0 {
        Some(name.skip(k + 1))
    } else {
        None
    }
}

/// A path that ends in the component `..`: `..` itself, or `..` after a
/// slash.
pub open spec fn ends_in_dot_dot(s: Seq<char>) -> bool {
    ||| s == dot_dot()
    ||| (s.len() >= 3 && s.subrange(s.len() - 3, s.len() as int) == seq!['/', '.', '.'])
}

/// A path made of one plain name: not empty, no slash, backslash or colon in it, and
/// neither `.` nor `..`. On every platform such a path has a single
/// component, which is the name itself.
pub open spec fn plain_name(s: Seq<char>) -> bool {
    &&& s.len() > 0
    &&& !s.contains('/')
    &&& !s.contains('\\')
    &&& !s.contains(':')
    &&& s != seq!['.']
    &&& s != dot_dot()
}

/// The index of the last `c` is -1 or a position that holds `c`.
pub proof fn lemma_last_index_of(s: Seq<char>, c: char)
    ensures
        last_index_of(s, c) == -1 || (0 <= last_index_of(s, c) < s.len() && s[last_index_of(s, c)] == c),
    decreases s.len(),
{
    if s.len() > 0 && s.last() != c {
        lemma_last_index_of(s.drop_last(), c);
    }
}

/// The text that an optional extension adds to a name: a `.` and the
/// extension when there is one (even an empty one), nothing otherwise.
pub open spec fn extension_part(ext: Option<Seq<char>>) -> Seq<char> {
    match ext {
        Some(e) => seq!['.'] + e,
        None => Seq::<char>::empty(),
    }
}

/// A file name is its stem followed by its extension part.
pub proof fn lemma_name_is_stem_and_extension(name: Seq<char>)
    ensures
        stem_of(name) + extension_part(extension_of(name)) == name,
{
    lemma_last_index_of(name, '.');
    let k = last_index_of(name, '.');
    if k > 0 {
        assert(name.take(k) + (seq!['.'] + name.skip(k + 1)) =~= name);
    } else {
        assert(name + Seq::<char>::empty() =~= name);
    }
}

/// What `Path::file_name` gives for a path.
pub uninterp spec fn path_file_name(path: Seq<char>) -> Option<Seq<char>>;

/// What `Path::parent` gives for a path.
pub uninterp spec fn path_parent(path: Seq<char>) -> Option<Seq<char>>;

/// What `Path::file_stem` gives for a path.
pub uninterp spec fn path_file_stem(path: Seq<char>) -> Option<Seq<char>>;

/// What `Path::extension` gives for a path.
pub uninterp spec fn path_extension(path: Seq<char>) -> Option<Seq<char>>;

/// Whether `Path`'s equality holds between two paths (it compares their
/// components, so `a/b` and `a//b` are the same path).
pub uninterp spec fn paths_equal(a: Seq<char>, b: Seq<char>) -> bool;

/// What `Path::join` gives for a base path and a path pushed onto it.
pub uninterp spec fn path_joined(base: Seq<char>, name: Seq<char>) -> Seq<char>;

/// The final component of `path`, through `std::path::Path::file_name`.
/// The result is the named `path_file_name` of the path; as the
/// documentation says, the final component of a path made of one plain
/// name is that name, and a path that ends in `..` has none. The components of a `&str` path are valid text, so
/// the conversion to `String` is exact.
#[verifier::external_body]
pub(crate) fn file_name_of(path: &str) -> (res: Option<String>)
    ensures
        opt_view(res) == path_file_name(path@),
        plain_name(path@) ==> opt_view(res) == Some(path@),
        ends_in_dot_dot(path@) ==> res is None,
{
    match Path::new(path).file_name() {
        Some(n) => Some(n.to_string_lossy().into_owned()),
        None => None,
    }
}

/// The path without its final component, through `std::path::Path::parent`.
/// The result is the named `path_parent` of the path; as the documentation
/// says, a relative path with one component has the empty parent.
#[verifier::external_body]
pub(crate) fn parent_of(path: &str) -> (res: Option<String>)
    ensures
        opt_view(res) == path_parent(path@),
        plain_name(path@) ==> opt_view(res) == Some(Seq::<char>::empty()),
{
    match Path::new(path).parent() {
        Some(p) => Some(p.to_string_lossy().into_owned()),
        None => None,
    }
}

/// The stem of the final component, through `std::path::Path::file_stem`.
/// As its documentation says, it is absent exactly when there is no file
/// name, and otherwise it is the name up to its last `.` (the whole name
/// when the only `.` is the first character, or there is none). For a file
/// name `..`, which the documentation does not speak of, nothing is claimed
/// beyond the name `path_file_stem`.
#[verifier::external_body]
pub(crate) fn file_stem_of(path: &str) -> (res: Option<String>)
    ensures
        opt_view(res) == path_file_stem(path@),
        res is None <==> path_file_name(path@) is None,
        path_file_name(path@) matches Some(n) ==> (n != dot_dot() ==> opt_view(res) == Some(stem_of(n))),
        plain_name(path@) ==> opt_view(res) == Some(stem_of(path@)),
{
    match Path::new(path).file_stem() {
        Some(s) => Some(s.to_string_lossy().into_owned()),
        None => None,
    }
}

/// The extension of the final component, through
/// `std::path::Path::extension`. As its documentation says, it is present
/// exactly when the file name has a `.` after its first character, and then
/// it is the part after the last `.`. For a file name `..` nothing is
/// claimed beyond the name `path_extension`.
#[verifier::external_body]
pub(crate) fn extension_of_path(path: &str) -> (res: Option<String>)
    ensures
        opt_view(res) == path_extension(path@),
        path_file_name(path@) is None ==> res is None,
        path_file_name(path@) matches Some(n) ==> (n != dot_dot() ==> opt_view(res) == extension_of(n)),
        plain_name(path@) ==> opt_view(res) == extension_of(path@),
{
    match Path::new(path).extension() {
        Some(e) => Some(e.to_string_lossy().into_owned()),
        None => None,
    }
}

/// Whether two paths are equal by `std::path::Path`'s `==`.
/// The result is the named `paths_equal` of the two paths. `Path` is `Eq`,
/// so a path equals itself; and as `==` compares components, two different
/// plain names (each its own single component) are different paths.
#[verifier::external_body]
pub(crate) fn same_path(a: &str, b: &str) -> (res: bool)
    ensures
        res == paths_equal(a@, b@),
        a@ == b@ ==> res,
        plain_name(a@) && plain_name(b@) && a@ != b@ ==> !res,
{
    Path::new(a) == Path::new(b)
}

/// `base` with `name` pushed onto it, through `std::path::Path::join`.
/// The result is the named `path_joined` of the two. As the documentation
/// of `join` and `push` says, a relative path is adjoined to `base`; so
/// when `name` is one plain name, the result's final component is `name`
/// and its parent has the components of `base`.
#[verifier::external_body]
pub(crate) fn join_path(base: &str, name: &str) -> (res: String)
    ensures
        res@ == path_joined(base@, name@),
        plain_name(name@) ==> path_file_name(res@) == Some(name@),
        plain_name(name@) ==> path_parent(res@) is Some && paths_equal(path_parent(res@).unwrap(), base@),
{
    Path::new(base).join(name).to_string_lossy().into_owned()
}

/// The text of an optional path part, empty when the part is absent.
pub open spec fn or_empty(o: Option<Seq<char>>) -> Seq<char> {
    match o {
        Some(s) => s,
        None => Seq::<char>::empty(),
    }
}

/// A file name put in a directory: joined to the parent with
/// `Path::join` when there is a parent, the name alone otherwise.
pub open spec fn in_parent(parent: Seq<char>, name: Seq<char>) -> Seq<char> {
    if parent.len() > 0 {
        path_joined(parent, name)
    } else {
        name
    }
}

/// A path that holds the file name `name` in the directory `parent`: with
/// a parent, its final component is `name` and its parent is `parent` (as
/// `Path`'s `==` sees it); without one, it is `name` itself.
pub open spec fn lands_in(path: Seq<char>, parent: Seq<char>, name: Seq<char>) -> bool {
    if parent.len() > 0 {
        &&& path_file_name(path) == Some(name)
        &&& path_parent(path) matches Some(p) && paths_equal(p, parent)
    } else {
        path == name
    }
}

/// Puts the file name `name` in the directory `parent`.
pub fn place_in_parent(parent: &str, name: &str) -> (res: String)
    ensures
        res@ == in_parent(parent@, name@),
        plain_name(name@) ==> lands_in(res@, parent@, name@),
{
    if is_empty_str(parent) {
        String::from_str(name)
    } else {
        join_path(parent, name)
    }
}

/// The new path: in the same parent, the stem with `replace_char` replaced
/// by `new_char`, followed by the extension (after a `.`) when the name has
/// one.
pub open spec fn new_name_spec(
    parent: Seq<char>,
    stem: Seq<char>,
    ext: Option<Seq<char>>,
    replace_char: Seq<char>,
    new_char: Seq<char>,
) -> Seq<char> {
    in_parent(parent, replaced(stem, replace_char, new_char) + extension_part(ext))
}

/// The new path of the file at `path`, or `None` when the path has no file
/// stem.
pub open spec fn new_name_of_path(
    path: Seq<char>,
    replace_char: Seq<char>,
    new_char: Seq<char>,
) -> Option<Seq<char>> {
    match path_file_stem(path) {
        Some(stem) => Some(
            new_name_spec(
                or_empty(path_parent(path)),
                stem,
                path_extension(path),
                replace_char,
                new_char,
            ),
        ),
        None => None,
    }
}

/// The new file name of the file at `path`: its stem with `replace_char`
/// replaced by `new_char`, then its extension.
pub open spec fn new_part_of_path(
    path: Seq<char>,
    replace_char: Seq<char>,
    new_char: Seq<char>,
) -> Seq<char> {
    replaced(or_empty(path_file_stem(path)), replace_char, new_char) + extension_part(path_extension(path))
}

/// The path put back together from its parts without any replacement.
pub open spec fn recomposed(parent: Seq<char>, stem: Seq<char>, ext: Option<Seq<char>>) -> Seq<char> {
    in_parent(parent, stem + extension_part(ext))
}

/// A stem without the (non-empty) text to replace keeps its name: the new
/// path is the old parts put back together, whatever the new text is.
pub proof fn lemma_name_without_pattern_kept(
    parent: Seq<char>,
    stem: Seq<char>,
    ext: Option<Seq<char>>,
    replace_char: Seq<char>,
    new_char: Seq<char>,
)
    requires
        replace_char.len() > 0,
        !contains_seq(stem, replace_char),
    ensures
        new_name_spec(parent, stem, ext, replace_char, new_char) == recomposed(parent, stem, ext),
{
    lemma_absent_pattern_unchanged(stem, replace_char, new_char);
}

/// Replacing a (non-empty) text by itself gives the old parts back.
pub proof fn lemma_name_replaced_by_itself(
    parent: Seq<char>,
    stem: Seq<char>,
    ext: Option<Seq<char>>,
    text: Seq<char>,
)
    requires
        text.len() > 0,
    ensures
        new_name_spec(parent, stem, ext, text, text) == recomposed(parent, stem, ext),
{
    lemma_replace_by_itself(stem, text);
}

/// A plain file name put back together from its stem and extension is the
/// name itself.
pub proof fn lemma_plain_name_recomposed(name: Seq<char>)
    requires
        plain_name(name),
    ensures
        recomposed(Seq::<char>::empty(), stem_of(name), extension_of(name)) == name,
{
    lemma_name_is_stem_and_extension(name);
}

/// A character that can be put in a file name in place of another without
/// changing the name's structure: not `.`, a path separator, or `:`.
pub open spec fn name_char(c: char) -> bool {
    c != '.' && c != '/' && c != '\\' && c != ':'
}

/// The index of the last `c` is -1 or holds `c`, and no `c` comes after it.
proof fn lemma_last_index_of_exact(s: Seq<char>, c: char)
    ensures
        -1 <= last_index_of(s, c) < s.len(),
        last_index_of(s, c) >= 0 ==> s[last_index_of(s, c)] == c,
        forall|j: int| last_index_of(s, c) < j < s.len() ==> s[j] != c,
    decreases s.len(),
{
    if s.len() > 0 && s.last() != c {
        lemma_last_index_of_exact(s.drop_last(), c);
        let k = last_index_of(s, c);
        assert forall|j: int| k < j < s.len() implies s[j] != c by {
            if j < s.len() - 1 {
                assert(s.drop_last()[j] == s[j]);
            }
        }
    }
}

/// Two texts with `c` in the same places have their last `c` in the same
/// place.
proof fn lemma_last_index_same_places(s: Seq<char>, t: Seq<char>, c: char)
    requires
        s.len() == t.len(),
        forall|j: int| 0 <= j < s.len() ==> ((s[j] == c) == (t[j] == c)),
    ensures
        last_index_of(s, c) == last_index_of(t, c),
    decreases s.len(),
{
    if s.len() > 0 {
        assert((s.last() == c) == (t.last() == c)) by {
            assert(s.last() == s[s.len() - 1]);
            assert(t.last() == t[t.len() - 1]);
        }
        assert forall|j: int| 0 <= j < s.drop_last().len() implies
            ((s.drop_last()[j] == c) == (t.drop_last()[j] == c)) by {
            assert(s.drop_last()[j] == s[j]);
            assert(t.drop_last()[j] == t[j]);
        }
        lemma_last_index_same_places(s.drop_last(), t.drop_last(), c);
    }
}

/// In `x`, then `c`, then a text without `c`, the last `c` is the one
/// after `x`.
proof fn lemma_last_index_after(x: Seq<char>, t: Seq<char>, c: char)
    requires
        forall|j: int| 0 <= j < t.len() ==> t[j] != c,
    ensures
        last_index_of(x + seq![c] + t, c) == x.len(),
{
    let u = x + seq![c] + t;
    lemma_last_index_of_exact(u, c);
    let k = last_index_of(u, c);
    assert(u[x.len() as int] == c);
    if k > x.len() {
        assert(u[k] == t[k - x.len() - 1]);
    }
}

/// A text that differs from a plain name only where `a` became `b` (a
/// character fit for names) is a plain name too.
proof fn lemma_plain_preserved(name: Seq<char>, q: Seq<char>, a: char, b: char)
    requires
        plain_name(name),
        name_char(b),
        q.len() == name.len(),
        forall|j: int| 0 <= j < q.len() ==> (q[j] == name[j] || (name[j] == a && q[j] == b)),
    ensures
        plain_name(q),
{
    assert forall|c: char| c == '/' || c == '\\' || c == ':' implies !q.contains(c) by {
        if q.contains(c) {
            let j = choose|j: int| 0 <= j < q.len() && q[j] == c;
            assert(name[j] == c);
            assert(name.contains(c));
        }
    }
    if q == seq!['.'] {
        assert(q[0] == '.');
        assert(name =~= seq!['.']);
    }
    if q == dot_dot() {
        assert(q[0] == '.' && q[1] == '.');
        assert(name =~= dot_dot());
    }
}

/// Turning `a` into `b` in the stem of a plain name keeps it a plain name
/// with the same extension, and the stem of the new name is the old stem
/// with `a` turned into `b`.
proof fn lemma_swapped_name_shape(name: Seq<char>, a: char, b: char)
    requires
        plain_name(name),
        name_char(a),
        name_char(b),
    ensures
        plain_name(new_name_spec(Seq::<char>::empty(), stem_of(name), extension_of(name), seq![a], seq![b])),
        stem_of(new_name_spec(Seq::<char>::empty(), stem_of(name), extension_of(name), seq![a], seq![b]))
            == swap_char(stem_of(name), a, b),
        extension_of(new_name_spec(Seq::<char>::empty(), stem_of(name), extension_of(name), seq![a], seq![b]))
            == extension_of(name),
{
    let stem = stem_of(name);
    lemma_single_char_is_pointwise(stem, a, b);
    let q = new_name_spec(Seq::<char>::empty(), stem, extension_of(name), seq![a], seq![b]);
    lemma_last_index_of_exact(name, '.');
    let k = last_index_of(name, '.');
    if k > 0 {
        let x = swap_char(name.take(k), a, b);
        let t = name.skip(k + 1);
        assert(q =~= x + seq!['.'] + t);
        assert forall|j: int| 0 <= j < t.len() implies t[j] != '.' by {
            assert(t[j] == name[k + 1 + j]);
        }
        lemma_last_index_after(x, t, '.');
        assert(q.take(k) =~= x);
        assert(q.skip(k + 1) =~= t);
        assert forall|j: int| 0 <= j < q.len() implies (q[j] == name[j] || (name[j] == a && q[j] == b)) by {
            if j < k {
                assert(q[j] == x[j]);
            } else if j > k {
                assert(q[j] == t[j - k - 1]);
            }
        }
        lemma_plain_preserved(name, q, a, b);
    } else {
        assert(q =~= swap_char(name, a, b));
        assert forall|j: int| 0 <= j < name.len() implies ((name[j] == '.') == (q[j] == '.')) by {
            assert(q[j] == (if name[j] == a { b } else { name[j] }));
        }
        lemma_last_index_same_places(name, q, '.');
        assert forall|j: int| 0 <= j < q.len() implies (q[j] == name[j] || (name[j] == a && q[j] == b)) by {
            assert(q[j] == (if name[j] == a { b } else { name[j] }));
        }
        lemma_plain_preserved(name, q, a, b);
    }
}

/// Swapping a character that does not occur changes nothing.
proof fn lemma_swap_absent(s: Seq<char>, a: char, b: char)
    requires
        !s.contains(a),
    ensures
        swap_char(s, a, b) == s,
{
    assert forall|j: int| 0 <= j < s.len() implies swap_char(s, a, b)[j] == s[j] by {
        if s[j] == a {
            assert(s.contains(a));
        }
    }
    assert(swap_char(s, a, b) =~= s);
}

/// Renaming a plain file name by turning `a` into `b`, then the new name
/// by turning `b` back into `a`, gives the first name again, provided `b`
/// did not occur in its stem and both are characters fit for names.
pub proof fn lemma_new_name_round_trip(name: Seq<char>, a: char, b: char)
    requires
        plain_name(name),
        name_char(a),
        name_char(b),
        !stem_of(name).contains(b),
    ensures
        ({
            let q = new_name_spec(Seq::<char>::empty(), stem_of(name), extension_of(name), seq![a], seq![b]);
            &&& plain_name(q)
            &&& new_name_spec(Seq::<char>::empty(), stem_of(q), extension_of(q), seq![b], seq![a]) == name
        }),
{
    lemma_swapped_name_shape(name, a, b);
    let stem = stem_of(name);
    lemma_single_char_is_pointwise(stem, a, b);
    lemma_single_char_round_trip(stem, a, b);
    lemma_name_is_stem_and_extension(name);
}

/// Renaming a plain file name by turning `a` into a different `b` twice
/// is the same as doing it once: the second run leaves the new name as it
/// is.
pub proof fn lemma_new_name_idempotent(name: Seq<char>, a: char, b: char)
    requires
        plain_name(name),
        name_char(a),
        name_char(b),
        a != b,
    ensures
        ({
            let q = new_name_spec(Seq::<char>::empty(), stem_of(name), extension_of(name), seq![a], seq![b]);
            &&& plain_name(q)
            &&& new_name_spec(Seq::<char>::empty(), stem_of(q), extension_of(q), seq![a], seq![b]) == q
        }),
{
    lemma_swapped_name_shape(name, a, b);
    let stem = stem_of(name);
    lemma_single_char_is_pointwise(stem, a, b);
    lemma_single_char_removed(stem, a, b);
    let sw = swap_char(stem, a, b);
    lemma_single_char_is_pointwise(sw, a, b);
    lemma_swap_absent(sw, a, b);
}

/// Why no new name could be made for a path.
#[derive(Debug, Clone, Copy, PartialEq, Eq, Structural)]
pub enum NameError {
    /// The path has no final component to rename (such as `/` or `a/..`).
    NoFileStem,
}

/// Builds the new path from the parts of a path.
pub fn compose_new_name(
    parent: &str,
    stem: &str,
    ext: Option<&str>,
    replace_char: &str,
    new_char: &str,
) -> (res: String)
    ensures
        res@ == new_name_spec(parent@, stem@, match ext { Some(e) => Some(e@), None => None }, replace_char@, new_char@),
        ({
            let part = replaced(stem@, replace_char@, new_char@)
                + extension_part(match ext { Some(e) => Some(e@), None => None });
            plain_name(part) ==> lands_in(res@, parent@, part)
        }),
{
    let mut name = replace_all(stem, replace_char, new_char);
    match ext {
        Some(e) => {
            name.append(".");
            name.append(e);
            proof {
                reveal_strlit(".");
            }
            assert(name@ =~= replaced(stem@, replace_char@, new_char@) + extension_part(Some(e@)));
        },
        None => {
            assert(name@ =~= replaced(stem@, replace_char@, new_char@) + extension_part(None));
        },
    }
    place_in_parent(parent, name.as_str())
}

/// The new path of the file at `path`: in the same parent, its stem with
/// `replace_char` replaced by `new_char`, followed by its extension. A path
/// made of one plain name gets just that new name.
pub fn get_new_name(replace_char: &str, new_char: &str, path: &str) -> (res: Result<String, NameError>)
    ensures
        match res {
            Ok(name) => new_name_of_path(path@, replace_char@, new_char@) == Some(name@),
            Err(_) => new_name_of_path(path@, replace_char@, new_char@) is None,
        },
        res is Err <==> path_file_name(path@) is None,
        res matches Ok(name) ==> (plain_name(new_part_of_path(path@, replace_char@, new_char@)) ==> lands_in(
            name@,
            or_empty(path_parent(path@)),
            new_part_of_path(path@, replace_char@, new_char@),
        )),
        plain_name(path@) ==> (res matches Ok(name) && name@ == new_part_of_path(path@, replace_char@, new_char@)
            && name@ == new_name_spec(
            Seq::<char>::empty(),
            stem_of(path@),
            extension_of(path@),
            replace_char@,
            new_char@,
        )),
{
    let extension = extension_of_path(path);
    let parent = match parent_of(path) {
        Some(p) => p,
        None => String::new(),
    };
    match file_stem_of(path) {
        Some(stem) => {
            let ext = match &extension {
                Some(e) => Some(e.as_str()),
                None => None,
            };
            Ok(compose_new_name(parent.as_str(), stem.as_str(), ext, replace_char, new_char))
        },
        None => Err(NameError::NoFileStem),
    }
}

} // verus!
