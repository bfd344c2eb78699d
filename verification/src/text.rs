//! Character sequences: splitting a string into its characters and
//! building strings back up.
use vstd::prelude::*;

verus! {

broadcast use vstd::string::group_string_axioms;

/// Appends one character to a string.
/// Calls `String::push`, which adds the character at the end.
#[verifier::external_body]
pub(crate) fn push_char(s: &mut String, c: char)
    ensures
        final(s)@ == old(s)@.push(c),
{
    s.push(c);
}

/// Whether `s` is the empty text.
pub fn is_empty_str(s: &str) -> (res: bool)
    ensures
        res == (s@.len() == 0),
{
    s.unicode_len() == 0
}

/// The characters of `s`, in order.
pub fn chars_of(s: &str) -> (res: Vec<char>)
    ensures
        res@ == s@,
{
    let mut out: Vec<char> = Vec::new();
    for c in it: s.chars()
        invariant
            out@ == it.seq().take(it.index() as int),
    {
        out.push(c);
    }
    out
}

/// What `str::to_lowercase` gives for a text.
pub uninterp spec fn lowercased(s: Seq<char>) -> Seq<char>;

/// What `str::to_uppercase` gives for a text.
pub uninterp spec fn uppercased(s: Seq<char>) -> Seq<char>;

/// Every character of `s` is ASCII.
pub open spec fn all_ascii(s: Seq<char>) -> bool {
    forall|i: int| 0 <= i < s.len() ==> (s[i] as u32) < 128
}

/// An ASCII upper-case letter in lower case; other characters unchanged.
pub open spec fn ascii_lower_char(c: char) -> char {
    if 'A' <= c <= 'Z' {
        ((c as u32) + 32) as char
    } else {
        c
    }
}

/// An ASCII lower-case letter in upper case; other characters unchanged.
pub open spec fn ascii_upper_char(c: char) -> char {
    if 'a' <= c <= 'z' {
        ((c as u32) - 32) as char
    } else {
        c
    }
}

/// `s` with its ASCII letters in lower case.
pub open spec fn ascii_lowered(s: Seq<char>) -> Seq<char> {
    s.map_values(|c: char| ascii_lower_char(c))
}

/// `s` with its ASCII letters in upper case.
pub open spec fn ascii_uppered(s: Seq<char>) -> Seq<char> {
    s.map_values(|c: char| ascii_upper_char(c))
}

/// `s` in lower case, through `str::to_lowercase`.
/// The result is the named `lowercased` of the input: Unicode's case
/// mapping, which takes tables to state. On ASCII text it maps `A`-`Z` to
/// `a`-`z` and leaves every other character as it is.
#[verifier::external_body]
pub(crate) fn lowercase_of(s: &str) -> (res: String)
    ensures
        res@ == lowercased(s@),
        all_ascii(s@) ==> res@ == ascii_lowered(s@),
{
    s.to_lowercase()
}

/// `s` in upper case, through `str::to_uppercase`.
/// The result is the named `uppercased` of the input: Unicode's case
/// mapping, which takes tables to state. On ASCII text it maps `a`-`z` to
/// `A`-`Z` and leaves every other character as it is.
#[verifier::external_body]
pub(crate) fn uppercase_of(s: &str) -> (res: String)
    ensures
        res@ == uppercased(s@),
        all_ascii(s@) ==> res@ == ascii_uppered(s@),
{
    s.to_uppercase()
}

/// The characters with Unicode's `White_Space` property (the ones
/// `char::is_whitespace` accepts).
pub open spec fn is_white_space(c: char) -> bool {
    ||| '\u{9}' <= c <= '\u{d}'
    ||| c == ' '
    ||| c == '\u{85}'
    ||| c == '\u{a0}'
    ||| c == '\u{1680}'
    ||| '\u{2000}' <= c <= '\u{200a}'
    ||| c == '\u{2028}'
    ||| c == '\u{2029}'
    ||| c == '\u{202f}'
    ||| c == '\u{205f}'
    ||| c == '\u{3000}'
}

/// Whether `c` is a whitespace character.
pub fn white_space(c: char) -> (res: bool)
    ensures
        res == is_white_space(c),
{
    ('\u{9}' <= c && c <= '\u{d}') || c == ' ' || c == '\u{85}' || c == '\u{a0}' || c == '\u{1680}'
        || ('\u{2000}' <= c && c <= '\u{200a}') || c == '\u{2028}' || c == '\u{2029}'
        || c == '\u{202f}' || c == '\u{205f}' || c == '\u{3000}'
}

/// `s` without its leading whitespace.
pub open spec fn trim_start_spec(s: Seq<char>) -> Seq<char>
    decreases s.len(),
{
    if s.len() > 0 && is_white_space(s[0]) {
        trim_start_spec(s.drop_first())
    } else {
        s
    }
}

/// `s` without its trailing whitespace.
pub open spec fn trim_end_spec(s: Seq<char>) -> Seq<char>
    decreases s.len(),
{
    if s.len() > 0 && is_white_space(s.last()) {
        trim_end_spec(s.drop_last())
    } else {
        s
    }
}

/// `s` without leading and trailing whitespace, as `str::trim` gives it.
pub open spec fn trim_spec(s: Seq<char>) -> Seq<char> {
    trim_end_spec(trim_start_spec(s))
}

/// Removes leading and trailing whitespace from `s`.
pub fn trim(s: &str) -> (res: String)
    ensures
        res@ == trim_spec(s@),
{
    let c = chars_of(s);
    let n = c.len();
    let mut i: usize = 0;
    assert(c@.skip(0) =~= c@);
    while i < n && white_space(c[i])
        invariant
            n == c@.len(),
            c@ == s@,
            i <= n,
            trim_start_spec(s@) == trim_start_spec(c@.skip(i as int)),
        decreases n - i,
    {
        assert(c@.skip(i as int).drop_first() =~= c@.skip(i + 1));
        i = i + 1;
    }
    if i == n {
        assert(c@.skip(i as int) =~= Seq::<char>::empty());
    }
    assert(trim_start_spec(s@) == c@.skip(i as int));
    let mut j: usize = n;
    assert(c@.skip(i as int) =~= c@.subrange(i as int, n as int));
    while j > i && white_space(c[j - 1])
        invariant
            n == c@.len(),
            i <= j <= n,
            trim_spec(s@) == trim_end_spec(c@.subrange(i as int, j as int)),
        decreases j - i,
    {
        assert(c@.subrange(i as int, j as int).drop_last() =~= c@.subrange(i as int, j - 1));
        j = j - 1;
    }
    assert(trim_spec(s@) == c@.subrange(i as int, j as int));
    let mut out = String::new();
    let mut k: usize = i;
    while k < j
        invariant
            n == c@.len(),
            i <= k <= j <= n,
            out@ == c@.subrange(i as int, k as int),
        decreases j - k,
    {
        push_char(&mut out, c[k]);
        assert(out@ =~= c@.subrange(i as int, k + 1));
        k = k + 1;
    }
    out
}

} // verus!
