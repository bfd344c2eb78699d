//! Replacing every occurrence of a pattern in a string, scanning from the
//! left and never letting two replaced occurrences overlap.
use vstd::prelude::*;
use crate::text::{chars_of, push_char};

verus! {

/// `p` occurs in `s` starting at position `i`.
pub open spec fn occurs_at(s: Seq<char>, p: Seq<char>, i: int) -> bool {
    &&& 0 <= i
    &&& i + p.len() <= s.len()
    &&& s.subrange(i, i + p.len()) == p
}

/// `p` occurs somewhere in `s`.
pub open spec fn contains_seq(s: Seq<char>, p: Seq<char>) -> bool {
    exists|i: int| occurs_at(s, p, i)
}

/// The result of replacing, from left to right, every non-overlapping
/// occurrence of `from` in `s` by `to`. An empty `from` occurs before
/// every character and at the end, so `to` is put in all those places.
pub open spec fn replaced(s: Seq<char>, from: Seq<char>, to: Seq<char>) -> Seq<char>
    decreases s.len(),
{
    if from.len() == 0 {
        if s.len() == 0 {
            to
        } else {
            to + seq![s[0]] + replaced(s.drop_first(), from, to)
        }
    } else if s.len() == 0 {
        s
    } else if occurs_at(s, from, 0) {
        to + replaced(s.skip(from.len() as int), from, to)
    } else {
        seq![s[0]] + replaced(s.drop_first(), from, to)
    }
}

/// Whether `p` occurs in `s` at position `i` (computed on character vectors).
fn occurs_at_exec(s: &Vec<char>, p: &Vec<char>, i: usize) -> (res: bool)
    requires
        i <= s.len(),
    ensures
        res == occurs_at(s@, p@, i as int),
{
    if p.len() > s.len() - i {
        return false;
    }
    let mut j: usize = 0;
    while j < p.len()
        invariant
            i + p.len() <= s.len(),
            j <= p.len(),
            forall|k: int| 0 <= k < j ==> s@[i + k] == p@[k],
        decreases p.len() - j,
    {
        if s[i + j] != p[j] {
            assert(s@.subrange(i as int, i + p.len())[j as int] != p@[j as int]);
            return false;
        }
        j = j + 1;
    }
    assert(s@.subrange(i as int, i + p.len()) =~= p@);
    true
}

/// Replaces every occurrence of `from` in `s` by `to`, as `str::replace` does.
pub fn replace_all(s: &str, from: &str, to: &str) -> (res: String)
    ensures
        res@ == replaced(s@, from@, to@),
{
    let sc = chars_of(s);
    let pc = chars_of(from);
    let mut out = String::new();
    let mut i: usize = 0;
    assert(sc@.skip(0) =~= sc@);
    assert(out@ + replaced(s@, from@, to@) =~= replaced(s@, from@, to@));
    if pc.len() == 0 {
        while i < sc.len()
            invariant
                from@.len() == 0,
                sc@ == s@,
                i <= sc.len(),
                out@ + replaced(sc@.skip(i as int), from@, to@) == replaced(s@, from@, to@),
            decreases sc.len() - i,
        {
            let ghost rest = sc@.skip(i as int);
            assert(rest.drop_first() =~= sc@.skip(i + 1));
            assert(rest[0] == sc@[i as int]);
            out.append(to);
            push_char(&mut out, sc[i]);
            assert(out@ + replaced(sc@.skip(i + 1), from@, to@) =~= replaced(s@, from@, to@));
            i = i + 1;
        }
        out.append(to);
        assert(sc@.skip(i as int) =~= Seq::<char>::empty());
    } else {
        while i < sc.len()
            invariant
                from@.len() > 0,
                sc@ == s@,
                pc@ == from@,
                i <= sc.len(),
                out@ + replaced(sc@.skip(i as int), from@, to@) == replaced(s@, from@, to@),
            decreases sc.len() - i,
        {
            let ghost rest = sc@.skip(i as int);
            if occurs_at_exec(&sc, &pc, i) {
                assert(rest.subrange(0, from@.len() as int) =~= sc@.subrange(i as int, i + from@.len()));
                assert(rest.skip(from@.len() as int) =~= sc@.skip(i + pc.len()));
                out.append(to);
                assert(out@ + replaced(sc@.skip(i + pc.len()), from@, to@) =~= replaced(s@, from@, to@));
                i = i + pc.len();
            } else {
                assert(!occurs_at(rest, from@, 0)) by {
                    if occurs_at(rest, from@, 0) {
                        assert(rest.subrange(0, from@.len() as int) =~= sc@.subrange(i as int, i + from@.len()));
                    }
                }
                assert(rest.drop_first() =~= sc@.skip(i + 1));
                assert(rest[0] == sc@[i as int]);
                push_char(&mut out, sc[i]);
                assert(out@ + replaced(sc@.skip(i + 1), from@, to@) =~= replaced(s@, from@, to@));
                i = i + 1;
            }
        }
        assert(sc@.skip(i as int) =~= Seq::<char>::empty());
        assert(out@ + Seq::<char>::empty() =~= out@);
    }
    out
}

/// What replacing does, position by position, for a non-empty pattern:
/// nothing is left of an empty text; a text that starts with the pattern
/// gives the replacement followed by the rest replaced in the same way (so
/// every later occurrence is replaced too); and a text that does not start
/// with it keeps its first character and goes on with the rest.
pub proof fn lemma_replaced_steps(s: Seq<char>, from: Seq<char>, to: Seq<char>)
    requires
        from.len() > 0,
    ensures
        replaced(Seq::<char>::empty(), from, to) == Seq::<char>::empty(),
        replaced(from + s, from, to) == to + replaced(s, from, to),
        s.len() > 0 && !occurs_at(s, from, 0) ==> replaced(s, from, to) == seq![s[0]] + replaced(s.drop_first(), from, to),
{
    let u = from + s;
    assert(u.subrange(0, from.len() as int) =~= from);
    assert(u.skip(from.len() as int) =~= s);
}

/// What replacing does with an empty pattern: the replacement alone for an
/// empty text, and otherwise the replacement, the first character, and the
/// rest replaced in the same way.
pub proof fn lemma_replaced_empty_pattern_steps(s: Seq<char>, to: Seq<char>)
    ensures
        replaced(Seq::<char>::empty(), Seq::<char>::empty(), to) == to,
        s.len() > 0 ==> replaced(s, Seq::<char>::empty(), to) == to + seq![s[0]] + replaced(s.drop_first(), Seq::<char>::empty(), to),
{
}

/// Replacing in two pieces, the first of which ends before any occurrence
/// could straddle the cut, is replacing in each: every occurrence in the
/// second piece is replaced, however long the pattern.
pub proof fn lemma_replaced_after_pattern_free_prefix(x: Seq<char>, s: Seq<char>, from: Seq<char>, to: Seq<char>)
    requires
        from.len() > 0,
        forall|i: int| 0 <= i < x.len() ==> !occurs_at(x + s, from, i),
    ensures
        replaced(x + s, from, to) == x + replaced(s, from, to),
    decreases x.len(),
{
    if x.len() > 0 {
        let u = x + s;
        assert(!occurs_at(u, from, 0));
        let x2 = x.drop_first();
        assert(u.drop_first() =~= x2 + s);
        assert forall|i: int| 0 <= i < x2.len() implies !occurs_at(x2 + s, from, i) by {
            assert(!occurs_at(u, from, i + 1));
            if occurs_at(x2 + s, from, i) {
                assert(u.subrange(i + 1, i + 1 + from.len()) =~= (x2 + s).subrange(i, i + from.len()));
            }
        }
        lemma_replaced_after_pattern_free_prefix(x2, s, from, to);
        assert(seq![u[0]] + (x2 + replaced(s, from, to)) =~= x + replaced(s, from, to));
    } else {
        assert(x + s =~= s);
    }
}

/// The name with each `a` turned into `b`, character by character.
pub open spec fn swap_char(s: Seq<char>, a: char, b: char) -> Seq<char> {
    s.map_values(|c: char| if c == a { b } else { c })
}

/// A non-empty pattern that does not occur leaves the string unchanged:
/// a name without the character to replace keeps its name.
pub proof fn lemma_absent_pattern_unchanged(s: Seq<char>, from: Seq<char>, to: Seq<char>)
    requires
        from.len() > 0,
        !contains_seq(s, from),
    ensures
        replaced(s, from, to) == s,
    decreases s.len(),
{
    if s.len() > 0 {
        assert(!occurs_at(s, from, 0));
        let t = s.drop_first();
        assert(!contains_seq(t, from)) by {
            if contains_seq(t, from) {
                let i = choose|i: int| occurs_at(t, from, i);
                assert(s.subrange(i + 1, i + 1 + from.len()) =~= t.subrange(i, i + from.len()));
                assert(occurs_at(s, from, i + 1));
            }
        }
        lemma_absent_pattern_unchanged(t, from, to);
        assert(seq![s[0]] + t =~= s);
    }
}

/// Replacing a non-empty pattern by itself changes nothing.
pub proof fn lemma_replace_by_itself(s: Seq<char>, p: Seq<char>)
    requires
        p.len() > 0,
    ensures
        replaced(s, p, p) == s,
    decreases s.len(),
{
    if s.len() > 0 {
        if occurs_at(s, p, 0) {
            lemma_replace_by_itself(s.skip(p.len() as int), p);
            assert(s.subrange(0, p.len() as int) + s.skip(p.len() as int) =~= s);
        } else {
            lemma_replace_by_itself(s.drop_first(), p);
            assert(seq![s[0]] + s.drop_first() =~= s);
        }
    }
}

/// Replacing one character by another maps the string character by
/// character: the length stays, and each position holding `a` now holds `b`.
pub proof fn lemma_single_char_is_pointwise(s: Seq<char>, a: char, b: char)
    ensures
        replaced(s, seq![a], seq![b]) == swap_char(s, a, b),
    decreases s.len(),
{
    if s.len() > 0 {
        let t = s.drop_first();
        lemma_single_char_is_pointwise(t, a, b);
        assert(s.skip(1) =~= t);
        if s[0] == a {
            assert(s.subrange(0, 1) =~= seq![a]);
            assert(occurs_at(s, seq![a], 0));
        } else {
            assert(s.subrange(0, 1)[0] == s[0]);
            assert(!occurs_at(s, seq![a], 0));
        }
        assert(replaced(s, seq![a], seq![b]) =~= swap_char(s, a, b));
    }
}

/// After replacing a character by a different one, it no longer occurs.
pub proof fn lemma_single_char_removed(s: Seq<char>, a: char, b: char)
    requires
        a != b,
    ensures
        !replaced(s, seq![a], seq![b]).contains(a),
        replaced(s, seq![a], seq![b]).len() == s.len(),
{
    lemma_single_char_is_pointwise(s, a, b);
}

/// Replacing `a` by `b` and then `b` by `a` gives the name back, provided
/// `b` did not occur in it before.
pub proof fn lemma_single_char_round_trip(s: Seq<char>, a: char, b: char)
    requires
        !s.contains(b),
    ensures
        replaced(replaced(s, seq![a], seq![b]), seq![b], seq![a]) == s,
{
    lemma_single_char_is_pointwise(s, a, b);
    let t = swap_char(s, a, b);
    lemma_single_char_is_pointwise(t, b, a);
    assert forall|i: int| 0 <= i < s.len() implies swap_char(t, b, a)[i] == s[i] by {
        if s[i] == b {
            assert(s.contains(b));
        }
    }
    assert(swap_char(t, b, a) =~= s);
}

/// With an empty pattern, the replacement is put before every character and
/// once more at the end.
pub proof fn lemma_empty_pattern_length(s: Seq<char>, to: Seq<char>)
    ensures
        replaced(s, Seq::<char>::empty(), to).len() == s.len() + (s.len() + 1) * to.len(),
    decreases s.len(),
{
    if s.len() > 0 {
        let t = s.drop_first();
        lemma_empty_pattern_length(t, to);
        let n: int = t.len() as int;
        let m: int = to.len() as int;
        assert((n + 2) * m == (n + 1) * m + m) by (nonlinear_arith);
        assert(replaced(s, Seq::<char>::empty(), to).len() == m + 1 + n + (n + 1) * m);
        assert((s.len() + 1) * to.len() == (n + 2) * m);
    } else {
        assert((s.len() + 1) * to.len() == to.len());
    }
}

} // verus!
