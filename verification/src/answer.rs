//! Reading a yes/no answer typed by the user.
use vstd::prelude::*;
use crate::text::{all_ascii, ascii_lowered, chars_of, lowercase_of, lowercased, trim, trim_spec};

verus! {

/// The answer that a normalized (trimmed, lower-case) reply stands for:
/// `yes` or `y` accept, `no` or `n` decline, anything else is no answer.
pub open spec fn answer_spec(reply: Seq<char>) -> Option<bool> {
    if reply == seq!['y', 'e', 's'] || reply == seq!['y'] {
        Some(true)
    } else if reply == seq!['n', 'o'] || reply == seq!['n'] {
        Some(false)
    } else {
        None
    }
}

/// The answer that a normalized reply stands for.
pub fn answer_of(reply: &str) -> (res: Option<bool>)
    ensures
        res == answer_spec(reply@),
{
    let c = chars_of(reply);
    if c.len() == 1 && c[0] == 'y' {
        assert(reply@ =~= seq!['y']);
        Some(true)
    } else if c.len() == 3 && c[0] == 'y' && c[1] == 'e' && c[2] == 's' {
        assert(reply@ =~= seq!['y', 'e', 's']);
        Some(true)
    } else if c.len() == 1 && c[0] == 'n' {
        assert(reply@ =~= seq!['n']);
        Some(false)
    } else if c.len() == 2 && c[0] == 'n' && c[1] == 'o' {
        assert(reply@ =~= seq!['n', 'o']);
        Some(false)
    } else {
        assert(reply@ != seq!['y']) by {
            if reply@ == seq!['y'] { assert(c@[0] == 'y'); }
        }
        assert(reply@ != seq!['y', 'e', 's']) by {
            if reply@ == seq!['y', 'e', 's'] { assert(c@[0] == 'y' && c@[1] == 'e' && c@[2] == 's'); }
        }
        assert(reply@ != seq!['n']) by {
            if reply@ == seq!['n'] { assert(c@[0] == 'n'); }
        }
        assert(reply@ != seq!['n', 'o']) by {
            if reply@ == seq!['n', 'o'] { assert(c@[0] == 'n' && c@[1] == 'o'); }
        }
        None
    }
}

/// The answer in a line that the user typed: the line is trimmed and
/// lower-cased, then read as `yes`/`y` (accept) or `no`/`n` (decline);
/// `None` means the question has to be asked again.
pub fn parse_answer(line: &str) -> (res: Option<bool>)
    ensures
        res == answer_spec(lowercased(trim_spec(line@))),
        all_ascii(trim_spec(line@)) ==> res == answer_spec(ascii_lowered(trim_spec(line@))),
{
    let t = trim(line);
    let l = lowercase_of(t.as_str());
    answer_of(l.as_str())
}

} // verus!
