use vstd::prelude::*;
use vstd::string::*;

use crate::text::{chars_of, string_from_chars};

verus! {

/// `char::is_whitespace`: the Unicode `White_Space` property.
pub open spec fn is_white_space(c: char) -> bool {
    let v = c as u32;
    ||| 0x9 <= v <= 0xD
    ||| v == 0x20
    ||| v == 0x85
    ||| v == 0xA0
    ||| v == 0x1680
    ||| 0x2000 <= v <= 0x200A
    ||| v == 0x2028
    ||| v == 0x2029
    ||| v == 0x202F
    ||| v == 0x205F
    ||| v == 0x3000
}

/// `s` without the white space at its end.
pub open spec fn trim_end_ws(s: Seq<char>) -> Seq<char>
    decreases s.len(),
{
    if s.len() > 0 && is_white_space(s.last()) {
        trim_end_ws(s.drop_last())
    } else {
        s
    }
}

/// `s` without the white space at its start.
pub open spec fn trim_start_ws(s: Seq<char>) -> Seq<char>
    decreases s.len(),
{
    if s.len() > 0 && is_white_space(s[0]) {
        trim_start_ws(s.drop_first())
    } else {
        s
    }
}

/// `s` without white space at either end (as `str::trim`).
pub open spec fn trim_spec(s: Seq<char>) -> Seq<char> {
    trim_start_ws(trim_end_ws(s))
}

fn white_space(c: char) -> (r: bool)
    ensures
        r == is_white_space(c),
{
    let v = c as u32;
    (0x9 <= v && v <= 0xD) || v == 0x20 || v == 0x85 || v == 0xA0 || v == 0x1680 || (0x2000 <= v
        && v <= 0x200A) || v == 0x2028 || v == 0x2029 || v == 0x202F || v == 0x205F || v == 0x3000
}

/// `s` without white space at either end.
pub fn trim(s: &str) -> (r: String)
    ensures
        r@ == trim_spec(s@),
{
    let chars = chars_of(s);
    let mut j: usize = chars.len();
    proof {
        assert(chars@.take(j as int) =~= chars@);
    }
    while j > 0 && white_space(chars[j - 1])
        invariant
            j <= chars@.len(),
            chars@ == s@,
            trim_end_ws(chars@.take(j as int)) == trim_end_ws(s@),
        decreases j,
    {
        proof {
            assert(chars@.take(j as int).drop_last() =~= chars@.take(j - 1));
        }
        j = j - 1;
    }
    let mut i: usize = 0;
    proof {
        assert(trim_end_ws(s@) == chars@.take(j as int));
        assert(chars@.subrange(0, j as int) =~= chars@.take(j as int));
    }
    while i < j && white_space(chars[i])
        invariant
            i <= j <= chars@.len(),
            trim_start_ws(chars@.subrange(i as int, j as int)) == trim_start_ws(
                chars@.subrange(0, j as int),
            ),
        decreases j - i,
    {
        proof {
            assert(chars@.subrange(i as int, j as int).drop_first() =~= chars@.subrange(
                i + 1,
                j as int,
            ));
        }
        i = i + 1;
    }
    string_from_chars(&chars, i, j)
}

/// The code of a character with ASCII capitals made small.
pub open spec fn ascii_lower(c: char) -> u32 {
    let v = c as u32;
    if 0x41 <= v <= 0x5A {
        (v + 32) as u32
    } else {
        v
    }
}

/// Equal up to ASCII case (as `str::eq_ignore_ascii_case`).
pub open spec fn eq_ignore_ascii_case_spec(a: Seq<char>, b: Seq<char>) -> bool {
    &&& a.len() == b.len()
    &&& forall|i: int| 0 <= i < a.len() ==> ascii_lower(#[trigger] a[i]) == ascii_lower(b[i])
}

fn lower_code(c: char) -> (r: u32)
    ensures
        r == ascii_lower(c),
{
    let v = c as u32;
    if 0x41 <= v && v <= 0x5A {
        v + 32
    } else {
        v
    }
}

/// Equal up to ASCII case.
pub fn eq_ignore_ascii_case(a: &str, b: &str) -> (r: bool)
    ensures
        r == eq_ignore_ascii_case_spec(a@, b@),
{
    let x = chars_of(a);
    let y = chars_of(b);
    if x.len() != y.len() {
        return false;
    }
    let mut i: usize = 0;
    while i < x.len()
        invariant
            i <= x@.len(),
            x@.len() == y@.len(),
            x@ == a@,
            y@ == b@,
            forall|k: int| 0 <= k < i ==> ascii_lower(#[trigger] x@[k]) == ascii_lower(y@[k]),
        decreases x@.len() - i,
    {
        if lower_code(x[i]) != lower_code(y[i]) {
            return false;
        }
        i = i + 1;
    }
    true
}

/// What to do with a line typed at the prompt.
#[derive(Debug, PartialEq, Eq)]
pub enum InputAction {
    /// Nothing but white space: ask again.
    Skip,
    /// `quit` or `exit` (any ASCII case): end the session.
    Quit,
    /// Send this message (the line without surrounding white space).
    Send(String),
}

/// The line asks to end the session.
pub open spec fn is_quit(t: Seq<char>) -> bool {
    eq_ignore_ascii_case_spec(t, "quit"@) || eq_ignore_ascii_case_spec(t, "exit"@)
}

/// What to do with a line typed at the prompt.
pub fn classify_input(line: &str) -> (r: InputAction)
    ensures
        match r {
            InputAction::Skip => trim_spec(line@).len() == 0,
            InputAction::Quit => trim_spec(line@).len() > 0 && is_quit(trim_spec(line@)),
            InputAction::Send(m) => {
                &&& m@ == trim_spec(line@)
                &&& m@.len() > 0
                &&& !is_quit(m@)
            },
        },
{
    let t = trim(line);
    if t.as_str().is_empty() {
        return InputAction::Skip;
    }
    if eq_ignore_ascii_case(t.as_str(), "quit") || eq_ignore_ascii_case(t.as_str(), "exit") {
        return InputAction::Quit;
    }
    InputAction::Send(t)
}

} // verus!
