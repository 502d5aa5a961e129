//! Reading a line that the user typed.
//!
//! A line is trimmed of the white space around it before it is used, and the
//! word that ends the session is recognised whatever the case of its letters.

use vstd::prelude::*;
use vstd::string::*;

verus! {

/// Whether `c` is white space, that is a character with the Unicode property
/// `White_Space`: the controls from tab to carriage return, the space, next
/// line, the no-break space, the Ogham space mark, the spaces from en quad to
/// hair space, the line and paragraph separators, the narrow no-break space,
/// the medium mathematical space and the ideographic space.
pub open spec fn is_whitespace(c: char) -> bool {
    let code = c as u32;
    ||| 0x09 <= code <= 0x0d
    ||| code == 0x20
    ||| code == 0x85
    ||| code == 0xa0
    ||| code == 0x1680
    ||| 0x2000 <= code <= 0x200a
    ||| code == 0x2028
    ||| code == 0x2029
    ||| code == 0x202f
    ||| code == 0x205f
    ||| code == 0x3000
}

/// `s` without the white space at its start.
pub open spec fn trim_start(s: Seq<char>) -> Seq<char>
    decreases s.len(),
{
    if s.len() > 0 && is_whitespace(s.first()) {
        trim_start(s.drop_first())
    } else {
        s
    }
}

/// `s` without the white space at its end.
pub open spec fn trim_end(s: Seq<char>) -> Seq<char>
    decreases s.len(),
{
    if s.len() > 0 && is_whitespace(s.last()) {
        trim_end(s.drop_last())
    } else {
        s
    }
}

/// `s` without the white space at its start and at its end.
pub open spec fn trimmed(s: Seq<char>) -> Seq<char> {
    trim_end(trim_start(s))
}

/// The code of `c`, with that of the small letter for an ASCII capital.
pub open spec fn ascii_fold(c: char) -> u32 {
    let code = c as u32;
    if 0x41 <= code <= 0x5a {
        (code + 0x20) as u32
    } else {
        code
    }
}

/// Whether `a` and `b` are equal but for the case of their ASCII letters.
pub open spec fn same_ignoring_ascii_case(a: Seq<char>, b: Seq<char>) -> bool {
    &&& a.len() == b.len()
    &&& forall|i: int| 0 <= i < a.len() ==> ascii_fold(#[trigger] a[i]) == ascii_fold(b[i])
}

/// The word that ends the session.
pub open spec fn exit_command() -> Seq<char> {
    "exit"@
}

/// Whether the line `line`, once trimmed, is the word that ends the session,
/// in any case of its letters.
pub open spec fn is_exit_line(line: Seq<char>) -> bool {
    same_ignoring_ascii_case(trimmed(line), exit_command())
}

/// Tells whether `c` is white space.
pub fn is_whitespace_char(c: char) -> (b: bool)
    ensures
        b == is_whitespace(c),
{
    let code: u32 = c as u32;
    (0x09 <= code && code <= 0x0d) || code == 0x20 || code == 0x85 || code == 0xa0 || code
        == 0x1680 || (0x2000 <= code && code <= 0x200a) || code == 0x2028 || code == 0x2029
        || code == 0x202f || code == 0x205f || code == 0x3000
}

/// The part of `line` that is left when the white space at its start and at
/// its end is taken away.
pub fn trim(line: &str) -> (text: &str)
    ensures
        text@ == trimmed(line@),
{
    let n = line.unicode_len();
    let mut start: usize = 0;
    let mut solid = false;
    assert(line@.skip(0) =~= line@);
    while start < n && !solid
        invariant
            n == line@.len(),
            start <= n,
            trim_start(line@) == trim_start(line@.skip(start as int)),
            solid ==> start < n && !is_whitespace(line@[start as int]),
        decreases n - start + if solid { 0int } else { 1int },
    {
        if is_whitespace_char(line.get_char(start)) {
            assert(line@.skip(start as int).drop_first() =~= line@.skip(start + 1));
            start += 1;
        } else {
            solid = true;
        }
    }
    let mut end: usize = n;
    solid = false;
    while start < end && !solid
        invariant
            n == line@.len(),
            start <= end <= n,
            trimmed(line@) == trim_end(line@.subrange(start as int, end as int)),
            solid ==> start < end && !is_whitespace(line@[end - 1]),
        decreases end - start + if solid { 0int } else { 1int },
    {
        if is_whitespace_char(line.get_char(end - 1)) {
            assert(line@.subrange(start as int, end as int).drop_last() =~= line@.subrange(
                start as int,
                end - 1,
            ));
            end -= 1;
        } else {
            solid = true;
        }
    }
    line.substring_char(start, end)
}

/// The code of `c`, with that of the small letter for an ASCII capital.
fn fold_ascii(c: char) -> (code: u32)
    ensures
        code == ascii_fold(c),
{
    let code: u32 = c as u32;
    if 0x41 <= code && code <= 0x5a {
        code + 0x20
    } else {
        code
    }
}

/// Tells whether `a` and `b` are equal but for the case of their ASCII
/// letters.
pub fn eq_ignore_ascii_case(a: &str, b: &str) -> (equal: bool)
    ensures
        equal == same_ignoring_ascii_case(a@, b@),
{
    let n = a.unicode_len();
    if n != b.unicode_len() {
        return false;
    }
    let mut i: usize = 0;
    while i < n
        invariant
            n == a@.len(),
            n == b@.len(),
            i <= n,
            forall|k: int| 0 <= k < i ==> ascii_fold(#[trigger] a@[k]) == ascii_fold(b@[k]),
        decreases n - i,
    {
        if fold_ascii(a.get_char(i)) != fold_ascii(b.get_char(i)) {
            return false;
        }
        i += 1;
    }
    true
}

/// Tells whether `text` is the word that ends the session, in any case of its
/// letters.
pub fn is_exit_command(text: &str) -> (exit: bool)
    ensures
        exit == same_ignoring_ascii_case(text@, exit_command()),
{
    eq_ignore_ascii_case(text, "exit")
}

} // verus!
