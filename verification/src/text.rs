//! Strings: their characters, copies, comparison and search.

use vstd::prelude::*;
use vstd::string::*;
use vstd::utf8::encode_utf8_decode_utf8;
use crate::octets::equal;

verus! {

/// The characters of a string that may be absent.
pub open spec fn text_view(text: Option<String>) -> Option<Seq<char>> {
    match text {
        Some(text) => Some(text@),
        None => None,
    }
}

/// A copy of a string that may be absent.
pub fn copy_text(text: &Option<String>) -> (copy: Option<String>)
    ensures
        text_view(copy) == text_view(*text),
{
    match text {
        Some(text) => Some(text.clone()),
        None => None,
    }
}

/// Whether two strings hold the same characters.
pub fn same_text(left: &str, right: &str) -> (same: bool)
    ensures
        same == (left@ == right@),
{
    proof {
        encode_utf8_decode_utf8(left@);
        encode_utf8_decode_utf8(right@);
    }
    equal(left.as_bytes(), right.as_bytes())
}

/// Calls `String::push`. Trusted: it appends the character.
#[verifier::external_body]
pub(crate) fn push_char(text: &mut String, c: char)
    ensures
        final(text)@ == old(text)@.push(c),
{
    text.push(c)
}

/// The characters of a string.
pub fn chars_of(text: &str) -> (chars: Vec<char>)
    ensures
        chars@ == text@,
{
    let mut chars: Vec<char> = Vec::new();
    for c in it: text.chars()
        invariant
            it.seq() == text@,
            chars@ == it.seq().take(it.index() as int),
    {
        chars.push(c);
        proof {
            assert(chars@ =~= it.seq().take(it.index() + 1));
        }
    }
    proof {
        assert(text@.take(text@.len() as int) =~= text@);
    }
    chars
}

/// `needle` lies in `hay` starting at position `at`.
pub open spec fn occurs_at(hay: Seq<char>, needle: Seq<char>, at: int) -> bool {
    &&& 0 <= at
    &&& at + needle.len() <= hay.len()
    &&& hay.subrange(at, at + needle.len()) == needle
}

/// `needle` is a contiguous part of `hay`.
pub open spec fn occurs_in(hay: Seq<char>, needle: Seq<char>) -> bool {
    exists|at: int| occurs_at(hay, needle, at)
}

/// A text is part of whatever is put around it.
pub proof fn lemma_occurs_between(before: Seq<char>, needle: Seq<char>, after: Seq<char>)
    ensures
        occurs_in(before + needle + after, needle),
{
    let hay = before + needle + after;
    assert(hay.subrange(before.len() as int, (before.len() + needle.len()) as int) =~= needle);
    assert(occurs_at(hay, needle, before.len() as int));
}

/// The first `upto` characters of `needle` agree with `hay` from `at` on.
spec fn agrees(hay: Seq<char>, needle: Seq<char>, at: int, upto: int) -> bool {
    forall|k: int| 0 <= k < upto ==> #[trigger] hay[at + k] == needle[k]
}

/// Whether `needle` lies in `hay` at `at`; `at + needle.len()` must not pass the end.
fn matches_at(hay: &Vec<char>, needle: &Vec<char>, at: usize) -> (hit: bool)
    requires
        at + needle@.len() <= hay@.len(),
    ensures
        hit == occurs_at(hay@, needle@, at as int),
{
    let size: usize = hay.len();
    let mut k: usize = 0;
    while k < needle.len()
        invariant
            k <= needle@.len(),
            at + needle@.len() <= hay@.len(),
            hay@.len() == size,
            agrees(hay@, needle@, at as int, k as int),
        decreases needle@.len() - k,
    {
        if hay[at + k] != needle[k] {
            proof {
                let part = hay@.subrange(at as int, at + needle@.len());
                assert(part[k as int] == hay@[at + k]);
            }
            return false;
        }
        k = k + 1;
    }
    proof {
        let part = hay@.subrange(at as int, at + needle@.len());
        assert forall|j: int| 0 <= j < needle@.len() implies part[j] == needle@[j] by {
            assert(hay@[at + j] == needle@[j]);
        }
        assert(part =~= needle@);
    }
    true
}

/// Whether `needle` is a contiguous part of `hay`. The empty needle is part of everything.
pub fn contains(hay: &Vec<char>, needle: &Vec<char>) -> (found: bool)
    ensures
        found == occurs_in(hay@, needle@),
{
    if needle.len() > hay.len() {
        return false;
    }
    let last: usize = hay.len() - needle.len();
    let mut at: usize = 0;
    loop
        invariant
            last == hay@.len() - needle@.len(),
            at <= last,
            forall|p: int| 0 <= p < at ==> !occurs_at(hay@, needle@, p),
        decreases last - at,
    {
        if matches_at(hay, needle, at) {
            return true;
        }
        if at == last {
            return false;
        }
        at = at + 1;
    }
}

} // verus!
